//! The records of the context list and the part of a configuration document
//! that they are read from.

use vstd::prelude::*;

verus! {

/// One selectable context: its name and the cluster and user it refers to.
#[derive(Clone, Debug, PartialEq, Eq)]
pub struct KubeContext {
    pub name: String,
    pub cluster: Option<String>,
    pub user: Option<String>,
}

/// A `KubeContext` with its texts as character sequences.
pub struct KubeContextView {
    pub name: Seq<char>,
    pub cluster: Option<Seq<char>>,
    pub user: Option<Seq<char>>,
}

/// An optional text as an optional character sequence.
pub open spec fn text_view(text: Option<String>) -> Option<Seq<char>> {
    match text {
        Some(t) => Some(t@),
        None => None,
    }
}

impl View for KubeContext {
    type V = KubeContextView;

    open spec fn view(&self) -> KubeContextView {
        KubeContextView {
            name: self.name@,
            cluster: text_view(self.cluster),
            user: text_view(self.user),
        }
    }
}

/// The views of a list of records, in the same order.
pub open spec fn context_views(contexts: Seq<KubeContext>) -> Seq<KubeContextView> {
    Seq::new(contexts.len(), |i: int| contexts[i]@)
}

/// The body of a context entry: the cluster it names and, where given, the user.
#[derive(Clone, Debug, PartialEq, Eq)]
pub struct ContextBody {
    pub cluster: String,
    pub user: Option<String>,
}

pub struct ContextBodyView {
    pub cluster: Seq<char>,
    pub user: Option<Seq<char>>,
}

impl View for ContextBody {
    type V = ContextBodyView;

    open spec fn view(&self) -> ContextBodyView {
        ContextBodyView { cluster: self.cluster@, user: text_view(self.user) }
    }
}

/// One entry of a document's context list. The body may be missing.
#[derive(Clone, Debug, PartialEq, Eq)]
pub struct ContextEntry {
    pub name: String,
    pub context: Option<ContextBody>,
}

pub struct ContextEntryView {
    pub name: Seq<char>,
    pub context: Option<ContextBodyView>,
}

impl View for ContextEntry {
    type V = ContextEntryView;

    open spec fn view(&self) -> ContextEntryView {
        ContextEntryView {
            name: self.name@,
            context: match self.context {
                Some(body) => Some(body@),
                None => None,
            },
        }
    }
}

/// What the selector reads of a configuration document: the current-context
/// field and the context entries in file order.
#[derive(Clone, Debug, PartialEq, Eq)]
pub struct Listing {
    pub current: Option<String>,
    pub entries: Vec<ContextEntry>,
}

pub struct ListingView {
    pub current: Option<Seq<char>>,
    pub entries: Seq<ContextEntryView>,
}

impl View for Listing {
    type V = ListingView;

    open spec fn view(&self) -> ListingView {
        ListingView {
            current: text_view(self.current),
            entries: Seq::new(self.entries@.len(), |i: int| self.entries@[i]@),
        }
    }
}

/// The record that an entry is shown as: an entry without a body has neither
/// cluster nor user.
pub open spec fn record_of(entry: ContextEntryView) -> KubeContextView {
    KubeContextView {
        name: entry.name,
        cluster: match entry.context {
            Some(body) => Some(body.cluster),
            None => None,
        },
        user: match entry.context {
            Some(body) => body.user,
            None => None,
        },
    }
}

/// The records of a list of entries, in the same order.
pub open spec fn records_of(entries: Seq<ContextEntryView>) -> Seq<KubeContextView> {
    Seq::new(entries.len(), |i: int| record_of(entries[i]))
}

/// An optional text, with the empty text for a missing one.
pub open spec fn text_or_empty(text: Option<Seq<char>>) -> Seq<char> {
    match text {
        Some(t) => t,
        None => Seq::empty(),
    }
}

/// Turns one entry into the record that the list shows.
pub fn context_record(entry: ContextEntry) -> (record: KubeContext)
    ensures
        record@ == record_of(entry@),
{
    let ContextEntry { name, context } = entry;
    match context {
        Some(body) => KubeContext { name, cluster: Some(body.cluster), user: body.user },
        None => KubeContext { name, cluster: None, user: None },
    }
}

/// Projects a listing to the records in file order and the current name.
pub fn project_listing(listing: Listing) -> (loaded: (Vec<KubeContext>, String))
    ensures
        loaded.0@.len() == listing.entries@.len(),
        context_views(loaded.0@) == records_of(listing@.entries),
        loaded.1@ == text_or_empty(listing@.current),
{
    let Listing { current, entries } = listing;
    let ghost all = entries@;
    let mut contexts: Vec<KubeContext> = Vec::new();
    for entry in it: entries
        invariant
            it.seq() == all,
            contexts@.len() == it.index(),
            forall|i: int| 0 <= i < contexts@.len() ==> (#[trigger] contexts@[i])@ == record_of(all[i]@),
    {
        contexts.push(context_record(entry));
    }
    let name = match current {
        Some(name) => name,
        None => String::new(),
    };
    assert(context_views(contexts@) =~= records_of(listing@.entries));
    (contexts, name)
}

} // verus!
