//! The configuration document as the `kube` crate models it, read and written
//! as YAML by `serde_yaml`. Verus takes the contracts in this file on trust.

use vstd::prelude::*;
use kube::config::Kubeconfig;
use crate::context::{ContextBody, ContextEntry, Listing, ListingView};

verus! {

/// `kube::config::Kubeconfig`: a whole configuration document. Its content is
/// not visible here; `kubeconfig_listing` names the part that is read.
#[verifier::external_type_specification]
#[verifier::external_body]
pub struct ExKubeconfig(kube::config::Kubeconfig);

/// `serde_yaml::Error`: why a text could not be read or a document not be
/// written. It is only handed on.
#[verifier::external_type_specification]
#[verifier::external_body]
pub struct ExYamlError(serde_yaml::Error);

/// The `current_context` field of a document and, for each item of its
/// `contexts` field in order, the item's `name` and its body's `cluster` and
/// `user`.
pub uninterp spec fn kubeconfig_listing(config: Kubeconfig) -> ListingView;

/// What `serde_yaml::from_str::<Kubeconfig>` makes of a text: the listing of
/// the document that it returns, or nothing where it returns an error.
pub uninterp spec fn yaml_listing(text: Seq<char>) -> Option<ListingView>;

/// Whether `text` is a YAML text that `serde_yaml::to_string` gives for some
/// document with the listing `listing`. Documents with one listing differ in
/// their other fields, and a document may hold hash maps, which are written
/// in no fixed order: so one listing has many such texts.
pub uninterp spec fn yaml_text_of(listing: ListingView, text: Seq<char>) -> bool;

/// Calls `serde_yaml::from_str` for a `Kubeconfig`. Whether the text is a
/// document, and which listing the document has, depends on the text alone:
/// that is what `yaml_listing` names.
#[verifier::external_body]
pub(crate) fn parse_kubeconfig(text: &str) -> (parsed: Result<Kubeconfig, serde_yaml::Error>)
    ensures
        match parsed {
            Ok(config) => yaml_listing(text@) == Some(kubeconfig_listing(config)),
            Err(_) => yaml_listing(text@) is None,
        },
{
    serde_yaml::from_str(text)
}

/// Copies out of a `Kubeconfig` the fields `current_context` and `contexts`,
/// each item with its `name` and, where it has a body, the body's `cluster`
/// and `user`. Nothing is left out, added or reordered.
#[verifier::external_body]
pub(crate) fn read_listing(config: &Kubeconfig) -> (listing: Listing)
    ensures
        listing@ == kubeconfig_listing(*config),
{
    Listing {
        current: config.current_context.clone(),
        entries: config.contexts.iter().map(|named| ContextEntry {
            name: named.name.clone(),
            context: named.context.as_ref().map(|body| ContextBody {
                cluster: body.cluster.clone(),
                user: body.user.clone(),
            }),
        }).collect(),
    }
}

/// Assigns `Some(name)` to the `current_context` field of a `Kubeconfig`. The
/// context entries are not touched.
#[verifier::external_body]
pub(crate) fn mark_current(config: &mut Kubeconfig, name: &str)
    ensures
        kubeconfig_listing(*final(config)).current == Some(name@),
        kubeconfig_listing(*final(config)).entries == kubeconfig_listing(*old(config)).entries,
{
    config.current_context = Some(name.to_string());
}

/// Calls `serde_yaml::to_string` on a `Kubeconfig`. Whether it succeeds and
/// which text it gives is left open; a text that it gives is, by the meaning
/// of `yaml_text_of`, a text of the document's listing.
#[verifier::external_body]
pub(crate) fn render_kubeconfig(config: &Kubeconfig) -> (rendered: Result<String, serde_yaml::Error>)
    ensures
        rendered matches Ok(text) ==> yaml_text_of(kubeconfig_listing(*config), text@),
{
    serde_yaml::to_string(config)
}

} // verus!
