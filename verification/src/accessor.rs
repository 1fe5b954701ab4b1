//! Reading the context list out of a configuration text and writing a new
//! current context into it.

use vstd::prelude::*;
use vstd::string::*;
use crate::context::{
    context_views, project_listing, records_of, text_or_empty, text_view, KubeContext,
    ListingView,
};
use crate::error::ConfigError;
use crate::kubeconfig::{
    kubeconfig_listing, mark_current, parse_kubeconfig, read_listing, render_kubeconfig,
    yaml_listing, yaml_text_of,
};

verus! {

/// The path of the configuration file: the override where one is given,
/// else `.kube/config` under the home directory, an unknown home directory
/// counting as the empty path.
pub open spec fn config_path_of(override_path: Option<Seq<char>>, home: Option<Seq<char>>) -> Seq<
    char,
> {
    match override_path {
        Some(path) => path,
        None => text_or_empty(home) + "/.kube/config"@,
    }
}

/// Picks the path of the configuration file from the override and the home
/// directory that the environment gives.
pub fn resolve_config_path(override_path: Option<String>, home: Option<String>) -> (path: String)
    ensures
        path@ == config_path_of(text_view(override_path), text_view(home)),
{
    match override_path {
        Some(path) => path,
        None => {
            let mut path = match home {
                Some(dir) => dir,
                None => String::new(),
            };
            path.append("/.kube/config");
            path
        },
    }
}

/// Reads the records and the current name out of a configuration text.
///
/// Succeeds exactly when the text is a configuration document. The records
/// are the document's context entries in file order, an entry without a body
/// having neither cluster nor user; the name is the document's current
/// context, or empty where it has none. Any other text gives the parser's
/// error.
pub fn get_kubernetes_contexts(text: &str) -> (loaded: Result<(Vec<KubeContext>, String), ConfigError>)
    ensures
        match yaml_listing(text@) {
            Some(listing) => {
                &&& loaded matches Ok(pair)
                &&& pair.0@.len() == listing.entries.len()
                &&& context_views(pair.0@) == records_of(listing.entries)
                &&& pair.1@ == text_or_empty(listing.current)
            },
            None => loaded matches Err(e) && e is Parse,
        },
{
    match parse_kubeconfig(text) {
        Ok(config) => Ok(project_listing(read_listing(&config))),
        Err(e) => Err(ConfigError::Parse(e)),
    }
}

/// What a save hands back for what the YAML writer gave: the text, or the
/// writer's error as a parse error.
pub fn written_text(rendered: Result<String, serde_yaml::Error>) -> (saved: Result<String, ConfigError>)
    ensures
        match rendered {
            Ok(text) => saved == Ok::<String, ConfigError>(text),
            Err(e) => saved == Err::<String, ConfigError>(ConfigError::Parse(e)),
        },
{
    match rendered {
        Ok(text) => Ok(text),
        Err(e) => Err(ConfigError::Parse(e)),
    }
}

/// The listing with `name` as its current context and the entries as they
/// are.
pub open spec fn with_current(listing: ListingView, name: Seq<char>) -> ListingView {
    ListingView { current: Some(name), entries: listing.entries }
}

/// Choosing the name that a listing already marks as current leaves the
/// listing as it is.
pub proof fn lemma_choosing_current_keeps_listing(listing: ListingView, name: Seq<char>)
    requires
        listing.current == Some(name),
    ensures
        with_current(listing, name) == listing,
{
}

/// Choosing a name twice gives the listing of choosing it once.
pub proof fn lemma_choosing_twice(listing: ListingView, name: Seq<char>)
    ensures
        with_current(with_current(listing, name), name) == with_current(listing, name),
{
}

/// Gives the configuration text with `context_name` as its current context.
///
/// A text that is no configuration document gives the parser's error.
/// Otherwise the document is written out again with the new current context
/// and the context entries it had: the result is a text of that listing, or,
/// where the YAML writer fails, its error as a parse error. The name is not
/// held against the entries.
pub fn set_kubernetes_context(text: &str, context_name: &str) -> (saved: Result<String, ConfigError>)
    ensures
        match yaml_listing(text@) {
            Some(listing) => match saved {
                Ok(out) => yaml_text_of(with_current(listing, context_name@), out@),
                Err(e) => e is Parse,
            },
            None => saved matches Err(e) && e is Parse,
        },
{
    match parse_kubeconfig(text) {
        Ok(config) => {
            let mut config = config;
            mark_current(&mut config, context_name);
            assert(kubeconfig_listing(config) == with_current(
                yaml_listing(text@)->0,
                context_name@,
            ));
            written_text(render_kubeconfig(&config))
        },
        Err(e) => Err(ConfigError::Parse(e)),
    }
}

} // verus!
