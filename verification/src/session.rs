//! The course of one session: loading, browsing, and the end.

use vstd::prelude::*;
use crate::app::{App, AppView};
use crate::context::{context_views, KubeContext};
use crate::error::ConfigError;
use crate::input::Action;

verus! {

/// The three states that a session passes through.
#[derive(Clone, Copy, Debug, PartialEq, Eq, Structural)]
pub enum Phase {
    Loading,
    Browsing,
    Terminated,
}

/// How a session ended.
#[derive(Debug)]
pub enum Outcome {
    /// The operator left without choosing; nothing was written.
    Quit,
    /// The named context was written as the current one.
    Switched(String),
    /// The file lists no context, so there was nothing to browse.
    NoContexts,
    /// Loading or saving failed.
    Failed(ConfigError),
}

/// The request to write a context name into the file at a path as its
/// current context.
#[derive(Debug)]
pub struct SaveRequest {
    pub config_path: String,
    pub context_name: String,
}

/// A session in one of its states. What is to be done next follows from the
/// state alone: load the file, show the list and read a key, carry out the
/// save, or leave.
#[derive(Debug)]
pub enum Session {
    /// The file at the path is still to be loaded.
    Loading { config_path: String },
    /// The list is on show and the next key is awaited.
    Browsing { app: App },
    /// A choice was confirmed and is still to be saved as the request says.
    /// This is the last step of browsing: nothing is shown or read any more.
    Saving { request: SaveRequest },
    /// Nothing more is shown, read or written.
    Terminated { outcome: Outcome },
}

impl Session {
    /// The state that the session is in. Saving belongs to browsing.
    pub open spec fn phase_of(self) -> Phase {
        match self {
            Session::Loading { .. } => Phase::Loading,
            Session::Browsing { .. } => Phase::Browsing,
            Session::Saving { .. } => Phase::Browsing,
            Session::Terminated { .. } => Phase::Terminated,
        }
    }

    /// A session that is to load the file at `config_path`.
    pub fn start(config_path: String) -> (session: Session)
        ensures
            session == (Session::Loading { config_path }),
    {
        Session::Loading { config_path }
    }

    /// The state that the session is in.
    pub fn phase(&self) -> (phase: Phase)
        ensures
            phase == self.phase_of(),
    {
        match self {
            Session::Loading { .. } => Phase::Loading,
            Session::Browsing { .. } => Phase::Browsing,
            Session::Saving { .. } => Phase::Browsing,
            Session::Terminated { .. } => Phase::Terminated,
        }
    }

    /// Takes the result of loading the file.
    ///
    /// A loading session with records starts browsing with the cursor on the
    /// first record. With no record it ends at once, and so it does with the
    /// error where loading failed. A session in another state stays as it is.
    pub fn loaded(self, result: Result<(Vec<KubeContext>, String), ConfigError>) -> (next: Session)
        ensures
            match self {
                Session::Loading { config_path } => match result {
                    Ok(pair) => if pair.0@.len() == 0 {
                        next == (Session::Terminated { outcome: Outcome::NoContexts })
                    } else {
                        &&& next matches Session::Browsing { app }
                        &&& app@ == (AppView {
                            contexts: context_views(pair.0@),
                            current_context: pair.1@,
                            selected_index: 0,
                            config_path: config_path@,
                        })
                    },
                    Err(e) => next == (Session::Terminated { outcome: Outcome::Failed(e) }),
                },
                _ => next == self,
            },
    {
        match self {
            Session::Loading { config_path } => match result {
                Ok(pair) => {
                    let (contexts, current_context) = pair;
                    if contexts.len() == 0 {
                        Session::Terminated { outcome: Outcome::NoContexts }
                    } else {
                        Session::Browsing { app: App::new(contexts, current_context, config_path) }
                    }
                },
                Err(e) => Session::Terminated { outcome: Outcome::Failed(e) },
            },
            other => other,
        }
    }

    /// Takes one action of the operator while browsing.
    ///
    /// Moving up or down moves the cursor and wraps at the ends. Quitting
    /// ends the session with nothing written. Confirming goes on to save the
    /// name of the record under the cursor into the file that was loaded;
    /// with no record to confirm it does nothing. Once a save is asked for,
    /// and in every other state, an action changes nothing.
    pub fn handle(self, action: Action) -> (next: Session)
        ensures
            match self {
                Session::Browsing { app } => match action {
                    Action::NavigateDown => {
                        &&& next matches Session::Browsing { app: moved }
                        &&& moved@ == app@.moved_down()
                    },
                    Action::NavigateUp => {
                        &&& next matches Session::Browsing { app: moved }
                        &&& moved@ == app@.moved_up()
                    },
                    Action::Quit => next == (Session::Terminated { outcome: Outcome::Quit }),
                    Action::Confirm => if app@.contexts.len() == 0 {
                        next == self
                    } else {
                        &&& next matches Session::Saving { request }
                        &&& request.config_path@ == app@.config_path
                        &&& request.context_name@ == app@.contexts[app@.selected_index].name
                    },
                    Action::Ignore => next == self,
                },
                _ => next == self,
            },
    {
        match self {
            Session::Browsing { app } => match action {
                Action::NavigateDown => {
                    let mut app = app;
                    app.next();
                    Session::Browsing { app }
                },
                Action::NavigateUp => {
                    let mut app = app;
                    app.previous();
                    Session::Browsing { app }
                },
                Action::Quit => Session::Terminated { outcome: Outcome::Quit },
                Action::Confirm => match app.selected_context() {
                    Some(context) => Session::Saving {
                        request: SaveRequest {
                            config_path: app.config_path().clone(),
                            context_name: context.name.clone(),
                        },
                    },
                    None => Session::Browsing { app },
                },
                Action::Ignore => Session::Browsing { app },
            },
            other => other,
        }
    }

    /// Takes the result of the save that a confirmation asked for.
    ///
    /// The session ends: with the saved name as the new current context where
    /// the save succeeded, with the error where it failed. A session that
    /// asked for no save stays as it is.
    pub fn saved(self, result: Result<(), ConfigError>) -> (next: Session)
        ensures
            match self {
                Session::Saving { request } => match result {
                    Ok(_) => next == (Session::Terminated {
                        outcome: Outcome::Switched(request.context_name),
                    }),
                    Err(e) => next == (Session::Terminated { outcome: Outcome::Failed(e) }),
                },
                _ => next == self,
            },
    {
        match self {
            Session::Saving { request } => match result {
                Ok(_) => Session::Terminated { outcome: Outcome::Switched(request.context_name) },
                Err(e) => Session::Terminated { outcome: Outcome::Failed(e) },
            },
            other => other,
        }
    }
}

} // verus!
