use kube_context_picker::accessor::{get_kubernetes_contexts, set_kubernetes_context};
use kube_context_picker::app::App;
use kube_context_picker::context::KubeContext;
use kube_context_picker::display::list_rows;
use kube_context_picker::error::ConfigError;
use kube_context_picker::input::{action_for_key, Action, Key};
use kube_context_picker::session::{Outcome, Phase, SaveRequest, Session};

const PATH: &str = "/home/op/.kube/config";

const FILE: &str = "\
current-context: dev
contexts:
- name: dev
  context:
    cluster: c-dev
    user: u-dev
- name: staging
  context:
    cluster: c-staging
    user: u-staging
- name: prod
  context:
    cluster: c-prod
    user: u-prod
";

fn named(names: &[&str]) -> Vec<KubeContext> {
    names
        .iter()
        .map(|n| KubeContext { name: n.to_string(), cluster: None, user: None })
        .collect()
}

fn browsing(names: &[&str], current: &str) -> Session {
    Session::start(PATH.to_string()).loaded(Ok((named(names), current.to_string())))
}

fn cursor(session: &Session) -> usize {
    match session {
        Session::Browsing { app } => app.selected_index(),
        other => panic!("not browsing: {:?}", other),
    }
}

#[test]
fn session_starts_loading() {
    let session = Session::start(PATH.to_string());
    assert_eq!(session.phase(), Phase::Loading);
    assert!(matches!(&session, Session::Loading { config_path } if config_path == PATH));
}

#[test]
fn session_browses_from_the_first_record_after_loading() {
    let session = browsing(&["dev", "staging", "prod"], "dev");
    assert_eq!(session.phase(), Phase::Browsing);
    match &session {
        Session::Browsing { app } => {
            assert_eq!(app.selected_index(), 0);
            assert_eq!(app.contexts(), &named(&["dev", "staging", "prod"]));
            assert_eq!(app.current_context(), "dev");
            assert_eq!(app.config_path(), PATH);
        }
        other => panic!("not browsing: {:?}", other),
    }
}

#[test]
fn switching_from_dev_to_prod() {
    let session = Session::start(PATH.to_string()).loaded(get_kubernetes_contexts(FILE));
    assert_eq!(session.phase(), Phase::Browsing);
    match &session {
        Session::Browsing { app } => {
            assert_eq!(app.contexts().len(), 3);
            assert_eq!(app.selected_index(), 0);
            let rows = list_rows(app);
            assert!(rows[1].starts_with("(*) dev "));
            assert!(rows[2].starts_with("    staging "));
            assert!(rows[3].starts_with("    prod "));
        }
        other => panic!("not browsing: {:?}", other),
    }
    let session = session.handle(action_for_key(Key::Down));
    let session = session.handle(action_for_key(Key::Char('j')));
    assert_eq!(cursor(&session), 2);

    let session = session.handle(action_for_key(Key::Enter));
    assert_eq!(session.phase(), Phase::Browsing);
    let written = match &session {
        Session::Saving { request } => {
            assert_eq!(request.config_path, PATH);
            assert_eq!(request.context_name, "prod");
            set_kubernetes_context(FILE, &request.context_name).unwrap()
        }
        other => panic!("not saving: {:?}", other),
    };
    let session = session.saved(Ok(()));
    assert_eq!(session.phase(), Phase::Terminated);
    assert!(matches!(
        &session,
        Session::Terminated { outcome: Outcome::Switched(name) } if name == "prod"
    ));

    let (contexts, current) = get_kubernetes_contexts(&written).unwrap();
    assert_eq!(current, "prod");
    assert_eq!(contexts, get_kubernetes_contexts(FILE).unwrap().0);
}

#[test]
fn file_with_no_contexts_ends_the_session_at_once() {
    let loaded = get_kubernetes_contexts("apiVersion: v1\nkind: Config\ncontexts: []\n");
    assert!(matches!(&loaded, Ok((contexts, _)) if contexts.is_empty()));
    let session = Session::start(PATH.to_string()).loaded(loaded);
    assert_eq!(session.phase(), Phase::Terminated);
    assert!(matches!(session, Session::Terminated { outcome: Outcome::NoContexts }));
}

#[test]
fn file_that_cannot_be_read_ends_the_session_with_the_error() {
    let failure = ConfigError::Io("No such file or directory (os error 2)".to_string());
    let session = Session::start("/no/such/file".to_string()).loaded(Err(failure));
    assert_eq!(session.phase(), Phase::Terminated);
    match session {
        Session::Terminated { outcome: Outcome::Failed(ConfigError::Io(message)) } => {
            assert_eq!(message, "No such file or directory (os error 2)");
        }
        other => panic!("unexpected session: {:?}", other),
    }
}

#[test]
fn file_that_does_not_parse_ends_the_session_with_the_error() {
    let session =
        Session::start(PATH.to_string()).loaded(get_kubernetes_contexts("contexts: [unclosed\n"));
    assert!(matches!(
        session,
        Session::Terminated { outcome: Outcome::Failed(ConfigError::Parse(_)) }
    ));
}

#[test]
fn moving_up_from_the_first_record_reaches_the_last() {
    let session = browsing(&["dev", "staging", "prod"], "dev").handle(Action::NavigateUp);
    assert_eq!(cursor(&session), 2);
    let session = session.handle(action_for_key(Key::Char('k')));
    assert_eq!(cursor(&session), 1);
}

#[test]
fn moving_down_once_round_the_list_comes_back() {
    let mut session = browsing(&["a", "b", "c", "d"], "a");
    for expected in [1, 2, 3, 0] {
        session = session.handle(Action::NavigateDown);
        assert_eq!(cursor(&session), expected);
    }
}

#[test]
fn quitting_ends_the_session_without_a_save() {
    let session = browsing(&["dev", "prod"], "dev").handle(Action::NavigateDown);
    let session = session.handle(action_for_key(Key::Char('q')));
    assert_eq!(session.phase(), Phase::Terminated);
    assert!(matches!(session, Session::Terminated { outcome: Outcome::Quit }));
}

#[test]
fn ignored_keys_change_nothing() {
    let session = browsing(&["dev", "prod"], "dev").handle(Action::NavigateDown);
    let session = session.handle(action_for_key(Key::Char('x')));
    assert_eq!(session.phase(), Phase::Browsing);
    assert_eq!(cursor(&session), 1);
}

#[test]
fn confirming_asks_for_the_record_under_the_cursor() {
    let session = browsing(&["dev", "prod"], "dev").handle(Action::Confirm);
    match session {
        Session::Saving { request: SaveRequest { config_path, context_name } } => {
            assert_eq!(config_path, PATH);
            assert_eq!(context_name, "dev");
        }
        other => panic!("not saving: {:?}", other),
    }
}

#[test]
fn only_confirming_asks_for_a_save() {
    for action in [Action::NavigateUp, Action::NavigateDown, Action::Quit, Action::Ignore] {
        let session = browsing(&["dev", "prod"], "dev").handle(action);
        assert!(!matches!(session, Session::Saving { .. }));
    }
}

#[test]
fn confirming_in_an_empty_list_asks_for_nothing() {
    let app = App::new(Vec::new(), String::new(), PATH.to_string());
    let session = Session::Browsing { app }.handle(Action::Confirm);
    assert!(matches!(&session, Session::Browsing { app } if app.contexts().is_empty()));
}

#[test]
fn a_save_is_asked_for_at_most_once() {
    let session = browsing(&["dev", "prod"], "dev").handle(Action::Confirm);
    for action in [
        Action::NavigateUp,
        Action::NavigateDown,
        Action::Confirm,
        Action::Quit,
        Action::Ignore,
    ] {
        let after = browsing(&["dev", "prod"], "dev").handle(Action::Confirm).handle(action);
        assert!(matches!(
            after,
            Session::Saving { request } if request.context_name == "dev"
        ));
    }
    let session = session.saved(Ok(())).handle(Action::Confirm);
    assert!(matches!(session, Session::Terminated { outcome: Outcome::Switched(_) }));
}

#[test]
fn failed_save_ends_the_session_with_the_error() {
    let session = browsing(&["dev", "prod"], "dev").handle(Action::Confirm);
    let session = session.saved(Err(ConfigError::Io("Permission denied".to_string())));
    assert_eq!(session.phase(), Phase::Terminated);
    match session {
        Session::Terminated { outcome: Outcome::Failed(ConfigError::Io(message)) } => {
            assert_eq!(message, "Permission denied");
        }
        other => panic!("unexpected session: {:?}", other),
    }
}

#[test]
fn save_result_without_a_request_changes_nothing() {
    let session = browsing(&["dev", "prod"], "dev").handle(Action::NavigateDown);
    let session = session.saved(Ok(()));
    assert_eq!(session.phase(), Phase::Browsing);
    assert_eq!(cursor(&session), 1);
    let session = session.saved(Err(ConfigError::Io("late".to_string())));
    assert_eq!(cursor(&session), 1);
}

#[test]
fn terminated_session_stays_as_it_is() {
    for action in [
        Action::NavigateUp,
        Action::NavigateDown,
        Action::Confirm,
        Action::Quit,
        Action::Ignore,
    ] {
        let after = browsing(&["dev"], "dev").handle(Action::Quit).handle(action);
        assert!(matches!(after, Session::Terminated { outcome: Outcome::Quit }));
    }
    let session = browsing(&["dev", "prod"], "dev").handle(Action::Quit);
    let session = session.saved(Ok(()));
    assert!(matches!(&session, Session::Terminated { outcome: Outcome::Quit }));
    let session = session.loaded(Ok((named(&["x"]), String::new())));
    assert!(matches!(session, Session::Terminated { outcome: Outcome::Quit }));
}

#[test]
fn loading_session_takes_no_action() {
    let session = Session::start(PATH.to_string()).handle(Action::Confirm);
    assert_eq!(session.phase(), Phase::Loading);
    let session = session.saved(Ok(()));
    assert_eq!(session.phase(), Phase::Loading);
}

#[test]
fn browsing_session_is_not_loaded_again() {
    let session = browsing(&["dev", "prod"], "dev").handle(Action::NavigateDown);
    let session = session.loaded(Ok((named(&["other"]), "other".to_string())));
    assert_eq!(cursor(&session), 1);
    match &session {
        Session::Browsing { app } => assert_eq!(app.contexts(), &named(&["dev", "prod"])),
        other => panic!("not browsing: {:?}", other),
    }
}
