use miga::key::ContentKey;
use miga::retrieval::{Action, EngineEvent, RetrievalMachine, RetrievalState, RETRY_BACKOFF_SECS};

const CID: &str = "bafybeigdyrzt5sfp7udm7hu76uh7y26nf3efuylqabf3oclgtqy55fbzdi";

fn key_bytes() -> Vec<u8> {
    ContentKey::parse(CID).unwrap().as_bytes().clone()
}

fn started() -> RetrievalMachine {
    RetrievalMachine::start(ContentKey::parse(CID).unwrap()).0
}

fn lookup() -> Action {
    Action::Lookup { key: key_bytes() }
}

#[test]
fn backoff_is_five_seconds() {
    assert_eq!(RETRY_BACKOFF_SECS, 5);
}

#[test]
fn start_issues_the_first_lookup() {
    let (machine, actions) = RetrievalMachine::start(ContentKey::parse(CID).unwrap());
    assert_eq!(actions, vec![lookup()]);
    assert_eq!(machine.state(), &RetrievalState::Idle);
    assert!(!machine.is_finished());
    assert_eq!(machine.content(), None);
    assert_eq!(machine.key().as_bytes(), &key_bytes());
}

#[test]
fn first_ready_listener_triggers_the_bootstrap() {
    let mut machine = started();
    assert_eq!(machine.on_event(EngineEvent::ListenerReady), vec![Action::Bootstrap]);
    assert_eq!(machine.state(), &RetrievalState::Bootstrapping);
}

#[test]
fn bootstrap_is_asked_for_once_however_many_listeners_are_ready() {
    let mut machine = started();
    let mut bootstraps = 0;
    for _ in 0..5 {
        for action in machine.on_event(EngineEvent::ListenerReady) {
            if action == Action::Bootstrap {
                bootstraps += 1;
            }
        }
    }
    assert_eq!(bootstraps, 1);
    machine.on_event(EngineEvent::BootstrapProgress);
    assert_eq!(machine.on_event(EngineEvent::ListenerReady), vec![]);
    machine.on_event(EngineEvent::QueryFailed);
    assert_eq!(machine.on_event(EngineEvent::ListenerReady), vec![]);
    assert_eq!(machine.state(), &RetrievalState::AwaitingQueryResult);
}

#[test]
fn bootstrap_progress_reissues_the_lookup() {
    let mut machine = started();
    machine.on_event(EngineEvent::ListenerReady);
    assert_eq!(machine.on_event(EngineEvent::BootstrapProgress), vec![lookup()]);
    assert_eq!(machine.state(), &RetrievalState::AwaitingQueryResult);
    assert_eq!(machine.on_event(EngineEvent::BootstrapProgress), vec![lookup()]);
    assert_eq!(machine.state(), &RetrievalState::AwaitingQueryResult);
}

#[test]
fn bootstrap_progress_before_the_bootstrap_keeps_the_first_state() {
    let mut machine = started();
    assert_eq!(machine.on_event(EngineEvent::BootstrapProgress), vec![lookup()]);
    assert_eq!(machine.state(), &RetrievalState::Idle);
    assert_eq!(machine.on_event(EngineEvent::ListenerReady), vec![Action::Bootstrap]);
}

#[test]
fn failed_lookup_is_retried_after_the_backoff() {
    let mut machine = started();
    machine.on_event(EngineEvent::ListenerReady);
    machine.on_event(EngineEvent::BootstrapProgress);
    let actions = machine.on_event(EngineEvent::QueryFailed);
    assert_eq!(actions, vec![Action::Wait { seconds: 5 }, lookup()]);
    assert_eq!(machine.state(), &RetrievalState::AwaitingQueryResult);
}

#[test]
fn first_failure_is_followed_by_an_identical_second_lookup() {
    let (mut machine, first) = RetrievalMachine::start(ContentKey::parse(CID).unwrap());
    let second = machine.on_event(EngineEvent::QueryFailed);
    assert_eq!(second.len(), 2);
    assert_eq!(second[0], Action::Wait { seconds: RETRY_BACKOFF_SECS });
    assert_eq!(second[1], first[0]);
    assert_eq!(machine.state(), &RetrievalState::Idle);
}

#[test]
fn retries_are_not_capped_and_never_change_the_key() {
    let mut machine = started();
    machine.on_event(EngineEvent::ListenerReady);
    let mut waited = 0;
    for _ in 0..1000 {
        let actions = machine.on_event(EngineEvent::QueryFailed);
        assert_eq!(actions, vec![Action::Wait { seconds: 5 }, lookup()]);
        if let Action::Wait { seconds } = actions[0] {
            waited += seconds;
        }
        assert!(!machine.is_finished());
        assert_eq!(machine.key().as_bytes(), &key_bytes());
    }
    assert_eq!(waited, 5000);
    assert_eq!(machine.state(), &RetrievalState::Bootstrapping);
}

#[test]
fn found_value_ends_the_retrieval() {
    let mut machine = started();
    machine.on_event(EngineEvent::ListenerReady);
    machine.on_event(EngineEvent::BootstrapProgress);
    assert_eq!(machine.on_event(EngineEvent::QueryFound(vec![1, 2, 3])), vec![]);
    assert_eq!(machine.state(), &RetrievalState::Found(vec![1, 2, 3]));
    assert!(machine.is_finished());
    assert_eq!(machine.content(), Some(&vec![1, 2, 3]));
}

#[test]
fn value_may_be_found_before_the_node_has_joined() {
    let mut machine = started();
    assert_eq!(machine.on_event(EngineEvent::QueryFound(vec![])), vec![]);
    assert_eq!(machine.state(), &RetrievalState::Found(vec![]));
    assert_eq!(machine.content(), Some(&vec![]));
}

#[test]
fn finished_retrieval_ignores_every_event() {
    let mut machine = started();
    machine.on_event(EngineEvent::QueryFound(vec![9]));
    assert_eq!(machine.on_event(EngineEvent::ListenerReady), vec![]);
    assert_eq!(machine.on_event(EngineEvent::BootstrapProgress), vec![]);
    assert_eq!(machine.on_event(EngineEvent::QueryFailed), vec![]);
    assert_eq!(machine.on_event(EngineEvent::QueryFound(vec![7])), vec![]);
    assert_eq!(machine.on_event(EngineEvent::Unhandled), vec![]);
    assert_eq!(machine.state(), &RetrievalState::Found(vec![9]));
}

#[test]
fn unhandled_events_change_nothing() {
    let mut machine = started();
    assert_eq!(machine.on_event(EngineEvent::Unhandled), vec![]);
    assert_eq!(machine.state(), &RetrievalState::Idle);
    machine.on_event(EngineEvent::ListenerReady);
    assert_eq!(machine.on_event(EngineEvent::Unhandled), vec![]);
    assert_eq!(machine.state(), &RetrievalState::Bootstrapping);
    machine.on_event(EngineEvent::BootstrapProgress);
    assert_eq!(machine.on_event(EngineEvent::Unhandled), vec![]);
    assert_eq!(machine.state(), &RetrievalState::AwaitingQueryResult);
}

#[test]
fn no_run_gives_the_lookup_up() {
    let mut machine = started();
    let events = [
        EngineEvent::QueryFailed,
        EngineEvent::Unhandled,
        EngineEvent::ListenerReady,
        EngineEvent::QueryFailed,
        EngineEvent::BootstrapProgress,
        EngineEvent::ListenerReady,
        EngineEvent::QueryFailed,
    ];
    for event in events {
        machine.on_event(event);
        assert_ne!(machine.state(), &RetrievalState::Exhausted);
    }
    assert!(!machine.is_finished());
}
