use miga::key::KeyError;
use miga::output::OutputTarget;
use miga::pipeline::{Command, Pipeline, Report};
use miga::policy::{is_fatal, Incident};
use miga::retrieval::{Action, EngineEvent};
use miga::sharing::{Disposition, ExposureMode, ShareStep};
use miga::startup::{Settings, DEFAULT_PORT, DEFAULT_SHARE_DIR};
use miga::web::WebServerState;

const CID: &str = "bafybeigdyrzt5sfp7udm7hu76uh7y26nf3efuylqabf3oclgtqy55fbzdi";

fn settings(cid: &str, exposure: ExposureMode) -> Settings {
    Settings {
        cid: String::from(cid),
        output: None,
        verbose: false,
        exposure,
        port: DEFAULT_PORT,
        description: None,
        share_dir: String::from(DEFAULT_SHARE_DIR),
    }
}

#[test]
fn well_formed_identifier_without_sharing_is_stored_in_the_working_directory_and_the_node_leaves() {
    let opening = Pipeline::open(settings(CID, ExposureMode::Off), vec![1]).unwrap();
    assert_eq!(opening.plan.share_dir, None);
    assert_eq!(opening.plan.http_port, None);
    let mut pipeline = opening.pipeline;
    pipeline.advance(Report::Engine(EngineEvent::ListenerReady));
    pipeline.advance(Report::Engine(EngineEvent::BootstrapProgress));
    let commands = pipeline.advance(Report::Engine(EngineEvent::QueryFound(vec![42; 16])));
    assert_eq!(
        commands,
        vec![Command::Store {
            target: OutputTarget {
                directory: None,
                file: String::from(
                    "bafybeigdyrzt5sfp7udm7hu76uh7y26nf3efuylqabf3oclgtqy55fbzdi.bin"
                ),
            },
            bytes: vec![42; 16],
        }]
    );
    assert_eq!(pipeline.advance(Report::Stored(true)), vec![Command::End(Disposition::Exit)]);
    assert!(pipeline.is_finished());
}

#[test]
fn identifier_that_is_not_one_ends_the_run_before_anything_is_set_up() {
    let opening = Pipeline::open(settings("not-a-cid", ExposureMode::Off), vec![1]);
    assert_eq!(opening, Err(KeyError::InvalidIdentifier));
    assert_eq!(KeyError::InvalidIdentifier.message(), "invalid identifier");
    assert!(is_fatal(Incident::InvalidIdentifier));
}

#[test]
fn shared_content_is_written_into_the_share_directory_listed_and_the_node_stays_up() {
    let opening = Pipeline::open(settings(CID, ExposureMode::HttpServe), vec![1]).unwrap();
    assert_eq!(opening.plan.share_dir, Some(String::from("./shared")));
    assert_eq!(opening.plan.http_port, Some(4001));
    let mut registry = WebServerState::new(opening.plan.share_dir.clone().unwrap());
    let mut pipeline = opening.pipeline;
    let store = pipeline.advance(Report::Engine(EngineEvent::QueryFound(vec![1, 2, 3])));
    assert_eq!(
        store,
        vec![Command::Store {
            target: OutputTarget {
                directory: Some(String::from("./shared")),
                file: format!("{}.bin", CID),
            },
            bytes: vec![1, 2, 3],
        }]
    );
    let mut share = pipeline.advance(Report::Stored(true));
    assert_eq!(share.len(), 1);
    match share.remove(0) {
        Command::Share(ShareStep::Register(content)) => registry.register(content),
        other => panic!("expected a registration, got {:?}", other),
    }
    assert_eq!(registry.len(), 1);
    let page = registry.list_page();
    assert!(page.contains(&format!("<div class=\"content-cid\">CID: {}</div>", CID)));
    assert!(page.contains(&format!("<a href=\"/files/{}.bin\" class=\"download-link\">", CID)));
    let end = pipeline.advance(Report::Shared(true));
    assert_eq!(end, vec![Command::End(Disposition::KeepAlive { wake_after_secs: 3600 })]);
    assert_ne!(end, vec![Command::End(Disposition::Exit)]);
}

#[test]
fn failed_first_lookup_is_repeated_after_the_backoff_without_the_operator() {
    let opening = Pipeline::open(settings(CID, ExposureMode::Off), vec![1]).unwrap();
    let first = opening.commands;
    let mut pipeline = opening.pipeline;
    let second = pipeline.advance(Report::Engine(EngineEvent::QueryFailed));
    assert_eq!(first.len(), 1);
    assert_eq!(second.len(), 2);
    assert_eq!(second[0], Command::Engine(Action::Wait { seconds: 5 }));
    assert_eq!(second[1], first[0]);
    assert!(matches!(&second[1], Command::Engine(Action::Lookup { .. })));
    assert!(!is_fatal(Incident::LookupFailed));
}
