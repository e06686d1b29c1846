use miga::key::{ContentKey, KeyError};
use miga::output::OutputTarget;
use miga::pipeline::{Command, Opening, Pipeline, Report, Stage};
use miga::retrieval::{Action, EngineEvent, RetrievalState};
use miga::sharing::{Disposition, ExposureMode, PublishRequest, ShareStep};
use miga::startup::Settings;
use miga::web::SharedContent;

const CID: &str = "bafybeigdyrzt5sfp7udm7hu76uh7y26nf3efuylqabf3oclgtqy55fbzdi";

fn settings(exposure: ExposureMode) -> Settings {
    Settings {
        cid: String::from(CID),
        output: None,
        verbose: false,
        exposure,
        port: 4001,
        description: Some(String::from("a note")),
        share_dir: String::from("./shared"),
    }
}

fn opened(exposure: ExposureMode) -> Pipeline {
    Pipeline::open(settings(exposure), vec![7, 7]).unwrap().pipeline
}

fn key_bytes() -> Vec<u8> {
    ContentKey::parse(CID).unwrap().as_bytes().clone()
}

fn lookup() -> Command {
    Command::Engine(Action::Lookup { key: key_bytes() })
}

fn found(pipeline: &mut Pipeline, bytes: Vec<u8>) -> Vec<Command> {
    pipeline.advance(Report::Engine(EngineEvent::QueryFound(bytes)))
}

#[test]
fn opening_issues_the_first_lookup() {
    let Opening { pipeline, plan, commands } =
        Pipeline::open(settings(ExposureMode::Off), vec![7, 7]).unwrap();
    assert_eq!(commands, vec![lookup()]);
    assert_eq!(pipeline.stage(), Stage::Retrieving);
    assert!(!pipeline.is_finished());
    assert_eq!(pipeline.retrieval().state(), &RetrievalState::Idle);
    assert_eq!(pipeline.retrieval().key(), &plan.key);
    assert_eq!(pipeline.settings(), &settings(ExposureMode::Off));
    assert_eq!(plan.listen, vec![String::from("/ip4/0.0.0.0/tcp/0")]);
    assert_eq!(plan.seeds.len(), 6);
}

#[test]
fn opening_with_an_invalid_identifier_yields_nothing_but_the_error() {
    let mut wanted = settings(ExposureMode::RePublish);
    wanted.cid = String::from("not-a-cid");
    assert_eq!(Pipeline::open(wanted, vec![7, 7]), Err(KeyError::InvalidIdentifier));
}

#[test]
fn engine_events_drive_the_retrieval() {
    let mut pipeline = opened(ExposureMode::Off);
    assert_eq!(
        pipeline.advance(Report::Engine(EngineEvent::ListenerReady)),
        vec![Command::Engine(Action::Bootstrap)]
    );
    assert_eq!(pipeline.advance(Report::Engine(EngineEvent::ListenerReady)), vec![]);
    assert_eq!(pipeline.advance(Report::Engine(EngineEvent::BootstrapProgress)), vec![lookup()]);
    assert_eq!(
        pipeline.advance(Report::Engine(EngineEvent::QueryFailed)),
        vec![Command::Engine(Action::Wait { seconds: 5 }), lookup()]
    );
    assert_eq!(pipeline.advance(Report::Engine(EngineEvent::Unhandled)), vec![]);
    assert_eq!(pipeline.stage(), Stage::Retrieving);
    assert_eq!(pipeline.retrieval().state(), &RetrievalState::AwaitingQueryResult);
}

#[test]
fn found_content_is_stored_under_the_derived_name() {
    let mut pipeline = opened(ExposureMode::Off);
    assert_eq!(
        found(&mut pipeline, vec![1, 2, 3]),
        vec![Command::Store {
            target: OutputTarget { directory: None, file: format!("{}.bin", CID) },
            bytes: vec![1, 2, 3],
        }]
    );
    assert_eq!(pipeline.stage(), Stage::Storing);
    assert_eq!(pipeline.retrieval().content(), Some(&vec![1, 2, 3]));
}

#[test]
fn found_content_is_stored_at_the_explicit_path() {
    let mut wanted = settings(ExposureMode::HttpServe);
    wanted.output = Some(String::from("out/data.raw"));
    let mut pipeline = Pipeline::open(wanted, vec![]).unwrap().pipeline;
    assert_eq!(
        found(&mut pipeline, vec![]),
        vec![Command::Store {
            target: OutputTarget { directory: None, file: String::from("out/data.raw") },
            bytes: vec![],
        }]
    );
}

#[test]
fn without_sharing_the_run_ends_once_the_content_is_stored() {
    for stored in [true, false] {
        let mut pipeline = opened(ExposureMode::Off);
        found(&mut pipeline, vec![1]);
        assert_eq!(
            pipeline.advance(Report::Stored(stored)),
            vec![Command::End(Disposition::Exit)]
        );
        assert_eq!(pipeline.stage(), Stage::Finished);
        assert!(pipeline.is_finished());
    }
}

#[test]
fn stored_content_is_published_and_the_node_stays_up() {
    for shared in [true, false] {
        let mut pipeline = opened(ExposureMode::RePublish);
        found(&mut pipeline, vec![1, 2]);
        assert_eq!(
            pipeline.advance(Report::Stored(true)),
            vec![Command::Share(ShareStep::Publish(PublishRequest {
                key: key_bytes(),
                value: vec![1, 2],
                publisher: vec![7, 7],
                expires_after_secs: None,
                replicas: 1,
            }))]
        );
        assert_eq!(pipeline.stage(), Stage::Sharing);
        assert_eq!(
            pipeline.advance(Report::Shared(shared)),
            vec![Command::End(Disposition::KeepAlive { wake_after_secs: 3600 })]
        );
        assert_eq!(pipeline.stage(), Stage::Finished);
    }
}

#[test]
fn stored_content_is_registered_and_the_node_stays_up() {
    let mut pipeline = opened(ExposureMode::HttpServe);
    found(&mut pipeline, vec![1, 2]);
    assert_eq!(
        pipeline.advance(Report::Stored(true)),
        vec![Command::Share(ShareStep::Register(SharedContent {
            cid: String::from(CID),
            path: OutputTarget {
                directory: Some(String::from("./shared")),
                file: format!("{}.bin", CID),
            },
            description: Some(String::from("a note")),
        }))]
    );
    assert_eq!(
        pipeline.advance(Report::Shared(true)),
        vec![Command::End(Disposition::KeepAlive { wake_after_secs: 3600 })]
    );
}

#[test]
fn content_that_could_not_be_stored_is_not_shared() {
    for mode in [ExposureMode::RePublish, ExposureMode::HttpServe] {
        let mut pipeline = opened(mode);
        found(&mut pipeline, vec![1, 2]);
        assert_eq!(
            pipeline.advance(Report::Stored(false)),
            vec![Command::End(Disposition::KeepAlive { wake_after_secs: 3600 })]
        );
        assert_eq!(pipeline.stage(), Stage::Finished);
    }
}

#[test]
fn reports_that_do_not_belong_to_the_stage_are_ignored() {
    let mut pipeline = opened(ExposureMode::RePublish);
    assert_eq!(pipeline.advance(Report::Stored(true)), vec![]);
    assert_eq!(pipeline.advance(Report::Shared(true)), vec![]);
    assert_eq!(pipeline.stage(), Stage::Retrieving);
    found(&mut pipeline, vec![1]);
    assert_eq!(pipeline.advance(Report::Engine(EngineEvent::QueryFailed)), vec![]);
    assert_eq!(pipeline.advance(Report::Engine(EngineEvent::QueryFound(vec![2]))), vec![]);
    assert_eq!(pipeline.advance(Report::Shared(true)), vec![]);
    assert_eq!(pipeline.stage(), Stage::Storing);
    pipeline.advance(Report::Stored(true));
    assert_eq!(pipeline.advance(Report::Stored(true)), vec![]);
    assert_eq!(pipeline.advance(Report::Engine(EngineEvent::ListenerReady)), vec![]);
    assert_eq!(pipeline.stage(), Stage::Sharing);
    assert_eq!(pipeline.retrieval().content(), Some(&vec![1]));
}

#[test]
fn finished_run_ignores_every_report() {
    let mut pipeline = opened(ExposureMode::Off);
    found(&mut pipeline, vec![1]);
    pipeline.advance(Report::Stored(true));
    for report in [
        Report::Engine(EngineEvent::ListenerReady),
        Report::Engine(EngineEvent::QueryFailed),
        Report::Engine(EngineEvent::QueryFound(vec![9])),
        Report::Stored(true),
        Report::Stored(false),
        Report::Shared(true),
    ] {
        assert_eq!(pipeline.advance(report), vec![]);
        assert_eq!(pipeline.stage(), Stage::Finished);
    }
}

#[test]
fn each_step_is_taken_at_most_once_in_a_long_run() {
    let mut pipeline = opened(ExposureMode::RePublish);
    let mut stores = 0;
    let mut shares = 0;
    let mut ends = 0;
    let mut bootstraps = 0;
    let reports = |round: usize| -> Vec<Report> {
        vec![
            Report::Engine(EngineEvent::ListenerReady),
            Report::Engine(EngineEvent::QueryFailed),
            Report::Engine(EngineEvent::BootstrapProgress),
            Report::Stored(round % 2 == 0),
            Report::Engine(EngineEvent::QueryFound(vec![round as u8])),
            Report::Shared(true),
            Report::Stored(true),
        ]
    };
    for round in 0..6 {
        for report in reports(round) {
            for command in pipeline.advance(report) {
                match command {
                    Command::Store { .. } => stores += 1,
                    Command::Share(_) => shares += 1,
                    Command::End(_) => ends += 1,
                    Command::Engine(Action::Bootstrap) => bootstraps += 1,
                    Command::Engine(_) => {}
                }
            }
        }
    }
    assert_eq!((stores, shares, ends, bootstraps), (1, 1, 1, 1));
    assert_eq!(pipeline.retrieval().content(), Some(&vec![0]));
}
