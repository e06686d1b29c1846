use miga::key::ContentKey;
use miga::output::{resolve_output, OutputTarget};
use miga::sharing::{
    conclude, dial_address, Completion, Disposition, ExposureMode, PublishRequest, ShareStep,
    KEEP_ALIVE_SECS, PUBLISH_REPLICAS,
};
use miga::web::SharedContent;

const CID: &str = "bafybeigdyrzt5sfp7udm7hu76uh7y26nf3efuylqabf3oclgtqy55fbzdi";

fn key() -> ContentKey {
    ContentKey::parse(CID).unwrap()
}

fn target() -> OutputTarget {
    resolve_output(&None, true, CID, "./shared")
}

#[test]
fn constants_of_sharing() {
    assert_eq!(KEEP_ALIVE_SECS, 3600);
    assert_eq!(PUBLISH_REPLICAS, 1);
}

#[test]
fn only_the_off_mode_does_not_share() {
    assert!(!ExposureMode::Off.shares());
    assert!(ExposureMode::RePublish.shares());
    assert!(ExposureMode::HttpServe.shares());
}

#[test]
fn without_sharing_the_node_leaves() {
    for persisted in [false, true] {
        let completion = conclude(
            ExposureMode::Off,
            persisted,
            &key(),
            &vec![1, 2, 3],
            &target(),
            &Some(String::from("a note")),
            &vec![7, 7],
        );
        assert_eq!(completion, Completion { share: None, disposition: Disposition::Exit });
    }
}

#[test]
fn stored_content_is_published_again() {
    let completion = conclude(
        ExposureMode::RePublish,
        true,
        &key(),
        &vec![1, 2, 3],
        &target(),
        &None,
        &vec![7, 7],
    );
    assert_eq!(
        completion,
        Completion {
            share: Some(ShareStep::Publish(PublishRequest {
                key: key().as_bytes().clone(),
                value: vec![1, 2, 3],
                publisher: vec![7, 7],
                expires_after_secs: None,
                replicas: 1,
            })),
            disposition: Disposition::KeepAlive { wake_after_secs: 3600 },
        }
    );
}

#[test]
fn stored_content_is_registered_for_serving() {
    let completion = conclude(
        ExposureMode::HttpServe,
        true,
        &key(),
        &vec![1, 2, 3],
        &target(),
        &Some(String::from("a note")),
        &vec![7, 7],
    );
    assert_eq!(
        completion,
        Completion {
            share: Some(ShareStep::Register(SharedContent {
                cid: String::from(CID),
                path: OutputTarget {
                    directory: Some(String::from("./shared")),
                    file: format!("{}.bin", CID),
                },
                description: Some(String::from("a note")),
            })),
            disposition: Disposition::KeepAlive { wake_after_secs: 3600 },
        }
    );
}

#[test]
fn registered_entry_carries_the_canonical_identifier() {
    let upper = ContentKey::parse("BAFYBEIGDYRZT5SFP7UDM7HU76UH7Y26NF3EFUYLQABF3OCLGTQY55FBZDI").unwrap();
    let completion =
        conclude(ExposureMode::HttpServe, true, &upper, &vec![], &target(), &None, &vec![]);
    match completion.share {
        Some(ShareStep::Register(content)) => {
            assert_eq!(content.cid, CID);
            assert_eq!(content.description, None);
        }
        other => panic!("expected a registration, got {:?}", other),
    }
}

#[test]
fn content_that_was_not_stored_is_not_shared_but_the_node_stays_up() {
    for mode in [ExposureMode::RePublish, ExposureMode::HttpServe] {
        let completion =
            conclude(mode, false, &key(), &vec![1, 2, 3], &target(), &None, &vec![7, 7]);
        assert_eq!(
            completion,
            Completion {
                share: None,
                disposition: Disposition::KeepAlive { wake_after_secs: 3600 },
            }
        );
    }
}

#[test]
fn dial_address_joins_listener_and_node() {
    assert_eq!(
        dial_address(
            "/ip4/192.0.2.1/tcp/4001",
            "QmaCpDMGvV2BGHeYERUEnRQAwe3N8SzbUtfsmvsqQLuvuJ"
        ),
        "/ip4/192.0.2.1/tcp/4001/p2p/QmaCpDMGvV2BGHeYERUEnRQAwe3N8SzbUtfsmvsqQLuvuJ"
    );
    assert_eq!(dial_address("", ""), "/p2p/");
}
