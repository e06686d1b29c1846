//! What happens to content once it has been found and stored: whether it is
//! published again, whether it is registered with the exposure surface, and
//! whether the node stays up afterwards.

use crate::bytes::copy_bytes;
use crate::key::{ContentKey, ContentKeyView};
use crate::output::{OutputTarget, OutputTargetView};
use crate::text::{copy_option_text, option_text};
use crate::web::{SharedContent, SharedContentView};
use vstd::prelude::*;
use vstd::string::*;

verus! {

/// Seconds between two idle wake-ups of a node that stays up to share.
pub const KEEP_ALIVE_SECS: u64 = 3600;

/// How many peers must take a published record: one.
pub const PUBLISH_REPLICAS: u32 = 1;

/// Joins a listener's address and a node's identifier.
pub const DIAL_SEPARATOR: &'static str = "/p2p/";

/// How found content is exposed to others. Chosen once, at startup.
#[derive(Debug, Clone, Copy, PartialEq, Eq, Structural)]
pub enum ExposureMode {
    /// The content is kept to this node.
    Off,
    /// The content is published again into the network.
    RePublish,
    /// The content is handed to the exposure surface.
    HttpServe,
}

/// Whether `mode` shares content at all.
pub open spec fn is_sharing(mode: ExposureMode) -> bool {
    mode != ExposureMode::Off
}

impl ExposureMode {
    /// Whether this mode shares content at all.
    pub fn shares(&self) -> (r: bool)
        ensures
            r == is_sharing(*self),
    {
        match self {
            ExposureMode::Off => false,
            _ => true,
        }
    }
}

/// A record to publish: the key, the value, the node it is attributed to,
/// when it expires, and how many peers must take it.
#[derive(Debug, PartialEq, Eq)]
pub struct PublishRequest {
    pub key: Vec<u8>,
    pub value: Vec<u8>,
    pub publisher: Vec<u8>,
    pub expires_after_secs: Option<u64>,
    pub replicas: u32,
}

/// The mathematical content of a [`PublishRequest`].
pub struct PublishRequestView {
    pub key: Seq<u8>,
    pub value: Seq<u8>,
    pub publisher: Seq<u8>,
    pub expires_after_secs: Option<u64>,
    pub replicas: u32,
}

impl View for PublishRequest {
    type V = PublishRequestView;

    open spec fn view(&self) -> PublishRequestView {
        PublishRequestView {
            key: self.key@,
            value: self.value@,
            publisher: self.publisher@,
            expires_after_secs: self.expires_after_secs,
            replicas: self.replicas,
        }
    }
}

/// The one thing to do with stored content in order to share it.
#[derive(Debug, PartialEq, Eq)]
pub enum ShareStep {
    /// Submit the record to the network.
    Publish(PublishRequest),
    /// Send the entry to the exposure surface.
    Register(SharedContent),
}

/// The mathematical content of a [`ShareStep`].
pub enum ShareStepView {
    Publish(PublishRequestView),
    Register(SharedContentView),
}

impl View for ShareStep {
    type V = ShareStepView;

    open spec fn view(&self) -> ShareStepView {
        match self {
            ShareStep::Publish(request) => ShareStepView::Publish(request@),
            ShareStep::Register(content) => ShareStepView::Register(content@),
        }
    }
}

/// The view of an optional share step.
pub open spec fn option_step(step: Option<ShareStep>) -> Option<ShareStepView> {
    match step {
        Some(s) => Some(s@),
        None => None,
    }
}

/// What the node does when the work is done.
#[derive(Debug, Clone, Copy, PartialEq, Eq, Structural)]
pub enum Disposition {
    /// Leave, successfully.
    Exit,
    /// Stay up, waking idly every `wake_after_secs` seconds.
    KeepAlive { wake_after_secs: u64 },
}

/// How a run ends: the share step to take, if any, and the disposition.
#[derive(Debug, PartialEq, Eq)]
pub struct Completion {
    pub share: Option<ShareStep>,
    pub disposition: Disposition,
}

/// The record that publishes `value` again: under the key it was found
/// under, attributed to `node`, never expiring, to be taken by one peer.
pub open spec fn publish_request(key: Seq<u8>, value: Seq<u8>, node: Seq<u8>) -> PublishRequestView {
    PublishRequestView {
        key,
        value,
        publisher: node,
        expires_after_secs: None,
        replicas: PUBLISH_REPLICAS,
    }
}

/// The share step. Nothing is shared unless the content was stored; then the
/// mode decides.
pub open spec fn share_step(
    mode: ExposureMode,
    persisted: bool,
    key: ContentKeyView,
    value: Seq<u8>,
    target: OutputTargetView,
    description: Option<Seq<char>>,
    node: Seq<u8>,
) -> Option<ShareStepView> {
    if !persisted {
        None
    } else {
        match mode {
            ExposureMode::Off => None,
            ExposureMode::RePublish => Some(
                ShareStepView::Publish(publish_request(key.bytes, value, node)),
            ),
            ExposureMode::HttpServe => Some(
                ShareStepView::Register(
                    SharedContentView { cid: key.identifier, path: target, description },
                ),
            ),
        }
    }
}

/// The disposition. A node that shares stays up, whether or not storing or
/// sharing went well; a node that does not share leaves.
pub open spec fn final_disposition(mode: ExposureMode) -> Disposition {
    if is_sharing(mode) {
        Disposition::KeepAlive { wake_after_secs: KEEP_ALIVE_SECS }
    } else {
        Disposition::Exit
    }
}

/// Decides how a run ends, given whether the content `value` found under
/// `key` was stored at `target`.
pub fn conclude(
    mode: ExposureMode,
    persisted: bool,
    key: &ContentKey,
    value: &Vec<u8>,
    target: &OutputTarget,
    description: &Option<String>,
    node: &Vec<u8>,
) -> (completion: Completion)
    ensures
        option_step(completion.share) == share_step(
            mode,
            persisted,
            key@,
            value@,
            target@,
            option_text(*description),
            node@,
        ),
        completion.disposition == final_disposition(mode),
{
    let share = if !persisted {
        None
    } else {
        match mode {
            ExposureMode::Off => None,
            ExposureMode::RePublish => Some(
                ShareStep::Publish(
                    PublishRequest {
                        key: copy_bytes(key.as_bytes()),
                        value: copy_bytes(value),
                        publisher: copy_bytes(node),
                        expires_after_secs: None,
                        replicas: PUBLISH_REPLICAS,
                    },
                ),
            ),
            ExposureMode::HttpServe => Some(
                ShareStep::Register(
                    SharedContent {
                        cid: key.identifier().clone(),
                        path: target.clone(),
                        description: copy_option_text(description),
                    },
                ),
            ),
        }
    };
    let disposition = if mode.shares() {
        Disposition::KeepAlive { wake_after_secs: KEEP_ALIVE_SECS }
    } else {
        Disposition::Exit
    };
    Completion { share, disposition }
}

/// The address under which others reach this node: the listener's address,
/// followed by the node's identifier.
pub open spec fn dial_address_text(listener: Seq<char>, node: Seq<char>) -> Seq<char> {
    listener + DIAL_SEPARATOR@ + node
}

/// The address under which others reach this node.
pub fn dial_address(listener: &str, node: &str) -> (address: String)
    ensures
        address@ == dial_address_text(listener@, node@),
{
    let mut address = String::from_str(listener);
    address.append(DIAL_SEPARATOR);
    address.append(node);
    address
}

} // verus!
