//! What a node does before the first event: validate the identifier and fix
//! what to look for, whom to seed the routing table with, what to listen on
//! and what to create.

use crate::bootstrap::{
    accepted, add_bootstrap_nodes, skipped, view_entries, view_skipped, well_known_peers,
    BootstrapEntry, BootstrapEntryView, SkippedAddress, SkippedAddressView,
};
use crate::key::{is_identifier, key_of, ContentKey, ContentKeyView, KeyError};
use crate::sharing::{is_sharing, ExposureMode};
use crate::text::{decimal, option_text, push_decimal};
use vstd::prelude::*;
use vstd::string::*;

verus! {

/// The port that a sharing node listens on unless told otherwise.
pub const DEFAULT_PORT: u16 = 4001;

/// The share directory unless told otherwise.
pub const DEFAULT_SHARE_DIR: &'static str = "./shared";

/// Seconds after which the engine gives up on one query.
pub const QUERY_TIMEOUT_SECS: u64 = 60;

/// Seconds after which the engine closes a connection that nothing uses.
pub const IDLE_CONNECTION_TIMEOUT_SECS: u64 = 60;

/// The port that stands for "any free port".
pub const EPHEMERAL_PORT: u16 = 0;

/// A listen address up to its port: every interface, over TCP.
pub const LISTEN_PREFIX: &'static str = "/ip4/0.0.0.0/tcp/";

/// What the operator asked for.
#[derive(Debug, PartialEq, Eq)]
pub struct Settings {
    /// The identifier of the content to fetch.
    pub cid: String,
    /// Where to store the content, if the operator chose a path.
    pub output: Option<String>,
    /// Whether to report events that the node does not react to.
    pub verbose: bool,
    /// How the content is shared once it is stored.
    pub exposure: ExposureMode,
    /// The port to listen on when sharing: for peers when publishing again,
    /// for requests when serving.
    pub port: u16,
    /// What the content is, in the operator's words.
    pub description: Option<String>,
    /// The directory that shared content is stored in.
    pub share_dir: String,
}

/// The mathematical content of [`Settings`].
pub struct SettingsView {
    pub cid: Seq<char>,
    pub output: Option<Seq<char>>,
    pub verbose: bool,
    pub exposure: ExposureMode,
    pub port: u16,
    pub description: Option<Seq<char>>,
    pub share_dir: Seq<char>,
}

impl View for Settings {
    type V = SettingsView;

    open spec fn view(&self) -> SettingsView {
        SettingsView {
            cid: self.cid@,
            output: option_text(self.output),
            verbose: self.verbose,
            exposure: self.exposure,
            port: self.port,
            description: option_text(self.description),
            share_dir: self.share_dir@,
        }
    }
}

/// What to set up before the retrieval starts, in the order of the fields:
/// the routing table is seeded before anything is listened on or looked for.
#[derive(Debug, PartialEq, Eq)]
pub struct StartupPlan {
    /// The key to look for.
    pub key: ContentKey,
    /// The peers to seed the routing table with, in order.
    pub seeds: Vec<BootstrapEntry>,
    /// The well-known addresses that were left out, to be reported.
    pub skipped: Vec<SkippedAddress>,
    /// The addresses to listen on for peers, in order.
    pub listen: Vec<String>,
    /// The port to serve requests on, when serving.
    pub http_port: Option<u16>,
    /// The directory to create if absent, when sharing.
    pub share_dir: Option<String>,
}

/// The mathematical content of a [`StartupPlan`].
pub struct StartupPlanView {
    pub key: ContentKeyView,
    pub seeds: Seq<BootstrapEntryView>,
    pub skipped: Seq<SkippedAddressView>,
    pub listen: Seq<Seq<char>>,
    pub http_port: Option<u16>,
    pub share_dir: Option<Seq<char>>,
}

impl View for StartupPlan {
    type V = StartupPlanView;

    open spec fn view(&self) -> StartupPlanView {
        StartupPlanView {
            key: self.key@,
            seeds: view_entries(self.seeds@),
            skipped: view_skipped(self.skipped@),
            listen: self.listen@.map_values(|a: String| a@),
            http_port: self.http_port,
            share_dir: option_text(self.share_dir),
        }
    }
}

/// The address to listen on for peers at `port`.
pub open spec fn listen_address_text(port: u16) -> Seq<char> {
    LISTEN_PREFIX@ + decimal(port as nat)
}

/// The addresses to listen on for peers: always a free port, and the chosen
/// port as well when content is published again.
pub open spec fn listen_addresses(exposure: ExposureMode, port: u16) -> Seq<Seq<char>> {
    if exposure == ExposureMode::RePublish {
        seq![listen_address_text(EPHEMERAL_PORT), listen_address_text(port)]
    } else {
        seq![listen_address_text(EPHEMERAL_PORT)]
    }
}

/// What is set up for `settings`, whose identifier has the key `key`.
pub open spec fn planned(settings: SettingsView, key: ContentKeyView) -> StartupPlanView {
    StartupPlanView {
        key,
        seeds: accepted(well_known_peers()),
        skipped: skipped(well_known_peers()),
        listen: listen_addresses(settings.exposure, settings.port),
        http_port: if settings.exposure == ExposureMode::HttpServe {
            Some(settings.port)
        } else {
            None
        },
        share_dir: if is_sharing(settings.exposure) {
            Some(settings.share_dir)
        } else {
            None
        },
    }
}

/// What [`plan_startup`] returns for `settings`: a plan exactly when the
/// identifier is one, and then the plan for its key.
pub open spec fn startup_outcome(settings: SettingsView, r: Result<StartupPlan, KeyError>) -> bool {
    match r {
        Ok(plan) => is_identifier(settings.cid) && plan@ == planned(
            settings,
            key_of(settings.cid),
        ),
        Err(e) => !is_identifier(settings.cid) && e == KeyError::InvalidIdentifier,
    }
}

/// The address to listen on for peers at `port`.
pub fn listen_address(port: u16) -> (address: String)
    ensures
        address@ == listen_address_text(port),
{
    let mut address = String::from_str(LISTEN_PREFIX);
    push_decimal(&mut address, port as u64);
    address
}

/// Plans the startup. An identifier that does not parse ends the run before
/// anything is set up: there is no plan to carry out.
pub fn plan_startup(settings: &Settings) -> (r: Result<StartupPlan, KeyError>)
    ensures
        startup_outcome(settings@, r),
{
    let key = match ContentKey::parse(settings.cid.as_str()) {
        Ok(key) => key,
        Err(e) => {
            return Err(e);
        },
    };
    let mut seeds: Vec<BootstrapEntry> = Vec::new();
    let skipped = add_bootstrap_nodes(&mut seeds);
    assert(view_entries(seeds@) =~= accepted(well_known_peers()));
    let mut listen: Vec<String> = Vec::new();
    listen.push(listen_address(EPHEMERAL_PORT));
    let mut http_port: Option<u16> = None;
    match settings.exposure {
        ExposureMode::Off => {},
        ExposureMode::RePublish => {
            listen.push(listen_address(settings.port));
        },
        ExposureMode::HttpServe => {
            http_port = Some(settings.port);
        },
    }
    let share_dir = if settings.exposure.shares() {
        Some(settings.share_dir.clone())
    } else {
        None
    };
    let plan = StartupPlan { key, seeds, skipped, listen, http_port, share_dir };
    assert(plan@.listen =~= listen_addresses(settings.exposure, settings.port));
    Ok(plan)
}

} // verus!
