//! How the node answers what goes wrong.
//!
//! Only two things end a run with an error: an identifier that does not
//! parse, and a transport that cannot be set up. Everything else is absorbed
//! where it happens, so that the retrieval keeps going.

use vstd::prelude::*;

verus! {

/// Something that went wrong, or that the node has no use for.
#[derive(Debug, Clone, Copy, PartialEq, Eq, Structural)]
pub enum Incident {
    /// The content identifier does not parse.
    InvalidIdentifier,
    /// The transport or a listener could not be set up.
    TransportSetup,
    /// A well-known address was left out of the routing seeds.
    SeedSkipped,
    /// The found content could not be written.
    StoreFailed,
    /// The network did not take the published record.
    PublishFailed,
    /// The registration queue is full or closed.
    RegistrationRefused,
    /// A lookup ended without a value, or with an error.
    LookupFailed,
    /// The engine reported an event that the node does not react to.
    UnhandledEvent,
}

/// What the node does about an incident.
#[derive(Debug, Clone, Copy, PartialEq, Eq, Structural)]
pub enum Response {
    /// End the run with an error.
    Abort,
    /// Report it, skip the one item, and go on.
    SkipAndLog,
    /// Try again after the backoff, as often as it takes.
    Retry,
    /// Mention it when the operator asked for details, and go on.
    Note,
}

/// The response to each incident.
pub open spec fn response_to(incident: Incident) -> Response {
    match incident {
        Incident::InvalidIdentifier => Response::Abort,
        Incident::TransportSetup => Response::Abort,
        Incident::SeedSkipped => Response::SkipAndLog,
        Incident::StoreFailed => Response::SkipAndLog,
        Incident::PublishFailed => Response::SkipAndLog,
        Incident::RegistrationRefused => Response::SkipAndLog,
        Incident::LookupFailed => Response::Retry,
        Incident::UnhandledEvent => Response::Note,
    }
}

/// Whether an incident with this response is shown to the operator: notes
/// only to an operator who asked for details, everything else always.
pub open spec fn is_shown(response: Response, verbose: bool) -> bool {
    response != Response::Note || verbose
}

/// The response to `incident`.
pub fn respond(incident: Incident) -> (response: Response)
    ensures
        response == response_to(incident),
{
    match incident {
        Incident::InvalidIdentifier => Response::Abort,
        Incident::TransportSetup => Response::Abort,
        Incident::SeedSkipped => Response::SkipAndLog,
        Incident::StoreFailed => Response::SkipAndLog,
        Incident::PublishFailed => Response::SkipAndLog,
        Incident::RegistrationRefused => Response::SkipAndLog,
        Incident::LookupFailed => Response::Retry,
        Incident::UnhandledEvent => Response::Note,
    }
}

/// Whether `incident` ends the run.
pub fn is_fatal(incident: Incident) -> (fatal: bool)
    ensures
        fatal == (response_to(incident) == Response::Abort),
        fatal == (incident == Incident::InvalidIdentifier || incident
            == Incident::TransportSetup),
{
    match respond(incident) {
        Response::Abort => true,
        _ => false,
    }
}

/// Whether `incident` is shown to the operator.
pub fn is_reported(incident: Incident, verbose: bool) -> (shown: bool)
    ensures
        shown == is_shown(response_to(incident), verbose),
{
    match respond(incident) {
        Response::Note => verbose,
        _ => true,
    }
}

} // verus!
