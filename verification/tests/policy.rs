use miga::policy::{is_fatal, is_reported, respond, Incident, Response};

const ALL: [Incident; 8] = [
    Incident::InvalidIdentifier,
    Incident::TransportSetup,
    Incident::SeedSkipped,
    Incident::StoreFailed,
    Incident::PublishFailed,
    Incident::RegistrationRefused,
    Incident::LookupFailed,
    Incident::UnhandledEvent,
];

#[test]
fn each_incident_has_its_response() {
    assert_eq!(respond(Incident::InvalidIdentifier), Response::Abort);
    assert_eq!(respond(Incident::TransportSetup), Response::Abort);
    assert_eq!(respond(Incident::SeedSkipped), Response::SkipAndLog);
    assert_eq!(respond(Incident::StoreFailed), Response::SkipAndLog);
    assert_eq!(respond(Incident::PublishFailed), Response::SkipAndLog);
    assert_eq!(respond(Incident::RegistrationRefused), Response::SkipAndLog);
    assert_eq!(respond(Incident::LookupFailed), Response::Retry);
    assert_eq!(respond(Incident::UnhandledEvent), Response::Note);
}

#[test]
fn only_a_bad_identifier_and_a_failed_setup_end_the_run() {
    let fatal: Vec<Incident> = ALL.iter().copied().filter(|i| is_fatal(*i)).collect();
    assert_eq!(fatal, vec![Incident::InvalidIdentifier, Incident::TransportSetup]);
}

#[test]
fn notes_are_shown_only_to_an_operator_who_asked() {
    for incident in ALL {
        assert!(is_reported(incident, true));
        assert_eq!(is_reported(incident, false), incident != Incident::UnhandledEvent);
    }
}
