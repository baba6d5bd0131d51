use northstar_master_server::envelope::ApiErrorKind;
use northstar_master_server::probe::{classify_probe, ProbeOutcome, VerifyServerError};

#[test]
fn only_the_exact_text_confirms_a_server() {
    assert!(classify_probe(&ProbeOutcome::Body("I am a northstar server!".to_string())).is_ok());
    assert!(matches!(
        classify_probe(&ProbeOutcome::Body("I am a northstar server".to_string())),
        Err(VerifyServerError::WrongResponse)
    ));
    assert!(matches!(
        classify_probe(&ProbeOutcome::Body(String::new())),
        Err(VerifyServerError::WrongResponse)
    ));
}

#[test]
fn transport_failures_keep_their_meaning() {
    assert!(matches!(
        classify_probe(&ProbeOutcome::NoConnection),
        Err(VerifyServerError::ConnectionFailed)
    ));
    assert!(matches!(
        classify_probe(&ProbeOutcome::NotHttp),
        Err(VerifyServerError::WrongProtocol)
    ));
}

#[test]
fn probe_errors_map_to_their_kinds() {
    assert_eq!(VerifyServerError::ConnectionFailed.kind(), "NO_GAMESERVER_RESPONSE");
    assert_eq!(VerifyServerError::WrongProtocol.kind(), "BAD_GAMESERVER_RESPONSE");
    assert_eq!(VerifyServerError::WrongResponse.kind(), "BAD_GAMESERVER_RESPONSE");
    assert_eq!(VerifyServerError::Unknown.kind(), "UNKNOWN");
}
