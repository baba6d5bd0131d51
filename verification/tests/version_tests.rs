use northstar_master_server::envelope::ApiErrorKind;
use northstar_master_server::version::{VersionError, VersionGate};

#[test]
fn open_gate_accepts_everything() {
    let gate = VersionGate::open_gate();
    assert!(gate.check(None).is_ok());
    assert!(gate.check(Some("anything")).is_ok());
    assert!(gate.check(Some("R2Northstar/0.0.1")).is_ok());
}

#[test]
fn requirement_text_must_be_a_valid_range() {
    assert!(VersionGate::from_requirement(">=1.10.0").is_ok());
    assert!(VersionGate::from_requirement("1").is_ok());
    assert!(VersionGate::from_requirement("not a requirement").is_err());
}

#[test]
fn missing_or_foreign_agents_are_rejected() {
    let gate = VersionGate::from_requirement(">=1.10.0").unwrap();
    assert_eq!(gate.check(None), Err(VersionError::UserAgent));
    assert_eq!(gate.check(Some("curl/8.0")), Err(VersionError::UserAgent));
    assert_eq!(gate.check(Some("R2North")), Err(VersionError::UserAgent));
    assert_eq!(
        gate.check(Some("r2northstar/1.10.0")),
        Err(VersionError::UserAgent)
    );
}

#[test]
fn development_builds_are_always_accepted() {
    let gate = VersionGate::from_requirement(">=1.10.0").unwrap();
    assert!(gate.check(Some("R2Northstar/0.0.0-dev")).is_ok());
    assert!(gate.check(Some("R2Northstar/9.9.9+dev.build")).is_ok());
}

#[test]
fn versions_are_checked_against_the_requirement() {
    let gate = VersionGate::from_requirement(">=1.10.0").unwrap();
    assert!(gate.check(Some("R2Northstar/1.10.0")).is_ok());
    assert!(gate.check(Some("R2Northstar/2.0.1")).is_ok());
    assert_eq!(
        gate.check(Some("R2Northstar/1.9.7")),
        Err(VersionError::Version)
    );
    assert_eq!(
        gate.check(Some("R2Northstar/not.a.version")),
        Err(VersionError::Version)
    );
}

#[test]
fn gate_errors_share_one_kind() {
    assert_eq!(VersionError::UserAgent.kind(), "UNSUPPORTED_VERSION");
    assert_eq!(VersionError::Version.kind(), "UNSUPPORTED_VERSION");
    assert_eq!(VersionError::UserAgent.message(), "user agent is not Northstar");
    assert_eq!(VersionError::Version.message(), "Northstar version is outdated");
}
