//! Classification of reachability probes against a registrant's own
//! authentication endpoint.

use vstd::prelude::*;
use vstd::string::StringExecFns;

use crate::envelope::ApiErrorKind;

verus! {

/// What the embedding observed when probing `http://<host>:<auth port>/verify`.
#[derive(Debug)]
pub enum ProbeOutcome {
    /// No TCP connection could be made, or the probe timed out.
    NoConnection,
    /// Something answered, but not with HTTP.
    NotHttp,
    /// An HTTP response arrived with this body.
    Body(String),
}

/// Ways the reachability check can fail.
#[derive(Debug)]
pub enum VerifyServerError {
    /// Could not connect to the game server's authentication endpoint.
    ConnectionFailed,
    /// The endpoint did not speak HTTP; another service may be running there.
    WrongProtocol,
    /// The endpoint answered HTTP but not with the expected text.
    WrongResponse,
    /// The request could not be attributed to a host.
    Unknown,
}

impl ApiErrorKind for VerifyServerError {
    open spec fn kind_spec(&self) -> Seq<char> {
        match self {
            VerifyServerError::ConnectionFailed => "NO_GAMESERVER_RESPONSE"@,
            VerifyServerError::WrongProtocol => "BAD_GAMESERVER_RESPONSE"@,
            VerifyServerError::WrongResponse => "BAD_GAMESERVER_RESPONSE"@,
            VerifyServerError::Unknown => "UNKNOWN"@,
        }
    }

    open spec fn message_spec(&self) -> Seq<char> {
        match self {
            VerifyServerError::ConnectionFailed => "could not connect to game server auth"@,
            VerifyServerError::WrongProtocol => "server did not respond with HTTP, is another service running?"@,
            VerifyServerError::WrongResponse => "server did not respond with the correct message"@,
            VerifyServerError::Unknown => "an unexpected error occured"@,
        }
    }

    fn kind(&self) -> (s: &'static str) {
        match self {
            VerifyServerError::ConnectionFailed => "NO_GAMESERVER_RESPONSE",
            VerifyServerError::WrongProtocol => "BAD_GAMESERVER_RESPONSE",
            VerifyServerError::WrongResponse => "BAD_GAMESERVER_RESPONSE",
            VerifyServerError::Unknown => "UNKNOWN",
        }
    }

    fn message(&self) -> (s: String) {
        match self {
            VerifyServerError::ConnectionFailed => String::from_str(
                "could not connect to game server auth",
            ),
            VerifyServerError::WrongProtocol => String::from_str(
                "server did not respond with HTTP, is another service running?",
            ),
            VerifyServerError::WrongResponse => String::from_str(
                "server did not respond with the correct message",
            ),
            VerifyServerError::Unknown => String::from_str("an unexpected error occured"),
        }
    }
}

/// The exact text a live game server answers the probe with.
pub open spec fn spec_verify_text() -> Seq<char> {
    "I am a northstar server!"@
}

/// Classifies a probe outcome: only an HTTP response whose body is exactly
/// the expected text confirms the server.
pub fn classify_probe(outcome: &ProbeOutcome) -> (r: Result<(), VerifyServerError>)
    ensures
        match outcome {
            ProbeOutcome::NoConnection => r == Err::<(), VerifyServerError>(
                VerifyServerError::ConnectionFailed,
            ),
            ProbeOutcome::NotHttp => r == Err::<(), VerifyServerError>(
                VerifyServerError::WrongProtocol,
            ),
            ProbeOutcome::Body(b) => if b@ == spec_verify_text() {
                r is Ok
            } else {
                r == Err::<(), VerifyServerError>(VerifyServerError::WrongResponse)
            },
        },
{
    match outcome {
        ProbeOutcome::NoConnection => Err(VerifyServerError::ConnectionFailed),
        ProbeOutcome::NotHttp => Err(VerifyServerError::WrongProtocol),
        ProbeOutcome::Body(b) => {
            let expected = String::from_str("I am a northstar server!");
            if b.eq(&expected) {
                Ok(())
            } else {
                Err(VerifyServerError::WrongResponse)
            }
        },
    }
}

} // verus!
