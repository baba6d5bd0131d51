//! The client-version gate: requests must come from a launcher whose version
//! satisfies the configured requirement, if one is configured.

use vstd::prelude::*;
use vstd::string::{StrSliceExecFns, StringExecFns};

use crate::envelope::ApiErrorKind;
use crate::strutil::{contains_seq, str_contains};

verus! {

/// Ways the version gate can reject a request.
#[derive(Clone, Copy, Debug, PartialEq, Eq, Structural)]
pub enum VersionError {
    /// The agent header is missing or does not name the expected launcher.
    UserAgent,
    /// The launcher version does not satisfy the configured requirement.
    Version,
}

impl ApiErrorKind for VersionError {
    open spec fn kind_spec(&self) -> Seq<char> {
        "UNSUPPORTED_VERSION"@
    }

    open spec fn message_spec(&self) -> Seq<char> {
        match self {
            VersionError::UserAgent => "user agent is not Northstar"@,
            VersionError::Version => "Northstar version is outdated"@,
        }
    }

    fn kind(&self) -> (s: &'static str) {
        "UNSUPPORTED_VERSION"
    }

    fn message(&self) -> (s: String) {
        match self {
            VersionError::UserAgent => String::from_str("user agent is not Northstar"),
            VersionError::Version => String::from_str("Northstar version is outdated"),
        }
    }
}

#[verifier::external_type_specification]
#[verifier::external_body]
pub struct ExVersionReq(semver::VersionReq);

#[verifier::external_type_specification]
#[verifier::external_body]
pub struct ExVersion(semver::Version);

/// Whether a text parses as a version requirement.
pub uninterp spec fn semver_req_ok(s: Seq<char>) -> bool;

/// Whether a text parses as a version.
pub uninterp spec fn semver_version_ok(s: Seq<char>) -> bool;

/// Relies on semver::VersionReq::parse: whether a requirement text parses is
/// a function of the text alone.
#[verifier::external_body]
fn parse_version_req(s: &str) -> (r: Option<semver::VersionReq>)
    ensures
        r is Some == semver_req_ok(s@),
{
    match semver::VersionReq::parse(s) {
        Ok(v) => Some(v),
        Err(_) => None,
    }
}

/// Relies on semver::Version::parse: whether a version text parses is a
/// function of the text alone.
#[verifier::external_body]
fn parse_version(s: &str) -> (r: Option<semver::Version>)
    ensures
        r is Some == semver_version_ok(s@),
{
    match semver::Version::parse(s) {
        Ok(v) => Some(v),
        Err(_) => None,
    }
}

/// Relies on semver::VersionReq::matches for the range check itself; the
/// caller promises nothing about which side this lands on.
#[verifier::external_body]
fn req_matches(req: &semver::VersionReq, v: &semver::Version) -> bool {
    req.matches(v)
}

/// The agent header prefix that names the launcher.
pub open spec fn spec_agent_prefix() -> Seq<char> {
    "R2Northstar/"@
}

/// Whether an agent header names the launcher: it starts with the launcher
/// prefix.
pub open spec fn spec_agent_prefixed(h: Seq<char>) -> bool {
    h.len() >= spec_agent_prefix().len() && h.take(spec_agent_prefix().len() as int)
        == spec_agent_prefix()
}

/// The version text of a prefixed agent header.
pub open spec fn spec_agent_version(h: Seq<char>) -> Seq<char> {
    h.skip(spec_agent_prefix().len() as int)
}

/// Whether a version text marks a development build, which is always let
/// through.
pub open spec fn spec_is_dev(v: Seq<char>) -> bool {
    contains_seq(v, "dev"@)
}

/// Splits the launcher version text off an agent header, or reports that the
/// header does not name the launcher.
fn strip_agent_prefix(h: &str) -> (r: Option<String>)
    ensures
        match r {
            Some(v) => spec_agent_prefixed(h@) && v@ == spec_agent_version(h@),
            None => !spec_agent_prefixed(h@),
        },
{
    let prefix = "R2Northstar/";
    proof {
        reveal_strlit("R2Northstar/");
    }
    let plen = prefix.unicode_len();
    let hlen = h.unicode_len();
    if hlen < plen {
        return None;
    }
    let mut i: usize = 0;
    while i < plen
        invariant
            plen == spec_agent_prefix().len(),
            hlen == h@.len(),
            plen <= hlen,
            i <= plen,
            prefix@ == spec_agent_prefix(),
            forall|j: int| 0 <= j < i ==> h@[j] == spec_agent_prefix()[j],
        decreases plen - i,
    {
        if h.get_char(i) != prefix.get_char(i) {
            proof {
                assert(h@.take(spec_agent_prefix().len() as int)[i as int] != spec_agent_prefix()[
                i as int]);
            }
            return None;
        }
        i += 1;
    }
    proof {
        assert(h@.take(spec_agent_prefix().len() as int) =~= spec_agent_prefix());
    }
    let v = h.substring_char(plen, hlen);
    proof {
        assert(v@ == spec_agent_version(h@));
    }
    Some(v.to_owned())
}

/// The configured launcher requirement, or no requirement at all.
pub struct VersionGate {
    requirement: Option<semver::VersionReq>,
}

impl VersionGate {
    /// Whether every client version is accepted.
    pub closed spec fn is_open(&self) -> bool {
        self.requirement is None
    }

    /// A gate with no requirement: every client version is accepted.
    pub fn open_gate() -> (r: VersionGate)
        ensures
            r.is_open(),
    {
        VersionGate { requirement: None }
    }

    /// A gate enforcing the given requirement text; fails when the text is
    /// not a valid requirement.
    pub fn from_requirement(s: &str) -> (r: Result<VersionGate, ()>)
        ensures
            match r {
                Ok(g) => semver_req_ok(s@) && !g.is_open(),
                Err(_) => !semver_req_ok(s@),
            },
    {
        match parse_version_req(s) {
            Some(req) => Ok(VersionGate { requirement: Some(req) }),
            None => Err(()),
        }
    }

    /// Checks a request's agent header. Without a configured requirement
    /// everything is accepted. Otherwise missing or foreign agents are
    /// rejected; a launcher version that names a development build is
    /// unconditionally accepted; any other version must parse and satisfy
    /// the requirement.
    pub fn check(&self, user_agent: Option<&str>) -> (r: Result<(), VersionError>)
        ensures
            self.is_open() ==> r is Ok,
            !self.is_open() && user_agent is None ==> r == Err::<(), VersionError>(
                VersionError::UserAgent,
            ),
            !self.is_open() && (user_agent matches Some(h) && !spec_agent_prefixed(h@)) ==> r
                == Err::<(), VersionError>(VersionError::UserAgent),
            (user_agent matches Some(h) && spec_agent_prefixed(h@) && spec_is_dev(
                spec_agent_version(h@),
            )) ==> r is Ok,
            !self.is_open() && (user_agent matches Some(h) && spec_agent_prefixed(h@)
                && !spec_is_dev(spec_agent_version(h@)) && !semver_version_ok(
                spec_agent_version(h@),
            )) ==> r == Err::<(), VersionError>(VersionError::Version),
            r == Err::<(), VersionError>(VersionError::UserAgent) ==> !self.is_open() && (
            user_agent is None || (user_agent matches Some(h) && !spec_agent_prefixed(h@))),
            r == Err::<(), VersionError>(VersionError::Version) ==> !self.is_open() && (user_agent
                matches Some(h) && spec_agent_prefixed(h@) && !spec_is_dev(spec_agent_version(h@))),
            (user_agent matches Some(h) && spec_agent_prefixed(h@) && !spec_is_dev(
                spec_agent_version(h@),
            ) && semver_version_ok(spec_agent_version(h@))) ==> (r is Ok || r == Err::<
                (),
                VersionError,
            >(VersionError::Version)),
    {
        let req = match &self.requirement {
            None => {
                return Ok(());
            },
            Some(req) => req,
        };
        let header = match user_agent {
            None => {
                return Err(VersionError::UserAgent);
            },
            Some(h) => h,
        };
        let version_text = match strip_agent_prefix(header) {
            None => {
                return Err(VersionError::UserAgent);
            },
            Some(v) => v,
        };
        // Development builds are only used for testing and are always let
        // through.
        if str_contains(version_text.as_str(), "dev") {
            return Ok(());
        }
        let version = match parse_version(version_text.as_str()) {
            None => {
                return Err(VersionError::Version);
            },
            Some(v) => v,
        };
        if req_matches(req, &version) {
            Ok(())
        } else {
            Err(VersionError::Version)
        }
    }
}

} // verus!
