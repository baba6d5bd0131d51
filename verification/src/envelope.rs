//! The uniform response envelope: every failure carries a stable kind
//! identifier and a human-readable message.

use vstd::prelude::*;
use vstd::string::StringExecFns;

verus! {

/// An error that can be reported through the response envelope: it projects
/// to a stable kind identifier and a message.
pub trait ApiErrorKind {
    /// The stable kind identifier of this error.
    spec fn kind_spec(&self) -> Seq<char>;

    /// The human-readable message of this error.
    spec fn message_spec(&self) -> Seq<char>;

    fn kind(&self) -> (s: &'static str)
        ensures
            s@ == self.kind_spec(),
    ;

    fn message(&self) -> (s: String)
        ensures
            s@ == self.message_spec(),
    ;
}

/// A failure as carried by the response envelope.
pub struct ApiError {
    kind: String,
    message: String,
}

impl View for ApiError {
    type V = (Seq<char>, Seq<char>);

    closed spec fn view(&self) -> (Seq<char>, Seq<char>) {
        (self.kind@, self.message@)
    }
}

impl ApiError {
    /// The stable kind identifier.
    pub fn kind(&self) -> (s: &str)
        ensures
            s@ == self@.0,
    {
        self.kind.as_str()
    }

    /// The human-readable message.
    pub fn message(&self) -> (s: &str)
        ensures
            s@ == self@.1,
    {
        self.message.as_str()
    }
}

/// Projects any reportable error into the envelope's carrier.
pub fn api_error_of<E: ApiErrorKind>(e: &E) -> (r: ApiError)
    ensures
        r@ == (e.kind_spec(), e.message_spec()),
{
    ApiError { kind: String::from_str(e.kind()), message: e.message() }
}

} // verus!
