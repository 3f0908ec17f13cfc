use vstd::prelude::*;

verus! {

/// The failure classes of the linking flow.
///
/// `Forbidden` covers both a state mismatch and a missing stored state, so a
/// caller cannot tell the two apart. `SessionError` marks a server-side
/// session inconsistency, reported distinctly from forgery.
#[derive(Clone, Copy, Debug, PartialEq, Eq, Structural)]
pub enum LinkError {
    Forbidden,
    UpstreamError,
    MalformedResponseError,
    NotFoundError,
    SessionError,
}

impl LinkError {
    /// A short text for the error, suitable as a response body.
    pub fn describe(&self) -> (r: &'static str)
        ensures
            *self is Forbidden ==> r@ == "OAuth state not same as cached state.\nWho are you...?"@,
            *self is UpstreamError ==> r@ == "A provider call failed."@,
            *self is MalformedResponseError ==> r@ == "A provider response could not be decoded."@,
            *self is NotFoundError ==> r@ == "A required record was not found."@,
            *self is SessionError ==> r@ == "The session state is inconsistent."@,
    {
        match self {
            LinkError::Forbidden => "OAuth state not same as cached state.\nWho are you...?",
            LinkError::UpstreamError => "A provider call failed.",
            LinkError::MalformedResponseError => "A provider response could not be decoded.",
            LinkError::NotFoundError => "A required record was not found.",
            LinkError::SessionError => "The session state is inconsistent.",
        }
    }
}

} // verus!
