use vstd::prelude::*;

verus! {

/// Why a forwarding operation was rejected.
///
/// Every failure ends the operation it occurs in: nothing is retried and no
/// partial reply is produced.
#[derive(Clone, Copy, Debug, PartialEq, Eq, Structural)]
pub enum Error {
    /// The outbound request could not be formed, before any network activity.
    MalformedRequest,
    /// The upstream could not be reached, or the exchange with it broke off.
    UpstreamUnreachable,
    /// The upstream's response could not be expressed as a reply.
    MalformedResponse,
}

impl Error {
    /// A short description of the failure, for logs and messages.
    pub fn message(&self) -> (text: &'static str)
        ensures
            text@ == match *self {
                Error::MalformedRequest => "malformed request"@,
                Error::UpstreamUnreachable => "upstream unreachable"@,
                Error::MalformedResponse => "malformed response"@,
            },
    {
        match self {
            Error::MalformedRequest => "malformed request",
            Error::UpstreamUnreachable => "upstream unreachable",
            Error::MalformedResponse => "malformed response",
        }
    }
}

} // verus!
