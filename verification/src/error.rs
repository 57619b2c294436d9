use vstd::prelude::*;

verus! {

/// Why a session could not be set up, or why a running session ended.
#[derive(Clone, Copy, Debug, PartialEq, Eq, Structural)]
pub enum SessionError {
    /// The offer was malformed or could not be accepted.
    Negotiation,
    /// The host has no address that a peer could reach.
    Configuration,
    /// The socket failed with something other than a timeout.
    Transport,
    /// The encoding pipeline failed.
    Encoding,
    /// The negotiation engine reported a failure after set-up.
    Protocol,
}

impl SessionError {
    /// A short, fixed description of the error.
    pub fn describe(&self) -> (text: &'static str)
        ensures
            text@ == match *self {
                SessionError::Negotiation => "the offer was malformed or unacceptable"@,
                SessionError::Configuration => "no usable local network address"@,
                SessionError::Transport => "the transport failed"@,
                SessionError::Encoding => "the encoding pipeline failed"@,
                SessionError::Protocol => "the negotiation engine reported a failure"@,
            },
    {
        match self {
            SessionError::Negotiation => "the offer was malformed or unacceptable",
            SessionError::Configuration => "no usable local network address",
            SessionError::Transport => "the transport failed",
            SessionError::Encoding => "the encoding pipeline failed",
            SessionError::Protocol => "the negotiation engine reported a failure",
        }
    }
}

} // verus!
