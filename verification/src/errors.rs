//! Typed failures of the coordination layer. Every operation either returns
//! a well-formed result or one of these; nothing is retried on the caller's
//! behalf.

use vstd::prelude::*;
use vstd::string::StringExecFns;
use crate::protocol::FollowerMessage;

verus! {

/// Why a round trip to the leader failed.
#[derive(Debug, Clone, PartialEq, Eq)]
pub enum SessionError {
    /// No leader process is listening at the configured socket address.
    ConnectionUnavailable,
    /// The request was written (or queued) but no well-formed reply arrived;
    /// carries the outgoing request for diagnostics.
    NoResponse { request: FollowerMessage },
    /// The in-process leader's own dispatcher is gone, so the loopback
    /// queues can never be served again.
    ChannelClosed,
    /// The leader answered a version probe with a different build version;
    /// fatal for the follower that noticed it.
    VersionMismatch { leader_version: String, follower_version: String },
    /// Bytes arrived on the wire but did not frame or parse as a message;
    /// carries the outgoing request for diagnostics.
    FramingOrDeserialization { request: FollowerMessage },
}

/// The transport-level failures: everything but a version mismatch.
pub open spec fn is_transport_error(e: &SessionError) -> bool {
    ||| e is ConnectionUnavailable
    ||| e is NoResponse
    ||| e is ChannelClosed
    ||| e is FramingOrDeserialization
}

impl SessionError {
    /// A remediation hint a caller can print next to the failure.
    pub fn suggestion(&self) -> (r: String)
        ensures
            self is VersionMismatch ==> r@ == "use the same version of this tool for every process of one session"@,
            self is ConnectionUnavailable ==> r@ == "start a leader session, or check that one is still running"@,
            is_transport_error(self) && !(self is ConnectionUnavailable) ==> r@ == "this is a bug: please report it"@,
    {
        match self {
            SessionError::VersionMismatch { .. } => String::from_str(
                "use the same version of this tool for every process of one session",
            ),
            SessionError::ConnectionUnavailable => String::from_str(
                "start a leader session, or check that one is still running",
            ),
            _ => String::from_str("this is a bug: please report it"),
        }
    }
}

} // verus!
