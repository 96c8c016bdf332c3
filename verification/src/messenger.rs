//! The follower-to-leader coordinator. A `FollowerMessenger` executes
//! single-round-trip operations against the session leader and interprets
//! the replies identically whether the caller is the leader itself (loopback
//! queues) or a separate attached process (a local socket).

use vstd::prelude::*;
use crossbeam_channel::{Receiver, Sender};
use std::time::Instant;
use crate::channel::interval_ticker;
use crate::errors::SessionError;
use crate::protocol::{
    FollowerMessage, FollowerMessageKind, LeaderMessageKind, SubgraphDefinition, SubgraphKeys,
    SubgraphName,
};
use crate::socket::{connect, read_until_eof, write_all_bytes};
use crate::wire::{decode_leader_message, encode_follower_message};

verus! {

/// The heartbeat cadence of the liveness loop, in seconds.
pub const HEARTBEAT_INTERVAL_SECONDS: u64 = 1;

/// What the version gate decides once a version reply arrives. An
/// incompatible verdict is terminal, and fatal for the process that checked.
pub enum GateOutcome {
    Compatible,
    Incompatible,
}

/// The version gate: an exact byte-for-byte comparison of the two build
/// version strings. No semantic-version compatibility is attempted.
pub open spec fn version_gate(leader_version: Seq<char>, follower_version: Seq<char>) -> GateOutcome {
    if leader_version == follower_version {
        GateOutcome::Compatible
    } else {
        GateOutcome::Incompatible
    }
}

/// Every pair of unequal build version strings is incompatible: any version
/// probe answered with a different version ends in a mismatch error (see
/// `handle_leader_message`), never in session info.
pub proof fn lemma_version_gate_rejects_mismatch(
    leader_version: Seq<char>,
    follower_version: Seq<char>,
)
    requires
        leader_version != follower_version,
    ensures
        version_gate(leader_version, follower_version) is Incompatible,
{
}

/// A build identifier compared against itself is always compatible.
pub proof fn lemma_version_gate_accepts_equal(version: Seq<char>)
    ensures
        version_gate(version, version) is Compatible,
{
}

/// Which failures a round trip can surface, by transport: the loopback
/// queues only ever fail closed, the socket only ever fails to connect, to
/// get a reply, or to parse one; the version gate can fail on either.
pub open spec fn error_allowed_for_role(is_from_main_session: bool, e: SessionError) -> bool {
    if is_from_main_session {
        e is ChannelClosed || e is VersionMismatch
    } else {
        e is ConnectionUnavailable || e is NoResponse || e is FramingOrDeserialization
            || e is VersionMismatch
    }
}

/// A mismatch error is exact: it carries this follower's own version and a
/// leader version that differs from it.
pub open spec fn version_mismatch_exact(follower_version: Seq<char>, e: SessionError) -> bool {
    e matches SessionError::VersionMismatch { leader_version: lv, follower_version: fv } ==> (fv@
        == follower_version && lv@ != fv@)
}

/// The transport variants: a closed set of exactly two. The main session
/// talks to itself through a bound pair of one-way queues; an attached
/// session opens one fresh socket connection per round trip.
enum FollowerMessengerKind {
    FromMainSession {
        follower_message_sender: Sender<FollowerMessage>,
        leader_message_receiver: Receiver<LeaderMessageKind>,
    },
    FromAttachedSession { ipc_socket_addr: String },
}

impl FollowerMessengerKind {
    fn from_main_session(
        follower_message_sender: Sender<FollowerMessage>,
        leader_message_receiver: Receiver<LeaderMessageKind>,
    ) -> (r: Self)
        ensures
            r is FromMainSession,
    {
        FollowerMessengerKind::FromMainSession { follower_message_sender, leader_message_receiver }
    }

    fn from_attached_session(ipc_socket_addr: String) -> (r: Self)
        ensures
            r is FromAttachedSession,
    {
        FollowerMessengerKind::FromAttachedSession { ipc_socket_addr }
    }

    fn is_from_main_session(&self) -> (r: bool)
        ensures
            r == (self is FromMainSession),
    {
        match self {
            FollowerMessengerKind::FromMainSession { .. } => true,
            FollowerMessengerKind::FromAttachedSession { .. } => false,
        }
    }

    /// One request, one reply, one shared interpretation step: push onto the
    /// loopback queue and block on the reply queue, or open one socket
    /// connection, write one frame and read one frame. Never retried.
    fn message_leader(&self, follower_version: &String, follower_message: FollowerMessage) -> (r:
        Result<Option<SubgraphKeys>, SessionError>)
        ensures
            r matches Err(e) ==> error_allowed_for_role(self is FromMainSession, e),
            r matches Err(e) ==> version_mismatch_exact(follower_version@, e),
            r matches Err(e) ==> (e matches SessionError::NoResponse { request } ==> request
                == follower_message),
            r matches Err(e) ==> (e matches SessionError::FramingOrDeserialization { request }
                ==> request == follower_message),
    {
        match self {
            FollowerMessengerKind::FromMainSession {
                follower_message_sender,
                leader_message_receiver,
            } => {
                if follower_message_sender.send(follower_message).is_err() {
                    return Err(SessionError::ChannelClosed);
                }
                match leader_message_receiver.recv() {
                    Ok(leader_message) => self.handle_leader_message(
                        follower_version,
                        leader_message,
                    ),
                    Err(_) => Err(SessionError::ChannelClosed),
                }
            },
            FollowerMessengerKind::FromAttachedSession { ipc_socket_addr } => {
                let mut stream = match connect(ipc_socket_addr.as_str()) {
                    Some(s) => s,
                    None => { return Err(SessionError::ConnectionUnavailable); },
                };
                let frame = encode_follower_message(&follower_message);
                if !write_all_bytes(&mut stream, frame.as_slice()) {
                    return Err(SessionError::NoResponse { request: follower_message });
                }
                let reply_bytes = match read_until_eof(&mut stream) {
                    Some(b) => b,
                    None => { return Err(SessionError::NoResponse { request: follower_message }) },
                };
                match decode_leader_message(&reply_bytes) {
                    Some(reply) => self.handle_leader_message(follower_version, reply),
                    None => Err(SessionError::FramingOrDeserialization {
                        request: follower_message,
                    }),
                }
            },
        }
    }

    /// The transport-agnostic interpretation step, applied identically to
    /// every reply: gate on a version reply, hand session info through, and
    /// ignore every other variant (unrecognized replies are never protocol
    /// errors).
    fn handle_leader_message(&self, follower_version: &String, leader_message: LeaderMessageKind)
        -> (r: Result<Option<SubgraphKeys>, SessionError>)
        ensures
            r matches Err(e) ==> e is VersionMismatch,
            leader_message matches LeaderMessageKind::GetVersion {
                leader_version: lv,
                follower_version: fv,
            } ==> {
                &&& (version_gate(lv@, follower_version@) is Compatible <==> (r matches Ok(o)
                    && o is None))
                &&& (version_gate(lv@, follower_version@) is Incompatible <==> (r matches Err(
                    e,
                ) && e matches SessionError::VersionMismatch {
                    leader_version: l2,
                    follower_version: f2,
                } && l2@ == lv@ && f2@ == follower_version@))
            },
            leader_message matches LeaderMessageKind::LeaderSessionInfo { subgraphs } ==> (r
                matches Ok(o) && o matches Some(k) && k == subgraphs),
            !(leader_message is GetVersion) && !(leader_message is LeaderSessionInfo) ==> (r
                matches Ok(o) && o is None),
    {
        match leader_message {
            LeaderMessageKind::GetVersion { leader_version, follower_version: _echoed } => {
                match self.require_same_version(follower_version, leader_version) {
                    Ok(()) => Ok(None),
                    Err(e) => Err(e),
                }
            },
            LeaderMessageKind::LeaderSessionInfo { subgraphs } => Ok(Some(subgraphs)),
            _ => Ok(None),
        }
    }

    /// The version gate in executable form: strict string equality, and a
    /// mismatch error that names both versions.
    fn require_same_version(&self, follower_version: &String, leader_version: String) -> (r:
        Result<(), SessionError>)
        ensures
            version_gate(leader_version@, follower_version@) is Compatible <==> r is Ok,
            r matches Err(e) ==> e matches SessionError::VersionMismatch {
                leader_version: lv,
                follower_version: fv,
            } && lv@ == leader_version@ && fv@ == follower_version@,
    {
        if leader_version.eq(follower_version) {
            Ok(())
        } else {
            Err(SessionError::VersionMismatch {
                leader_version,
                follower_version: follower_version.clone(),
            })
        }
    }
}

/// The public-facing coordinator. Constructed once, at session-join time,
/// with the process's own build version injected; the transport choice is
/// immutable for its lifetime. It issues at most one request at a time; the
/// protocol has no request identifiers, so correlation is implicit in one
/// connection or one channel round trip per call.
pub struct FollowerMessenger {
    version: String,
    kind: FollowerMessengerKind,
}

impl FollowerMessenger {
    /// This process's own build version, as injected at construction.
    pub closed spec fn spec_version(&self) -> Seq<char> {
        self.version@
    }

    /// Whether this messenger loops back to its own process's dispatcher.
    pub closed spec fn spec_is_from_main_session(&self) -> bool {
        self.kind is FromMainSession
    }

    /// Create a messenger for the main session, which talks to its own
    /// dispatcher through a bound pair of one-way queues.
    pub fn from_main_session(
        version: String,
        follower_message_sender: Sender<FollowerMessage>,
        leader_message_receiver: Receiver<LeaderMessageKind>,
    ) -> (r: Self)
        ensures
            r.spec_is_from_main_session(),
            r.spec_version() == version@,
    {
        FollowerMessenger {
            version,
            kind: FollowerMessengerKind::from_main_session(
                follower_message_sender,
                leader_message_receiver,
            ),
        }
    }

    /// Create a messenger for an attached session, which talks to the main
    /// session over a local socket at the given address.
    pub fn from_attached_session(version: String, ipc_socket_addr: &str) -> (r: Self)
        ensures
            !r.spec_is_from_main_session(),
            r.spec_version() == version@,
    {
        FollowerMessenger {
            version,
            kind: FollowerMessengerKind::from_attached_session(ipc_socket_addr.to_owned()),
        }
    }

    /// Send a health check once per heartbeat interval to make sure the
    /// leader is alive. Blocks indefinitely, so it must run on an execution
    /// context dedicated to it; it returns, with an error, on the first
    /// failed round trip, and never retries past that. The loop carries an
    /// explicit bound because every verified loop here must terminate; at
    /// one heartbeat per second the bound outlasts any session by epochs.
    pub fn health_check(&self) -> (r: Result<(), SessionError>)
        ensures
            r is Err,
            r matches Err(e) ==> error_allowed_for_role(self.spec_is_from_main_session(), e)
                && version_mismatch_exact(self.spec_version(), e),
    {
        let ticker: Receiver<Instant> = interval_ticker(HEARTBEAT_INTERVAL_SECONDS);
        let mut outcome = self.message_leader(
            FollowerMessage::health_check(self.is_from_main_session()),
        );
        let mut remaining: u64 = u64::MAX;
        while remaining > 0 && outcome.is_ok()
            invariant
                outcome matches Err(e) ==> error_allowed_for_role(
                    self.spec_is_from_main_session(),
                    e,
                ) && version_mismatch_exact(self.spec_version(), e),
            decreases remaining,
        {
            let _ = ticker.recv();
            outcome = self.message_leader(
                FollowerMessage::health_check(self.is_from_main_session()),
            );
            remaining = remaining - 1;
        }
        match outcome {
            Err(e) => Err(e),
            Ok(_) => {
                if self.is_from_main_session() {
                    Err(SessionError::ChannelClosed)
                } else {
                    Err(SessionError::NoResponse {
                        request: FollowerMessage::health_check(false),
                    })
                }
            },
        }
    }

    /// Probe the leader's build version; the reply runs through the version
    /// gate and the non-error result is discarded.
    pub fn version_check(&self) -> (r: Result<(), SessionError>)
        ensures
            r matches Err(e) ==> error_allowed_for_role(self.spec_is_from_main_session(), e)
                && version_mismatch_exact(self.spec_version(), e),
            r matches Err(e) ==> (e matches SessionError::NoResponse { request }
                ==> request.kind matches FollowerMessageKind::GetVersion { follower_version: v }
                    && v@ == self.spec_version()),
    {
        let msg = FollowerMessage::get_version(self.is_from_main_session(), self.version.clone());
        match self.message_leader(msg) {
            Ok(_) => Ok(()),
            Err(e) => Err(e),
        }
    }

    /// Ask for the current session membership: `Some` if the leader replied
    /// with session info, `None` for any other (ignorable) reply.
    pub fn session_subgraphs(&self) -> (r: Result<Option<SubgraphKeys>, SessionError>)
        ensures
            r matches Err(e) ==> error_allowed_for_role(self.spec_is_from_main_session(), e)
                && version_mismatch_exact(self.spec_version(), e),
            r matches Err(e) ==> (e matches SessionError::NoResponse { request }
                ==> request.kind is GetSubgraphs),
    {
        self.message_leader(FollowerMessage::get_subgraphs(self.is_from_main_session()))
    }

    /// Register a subgraph with the leader; the leader is expected to reply
    /// with the updated membership, which is handed back like
    /// `session_subgraphs`.
    pub fn add_subgraph(&self, subgraph: &SubgraphDefinition) -> (r: Result<
        Option<SubgraphKeys>,
        SessionError,
    >)
        ensures
            r matches Err(e) ==> error_allowed_for_role(self.spec_is_from_main_session(), e)
                && version_mismatch_exact(self.spec_version(), e),
            r matches Err(e) ==> (e matches SessionError::NoResponse { request }
                ==> request.kind matches FollowerMessageKind::AddSubgraph { subgraph: s } && s
                    == *subgraph),
    {
        self.message_leader(FollowerMessage::add_subgraph(self.is_from_main_session(), subgraph))
    }

    /// Update a subgraph already registered with the leader; same reply
    /// shape as `add_subgraph`.
    pub fn update_subgraph(&self, subgraph: &SubgraphDefinition) -> (r: Result<
        Option<SubgraphKeys>,
        SessionError,
    >)
        ensures
            r matches Err(e) ==> error_allowed_for_role(self.spec_is_from_main_session(), e)
                && version_mismatch_exact(self.spec_version(), e),
            r matches Err(e) ==> (e matches SessionError::NoResponse { request }
                ==> request.kind matches FollowerMessageKind::UpdateSubgraph { subgraph: s } && s
                    == *subgraph),
    {
        self.message_leader(FollowerMessage::update_subgraph(self.is_from_main_session(), subgraph))
    }

    /// Remove a subgraph from the session; same reply shape as
    /// `add_subgraph`.
    pub fn remove_subgraph(&self, subgraph_name: &SubgraphName) -> (r: Result<
        Option<SubgraphKeys>,
        SessionError,
    >)
        ensures
            r matches Err(e) ==> error_allowed_for_role(self.spec_is_from_main_session(), e)
                && version_mismatch_exact(self.spec_version(), e),
            r matches Err(e) ==> (e matches SessionError::NoResponse { request }
                ==> request.kind matches FollowerMessageKind::RemoveSubgraph { subgraph_name: n }
                    && n@ == subgraph_name@),
    {
        self.message_leader(
            FollowerMessage::remove_subgraph(self.is_from_main_session(), subgraph_name),
        )
    }

    /// The shared interpretation step, public so a caller can apply it to a
    /// reply obtained out of band exactly as every round trip applies it.
    pub fn handle_leader_message(&self, leader_message: LeaderMessageKind) -> (r: Result<
        Option<SubgraphKeys>,
        SessionError,
    >)
        ensures
            leader_message matches LeaderMessageKind::GetVersion {
                leader_version: lv,
                follower_version: fv,
            } ==> {
                &&& (version_gate(lv@, self.spec_version()) is Compatible <==> (r matches Ok(o)
                    && o is None))
                &&& (version_gate(lv@, self.spec_version()) is Incompatible <==> (r matches Err(
                    e,
                ) && e matches SessionError::VersionMismatch {
                    leader_version: l2,
                    follower_version: f2,
                } && l2@ == lv@ && f2@ == self.spec_version()))
            },
            leader_message matches LeaderMessageKind::LeaderSessionInfo { subgraphs } ==> (r
                matches Ok(o) && o matches Some(k) && k == subgraphs),
            !(leader_message is GetVersion) && !(leader_message is LeaderSessionInfo) ==> (r
                matches Ok(o) && o is None),
    {
        self.kind.handle_leader_message(&self.version, leader_message)
    }

    /// The version gate, applied to a leader version received out of band.
    pub fn require_same_version(&self, leader_version: String) -> (r: Result<(), SessionError>)
        ensures
            version_gate(leader_version@, self.spec_version()) is Compatible <==> r is Ok,
            r matches Err(e) ==> e matches SessionError::VersionMismatch {
                leader_version: lv,
                follower_version: fv,
            } && lv@ == leader_version@ && fv@ == self.spec_version(),
    {
        self.kind.require_same_version(&self.version, leader_version)
    }

    /// Whether this messenger is the main session talking to itself.
    pub fn is_from_main_session(&self) -> (r: bool)
        ensures
            r == self.spec_is_from_main_session(),
    {
        self.kind.is_from_main_session()
    }

    fn message_leader(&self, follower_message: FollowerMessage) -> (r: Result<
        Option<SubgraphKeys>,
        SessionError,
    >)
        ensures
            r matches Err(e) ==> error_allowed_for_role(self.spec_is_from_main_session(), e),
            r matches Err(e) ==> version_mismatch_exact(self.spec_version(), e),
            r matches Err(e) ==> (e matches SessionError::NoResponse { request } ==> request
                == follower_message),
            r matches Err(e) ==> (e matches SessionError::FramingOrDeserialization { request }
                ==> request == follower_message),
    {
        self.kind.message_leader(&self.version, follower_message)
    }
}

} // verus!
