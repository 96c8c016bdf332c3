//! Coordination library for multi-process development sessions.
//!
//! One process acts as the session leader and holds the authoritative
//! membership of subgraphs under development; any number of follower
//! processes attach to it. A follower talks to the leader through a
//! [`messenger::FollowerMessenger`], which hides whether the caller is the
//! leader itself (loopback queues) or a separate process (a local socket
//! carrying framed messages).

pub mod channel;
pub mod check_workflow;
pub mod docs;
pub mod errors;
pub mod messenger;
pub mod options;
pub mod output;
pub mod protocol;
pub mod readme;
pub mod socket;
pub mod subgraph;
pub mod wire;
