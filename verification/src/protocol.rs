//! Message protocol: the closed sets of request and response variants
//! exchanged between a follower and the session leader.

use vstd::prelude::*;

verus! {

/// The name a subgraph is registered under.
pub type SubgraphName = String;

/// The routing endpoint a subgraph serves.
pub type SubgraphUrl = String;

/// One entry of the session membership: a subgraph name and its endpoint.
pub type SubgraphKey = (SubgraphName, SubgraphUrl);

/// The current session membership as last reported by the leader.
pub type SubgraphKeys = Vec<SubgraphKey>;

/// A subgraph supplied by a caller when adding or updating: a name, an
/// endpoint url, and the schema document. The coordination layer forwards
/// it without parsing it.
#[derive(Debug, PartialEq, Eq)]
pub struct SubgraphDefinition {
    pub name: String,
    pub url: String,
    pub sdl: String,
}

impl SubgraphDefinition {
    pub fn new(name: String, url: String, sdl: String) -> (r: Self)
        ensures
            r.name == name,
            r.url == url,
            r.sdl == sdl,
    {
        SubgraphDefinition { name, url, sdl }
    }
}

impl Clone for SubgraphDefinition {
    fn clone(&self) -> (r: Self)
        ensures
            r == *self,
    {
        SubgraphDefinition { name: self.name.clone(), url: self.url.clone(), sdl: self.sdl.clone() }
    }
}

/// The request payloads a follower can send.
#[derive(Debug, Clone, PartialEq, Eq)]
pub enum FollowerMessageKind {
    HealthCheck,
    GetVersion { follower_version: String },
    GetSubgraphs,
    AddSubgraph { subgraph: SubgraphDefinition },
    UpdateSubgraph { subgraph: SubgraphDefinition },
    RemoveSubgraph { subgraph_name: SubgraphName },
}

/// One request from a follower to the leader. Beside the payload it records
/// whether the sender is itself the leader; the leader-side dispatcher uses
/// the flag for bookkeeping, the transport does not interpret it.
#[derive(Debug, Clone, PartialEq, Eq)]
pub struct FollowerMessage {
    pub kind: FollowerMessageKind,
    pub is_from_main_session: bool,
}

impl FollowerMessage {
    pub fn health_check(is_from_main_session: bool) -> (r: Self)
        ensures
            r.kind is HealthCheck,
            r.is_from_main_session == is_from_main_session,
    {
        FollowerMessage { kind: FollowerMessageKind::HealthCheck, is_from_main_session }
    }

    pub fn get_version(is_from_main_session: bool, follower_version: String) -> (r: Self)
        ensures
            r.kind matches FollowerMessageKind::GetVersion { follower_version: v }
                && v == follower_version,
            r.is_from_main_session == is_from_main_session,
    {
        FollowerMessage {
            kind: FollowerMessageKind::GetVersion { follower_version },
            is_from_main_session,
        }
    }

    pub fn get_subgraphs(is_from_main_session: bool) -> (r: Self)
        ensures
            r.kind is GetSubgraphs,
            r.is_from_main_session == is_from_main_session,
    {
        FollowerMessage { kind: FollowerMessageKind::GetSubgraphs, is_from_main_session }
    }

    pub fn add_subgraph(is_from_main_session: bool, subgraph: &SubgraphDefinition) -> (r: Self)
        ensures
            r.kind matches FollowerMessageKind::AddSubgraph { subgraph: s } && s == *subgraph,
            r.is_from_main_session == is_from_main_session,
    {
        FollowerMessage {
            kind: FollowerMessageKind::AddSubgraph { subgraph: subgraph.clone() },
            is_from_main_session,
        }
    }

    pub fn update_subgraph(is_from_main_session: bool, subgraph: &SubgraphDefinition) -> (r: Self)
        ensures
            r.kind matches FollowerMessageKind::UpdateSubgraph { subgraph: s } && s == *subgraph,
            r.is_from_main_session == is_from_main_session,
    {
        FollowerMessage {
            kind: FollowerMessageKind::UpdateSubgraph { subgraph: subgraph.clone() },
            is_from_main_session,
        }
    }

    pub fn remove_subgraph(is_from_main_session: bool, subgraph_name: &SubgraphName) -> (r: Self)
        ensures
            r.kind matches FollowerMessageKind::RemoveSubgraph { subgraph_name: n }
                && n@ == subgraph_name@,
            r.is_from_main_session == is_from_main_session,
    {
        FollowerMessage {
            kind: FollowerMessageKind::RemoveSubgraph { subgraph_name: subgraph_name.clone() },
            is_from_main_session,
        }
    }
}

/// The response variants a leader can send back. `GetVersion` and
/// `LeaderSessionInfo` are interpreted by the follower; the remaining
/// variants are session bookkeeping that a follower ignores.
#[derive(Debug, Clone, PartialEq, Eq)]
pub enum LeaderMessageKind {
    GetVersion { leader_version: String, follower_version: String },
    LeaderSessionInfo { subgraphs: SubgraphKeys },
    MessageReceived,
    ErrorNotification { error: String },
    CompositionSuccess,
}

impl LeaderMessageKind {
    pub fn get_version(leader_version: String, follower_version: String) -> (r: Self)
        ensures
            r matches LeaderMessageKind::GetVersion { leader_version: l, follower_version: f }
                && l == leader_version && f == follower_version,
    {
        LeaderMessageKind::GetVersion { leader_version, follower_version }
    }

    pub fn current_subgraphs(subgraphs: SubgraphKeys) -> (r: Self)
        ensures
            r matches LeaderMessageKind::LeaderSessionInfo { subgraphs: s } && s == subgraphs,
    {
        LeaderMessageKind::LeaderSessionInfo { subgraphs }
    }

    pub fn message_received() -> (r: Self)
        ensures
            r is MessageReceived,
    {
        LeaderMessageKind::MessageReceived
    }
}

} // verus!
