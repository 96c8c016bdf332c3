//! The subgraph registry commands: fetch one subgraph's schema, or list a
//! graph's subgraphs. Both are one authenticated registry round trip, so
//! their `run` lives in the shell; the command data lives here.

use vstd::prelude::*;
use crate::options::{GraphRefOpt, ProfileOpt, SubgraphOpt};

verus! {

/// Fetch the schema of one subgraph of a graph.
pub struct Fetch {
    pub graph: GraphRefOpt,
    pub subgraph: SubgraphOpt,
    pub profile: ProfileOpt,
}

/// List the subgraphs of a graph.
pub struct List {
    pub graph: GraphRefOpt,
    pub profile: ProfileOpt,
}

} // verus!
