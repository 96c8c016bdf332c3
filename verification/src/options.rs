//! Shared option groups that the command structs embed: which graph to act
//! on, which subgraph, and which configuration profile supplies the
//! credentials.

use vstd::prelude::*;

verus! {

/// A graph identity in the registry: a graph name plus a variant.
#[derive(Debug, PartialEq, Eq)]
pub struct GraphRef {
    pub name: String,
    pub variant: String,
}

impl Clone for GraphRef {
    fn clone(&self) -> (r: Self)
        ensures
            r == *self,
    {
        GraphRef { name: self.name.clone(), variant: self.variant.clone() }
    }
}

/// Which graph a command acts on.
pub struct GraphRefOpt {
    pub graph_ref: GraphRef,
}

/// Which subgraph a command acts on.
pub struct SubgraphOpt {
    pub subgraph_name: String,
}

/// Which configuration profile supplies credentials.
pub struct ProfileOpt {
    pub profile_name: String,
}

impl ProfileOpt {
    /// The text shown for this profile, which is just its name.
    pub fn display_name(&self) -> (r: String)
        ensures
            r@ == self.profile_name@,
    {
        self.profile_name.clone()
    }
}

} // verus!
