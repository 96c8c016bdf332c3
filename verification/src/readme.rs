//! The readme commands: fetch a graph's README, or publish a new one. Both
//! are one authenticated registry round trip, so their `run` lives in the
//! shell; the command data and its file-source model live here.

use vstd::prelude::*;
use crate::options::{GraphRefOpt, ProfileOpt};

verus! {

/// Where the README text comes from: standard input, or a file path.
pub enum FileDescriptorType {
    Stdin,
    File { path: String },
}

/// Fetch a graph's README from the registry.
pub struct Fetch {
    pub graph: GraphRefOpt,
    pub profile: ProfileOpt,
}

/// Publish a README to the registry, read from a file or standard input.
pub struct Publish {
    pub graph: GraphRefOpt,
    pub profile: ProfileOpt,
    pub file: FileDescriptorType,
}

} // verus!
