//! The values the command layer hands back for display.

use vstd::prelude::*;

verus! {

/// What a command computed; the shell around the library decides how to
/// print it or act on it (for example, actually opening a url).
#[derive(Debug, Clone, PartialEq, Eq)]
pub enum RoverOutput {
    /// The table of documentation shortlinks: (slug, description) pairs.
    DocsList { shortlinks: Vec<(String, String)> },
    /// A url the caller should open in a browser.
    OpenUrl { url: String },
}

} // verus!
