//! The docs command: list the documentation shortlinks, or compute the url
//! behind one so the shell can open it.

use vstd::prelude::*;
use vstd::string::StringExecFns;
use crate::output::RoverOutput;

verus! {

/// Every shortlink url is this prefix followed by the slug.
pub open spec fn spec_shortlink_url(slug: Seq<char>) -> Seq<char> {
    "https://go.apollo.dev/r/"@ + slug
}

/// The url behind a shortlink slug.
pub fn url_from_slug(slug: &str) -> (r: String)
    ensures
        r@ == spec_shortlink_url(slug@),
{
    String::from_str("https://go.apollo.dev/r/").concat(slug)
}

/// The documentation shortlinks: each slug with a description.
pub fn possible_shortlinks() -> (r: Vec<(String, String)>)
    ensures
        r@.len() == 4,
        r@[0].0@ == "docs"@,
        r@[1].0@ == "api-keys"@,
        r@[2].0@ == "contributing"@,
        r@[3].0@ == "start"@,
{
    let mut links: Vec<(String, String)> = Vec::new();
    links.push(
        (String::from_str("docs"), String::from_str("Rover's documentation homepage")),
    );
    links.push((String::from_str("api-keys"), String::from_str("Understanding API keys")));
    links.push((String::from_str("contributing"), String::from_str("Contributing to Rover")));
    links.push((String::from_str("start"), String::from_str("Getting started with Rover")));
    links
}

/// List all available docs links.
pub struct List {}

impl List {
    pub fn run(&self) -> (r: RoverOutput)
        ensures
            r matches RoverOutput::DocsList { shortlinks } && shortlinks@.len() == 4,
    {
        RoverOutput::DocsList { shortlinks: possible_shortlinks() }
    }
}

/// Open a docs link: the command computes the url; the shell opens it.
pub struct Open {
    pub slug: String,
}

impl Open {
    pub fn run(&self) -> (r: RoverOutput)
        ensures
            r matches RoverOutput::OpenUrl { url } && url@ == spec_shortlink_url(self.slug@),
    {
        RoverOutput::OpenUrl { url: url_from_slug(self.slug.as_str()) }
    }
}

/// The subcommands of `docs`.
pub enum Command {
    List(List),
    Open(Open),
}

/// The docs command.
pub struct Docs {
    pub command: Command,
}

impl Docs {
    pub fn run(&self) -> (r: RoverOutput)
        ensures
            self.command matches Command::List(_) ==> (r matches RoverOutput::DocsList {
                shortlinks,
            } && shortlinks@.len() == 4),
            self.command matches Command::Open(o) ==> (r matches RoverOutput::OpenUrl { url }
                && url@ == spec_shortlink_url(o.slug@)),
    {
        match &self.command {
            Command::List(command) => command.run(),
            Command::Open(command) => command.run(),
        }
    }
}

} // verus!
