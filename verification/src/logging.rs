//! What is logged at each level of verbosity.

use crate::text::texts;
use vstd::prelude::*;
use vstd::string::*;

verus! {

/// How much the user wants to see in the log.
#[derive(Debug, Clone)]
pub struct Verbosity {
    /// The number of `-v` flags given.
    pub verbose: u8,
}

/// The log directives for a level of verbosity. Warnings and errors are
/// shown from every crate at the lower levels; from level three on
/// everything is shown at debug level, then at trace level.
pub open spec fn directives(verbose: u8) -> Seq<Seq<char>> {
    if verbose == 0 {
        seq!["warn"@, "nix_browser=info"@, "nix_rs=info"@, "leptos_extra=info"@]
    } else if verbose == 1 {
        seq!["warn"@, "nix_browser=debug"@, "tower_http=info"@]
    } else if verbose == 2 {
        seq!["warn"@, "nix_browser=trace"@, "tower_http=info"@]
    } else if verbose == 3 {
        seq!["debug"@]
    } else {
        seq!["trace"@]
    }
}

fn list3(a: &str, b: &str, c: &str) -> (r: Vec<String>)
    ensures
        texts(r@) == seq![a@, b@, c@],
{
    let mut out: Vec<String> = Vec::new();
    out.push(String::from_str(a));
    out.push(String::from_str(b));
    out.push(String::from_str(c));
    assert(texts(out@) =~= seq![a@, b@, c@]);
    out
}

fn list1(a: &str) -> (r: Vec<String>)
    ensures
        texts(r@) == seq![a@],
{
    let mut out: Vec<String> = Vec::new();
    out.push(String::from_str(a));
    assert(texts(out@) =~= seq![a@]);
    out
}

impl Verbosity {
    /// The log directives for this level of verbosity.
    pub fn log_directives(&self) -> (r: Vec<String>)
        ensures
            texts(r@) == directives(self.verbose),
    {
        match self.verbose {
            0 => {
                let mut out = list3("warn", "nix_browser=info", "nix_rs=info");
                let ghost before = texts(out@);
                out.push(String::from_str("leptos_extra=info"));
                assert(texts(out@) =~= before.push("leptos_extra=info"@));
                assert(texts(out@) =~= directives(0));
                out
            },
            1 => list3("warn", "nix_browser=debug", "tower_http=info"),
            2 => list3("warn", "nix_browser=trace", "tower_http=info"),
            3 => list1("debug"),
            _ => list1("trace"),
        }
    }
}

} // verus!
