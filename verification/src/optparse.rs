//! The immutable startup record and the rule that produces it. Reading
//! the command line belongs to the front end; the decision of which
//! configuration path wins is made here.

use vstd::prelude::*;

verus! {

/// The record produced once at startup. The resolved configuration-file
/// path is the one command-line datum the engine consumes; every other
/// behaviour override lives in the configuration document itself. Never
/// mutated after construction.
pub struct RunConfiguration {
    pub path: String,
}

/// The startup record from an optional path given on the command line and
/// the build's default path: an explicit path wins.
pub fn run_configuration(cli_path: Option<String>, default_path: &str) -> (r: RunConfiguration)
    ensures
        r.path@ == match cli_path {
            Some(p) => p@,
            None => default_path@,
        },
{
    match cli_path {
        Some(p) => RunConfiguration { path: p },
        None => RunConfiguration { path: default_path.to_owned() },
    }
}

} // verus!
