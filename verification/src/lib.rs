use vstd::prelude::*;

pub mod controller;
pub mod error;
pub mod libstuff;
pub mod model;
pub mod text;

verus! {

#[verifier::external_type_specification]
#[verifier::external_body]
pub struct ExPathBuf(std::path::PathBuf);

/// The settings of the application.
#[derive(Debug)]
pub struct Config {
    pub verbose: bool,
}

impl Config {
    pub fn new(verbose: bool) -> (c: Self)
        ensures
            c.verbose == verbose,
    {
        Self { verbose }
    }
}

/// The command line: the files to open and whether to log verbosely.
#[derive(Debug)]
pub struct Cli {
    pub paths: Vec<std::path::PathBuf>,
    pub verbose: bool,
}

} // verus!
