//! Rendering of daemon responses for the command line.

pub mod colors;
pub mod formatters;
pub mod reports;
pub mod utils;

use vstd::prelude::*;

verus! {

/// The output format of the command-line client.
#[derive(Debug, Clone, Copy, PartialEq, Eq)]
pub enum OutputFormat {
    Table,
    Json,
    Yaml,
    Plain,
}

impl Default for OutputFormat {
    fn default() -> (r: Self)
        ensures
            r == OutputFormat::Table,
    {
        OutputFormat::Table
    }
}

/// How responses are displayed.
#[derive(Debug, Clone, Copy)]
pub struct DisplayOptions {
    pub format: OutputFormat,
    pub verbose: bool,
    pub no_headers: bool,
    pub color: bool,
}

/// Whether standard output is a terminal (`atty::is(Stream::Stdout)`); nothing
/// is stated of the answer, which depends on how the process was started.
#[verifier::external_body]
fn stdout_is_terminal() -> (r: bool) {
    atty::is(atty::Stream::Stdout)
}

impl Default for DisplayOptions {
    /// Table format, not verbose, with headers, and colour when standard
    /// output is a terminal.
    fn default() -> (r: Self)
        ensures
            r.format == OutputFormat::Table,
            !r.verbose,
            !r.no_headers,
    {
        DisplayOptions {
            format: OutputFormat::default(),
            verbose: false,
            no_headers: false,
            color: stdout_is_terminal(),
        }
    }
}

} // verus!
