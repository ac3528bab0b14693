//! Configuration and error reporting for a run of the disassembler.
//!
//! The configuration selects where the ROM bytes come from (a named file, or
//! the standard input stream when no name is given) and where the output
//! text goes (a named file, or the standard output stream). A `RunError`
//! carries the single message that a failed run reports to the user.

use vstd::prelude::*;

verus! {

/// Where the ROM bytes are read from: a named file, or the standard input
/// stream.
pub enum InputOption {
    File(String),
    Stdin,
}

/// Where the output text is written: a named file, or the standard output
/// stream.
pub enum OutputOption {
    File(String),
    Stdout,
}

/// The configuration of one run: an input source and an output destination.
pub struct Config {
    pub in_opt: InputOption,
    pub out_opt: OutputOption,
}

impl Config {
    /// Construct the configuration from the optional input and output file
    /// names given on the command line: a missing name selects the standard
    /// stream.
    pub fn make(input: Option<String>, output: Option<String>) -> (c: Config)
        ensures
            c.in_opt == (match input {
                Some(p) => InputOption::File(p),
                None => InputOption::Stdin,
            }),
            c.out_opt == (match output {
                Some(p) => OutputOption::File(p),
                None => OutputOption::Stdout,
            }),
    {
        let in_opt = match input {
            Some(p) => InputOption::File(p),
            None => InputOption::Stdin,
        };
        let out_opt = match output {
            Some(p) => OutputOption::File(p),
            None => OutputOption::Stdout,
        };
        Config { in_opt, out_opt }
    }
}

/// An error that aborted a run, to be reported to the user as a single
/// message on the error stream.
pub struct RunError {
    pub msg: &'static str,
}

impl RunError {
    /// The message for a failure of the input or output collaborator: a
    /// missing file gets its own message, every other reading or writing
    /// failure a generic one.
    pub fn from_io(not_found: bool) -> (r: RunError)
        ensures
            not_found ==> r.msg@ == "File does not exist"@,
            !not_found ==> r.msg@
                == "An unanticipated error was encountered while reading or writing to file"@,
    {
        let msg: &'static str = if not_found {
            "File does not exist"
        } else {
            "An unanticipated error was encountered while reading or writing to file"
        };
        RunError { msg }
    }
}

impl vstd::std_specs::convert::FromSpecImpl<&'static str> for RunError {
    open spec fn obeys_from_spec() -> bool {
        true
    }

    open spec fn from_spec(s: &'static str) -> Self {
        RunError { msg: s }
    }
}

impl From<&'static str> for RunError {
    /// Wrap a plain message as a run error.
    fn from(s: &'static str) -> (r: Self) {
        let msg = s;
        RunError { msg }
    }
}

} // verus!
