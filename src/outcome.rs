//! How a command ends: a message for one of the two output streams, and an exit code.
use vstd::prelude::*;

use crate::{EXIT_CODE_API_EXPECTED_ERROR, EXIT_CODE_API_UNEXPECTED_ERROR, EXIT_CODE_INVALID_INPUT};

verus! {

#[derive(Clone, Copy, Debug, PartialEq, Eq, Structural)]
pub enum Stream {
    Stdout,
    Stderr,
}

/// A message to print and the code the process exits with afterwards.
#[derive(Debug)]
pub struct Report {
    pub message: String,
    pub stream: Stream,
    pub exit_code: i32,
}

impl Report {
    pub fn new(message: String, stream: Stream, exit_code: i32) -> (r: Report)
        ensures
            r.message@ == message@,
            r.stream == stream,
            r.exit_code == exit_code,
    {
        Report { message, stream, exit_code }
    }

    /// The input was rejected before any request was made.
    pub fn invalid_input(message: String) -> (r: Report)
        ensures
            r.message@ == message@,
            r.stream == Stream::Stderr,
            r.exit_code == EXIT_CODE_INVALID_INPUT,
    {
        Report { message, stream: Stream::Stderr, exit_code: EXIT_CODE_INVALID_INPUT }
    }

    /// The API answered with a documented negative outcome.
    pub fn expected_error(message: String, stream: Stream) -> (r: Report)
        ensures
            r.message@ == message@,
            r.stream == stream,
            r.exit_code == EXIT_CODE_API_EXPECTED_ERROR,
    {
        Report { message, stream, exit_code: EXIT_CODE_API_EXPECTED_ERROR }
    }

    /// The API answered in a way that breaks this client's expectations.
    pub fn unexpected_error(message: String) -> (r: Report)
        ensures
            r.message@ == message@,
            r.stream == Stream::Stderr,
            r.exit_code == EXIT_CODE_API_UNEXPECTED_ERROR,
    {
        Report { message, stream: Stream::Stderr, exit_code: EXIT_CODE_API_UNEXPECTED_ERROR }
    }
}

} // verus!
