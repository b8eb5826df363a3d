//! Reasons for which a pipeline stops.

use vstd::prelude::*;
use vstd::string::StringExecFns;

verus! {

/// Why a pipeline stopped. Every failure is final: nothing is retried, and
/// the process that ran the pipeline ends with an error.
#[derive(Clone, Copy, Debug, PartialEq, Eq, Structural)]
pub enum Failure {
    /// The configured path has no file name to watch or to write to.
    InvalidPath,
    /// A notification facility, listener or connection could not be set up.
    Resource,
    /// Reading, writing or copying bytes failed.
    Io,
    /// A transfer could not be compressed, or did not decompress.
    Codec,
    /// The stripping tool or the received artifact could not be started.
    Process,
    /// An outcome was reported that does not answer the pending operation.
    Unexpected,
}

impl Failure {
    /// One line that tells a person what went wrong.
    pub open spec fn text(self) -> Seq<char> {
        match self {
            Failure::InvalidPath => "Expected a file name"@,
            Failure::Resource => "A watch, listener or connection could not be set up"@,
            Failure::Io => "Bytes could not be read, written or copied"@,
            Failure::Codec => "The transfer is not a complete compressed stream"@,
            Failure::Process => "A program could not be started"@,
            Failure::Unexpected => "An operation was answered out of turn"@,
        }
    }

    /// One line that tells a person what went wrong.
    pub fn message(&self) -> (message: String)
        ensures
            message@ == self.text(),
    {
        match self {
            Failure::InvalidPath => String::from_str("Expected a file name"),
            Failure::Resource => String::from_str(
                "A watch, listener or connection could not be set up",
            ),
            Failure::Io => String::from_str("Bytes could not be read, written or copied"),
            Failure::Codec => String::from_str("The transfer is not a complete compressed stream"),
            Failure::Process => String::from_str("A program could not be started"),
            Failure::Unexpected => String::from_str("An operation was answered out of turn"),
        }
    }
}

} // verus!
