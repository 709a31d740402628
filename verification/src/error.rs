//! Error taxonomy of the input acquisition core.

use vstd::prelude::*;

verus! {

/// What can go wrong while acquiring controller input.
///
/// `MalformedRecord`, `ProcessNotFound`, `ProcessDetached` and
/// `ProcessReadFailure` are always recovered locally (a bad line is skipped;
/// an absent process falls back to the neutral state): the acquisition loop
/// never sees them. `IoFailure` on an open source and `ReplayDecode` at
/// construction are fatal.
#[derive(Clone, Copy, Debug, PartialEq, Eq)]
pub enum Error {
    /// A file, serial or process-handle level failure on an open source.
    IoFailure,
    /// One serial line fell short of the fixed bit width or held a character
    /// other than `'0'` or `'1'` in a bit position.
    MalformedRecord,
    /// The replay could not be decoded when the source was built.
    ReplayDecode,
    /// No running process matched the requested name at construction.
    ProcessNotFound,
    /// The attached process went away between polls.
    ProcessDetached,
    /// A remote memory read came back short or failed outright.
    ProcessReadFailure,
}

impl Error {
    /// A short diagnostic for the process's exit message.
    pub fn message(&self) -> (r: &'static str)
        ensures
            r@.len() > 0,
    {
        let r = match self {
            Error::IoFailure => "input source failed",
            Error::MalformedRecord => "malformed serial record",
            Error::ReplayDecode => "could not decode replay",
            Error::ProcessNotFound => "process not found",
            Error::ProcessDetached => "process detached",
            Error::ProcessReadFailure => "process memory read failed",
        };
        proof {
            reveal_strlit("input source failed");
            reveal_strlit("malformed serial record");
            reveal_strlit("could not decode replay");
            reveal_strlit("process not found");
            reveal_strlit("process detached");
            reveal_strlit("process memory read failed");
        }
        r
    }
}

} // verus!
