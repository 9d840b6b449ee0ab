//! Error taxonomy of the engine. Each variant carries a human-readable
//! cause. Resolution failures exclude a single item from the batch; for the
//! core item any failure is fatal to the run; an integrity failure must
//! never be followed by an artifact write or a lock mutation for that item.

use vstd::prelude::*;

verus! {

/// A failure of one step of the resolve / fetch / verify / persist pipeline.
#[derive(Clone, Debug, PartialEq)]
pub enum Failure {
    /// The provider resolver could not determine a download target.
    Resolution(String),
    /// The network fetch failed.
    Transport(String),
    /// The fetched bytes did not match the expected hash descriptor.
    Integrity(String),
    /// A disk write or lock persist failed.
    Io(String),
    /// The persisted lock record is unreadable or malformed; fatal,
    /// never silently reset.
    LockCorruption(String),
}

impl Failure {
    /// The stable label of the failure class, for status reporting.
    pub open spec fn spec_label(&self) -> Seq<char> {
        match self {
            Failure::Resolution(_) => "resolution"@,
            Failure::Transport(_) => "transport"@,
            Failure::Integrity(_) => "integrity"@,
            Failure::Io(_) => "io"@,
            Failure::LockCorruption(_) => "lock corruption"@,
        }
    }

    pub fn label(&self) -> (r: &'static str)
        ensures
            r@ == self.spec_label(),
    {
        match self {
            Failure::Resolution(_) => "resolution",
            Failure::Transport(_) => "transport",
            Failure::Integrity(_) => "integrity",
            Failure::Io(_) => "io",
            Failure::LockCorruption(_) => "lock corruption",
        }
    }

    /// The human-readable cause carried by the failure.
    pub open spec fn spec_cause(&self) -> Seq<char> {
        match self {
            Failure::Resolution(c) => c@,
            Failure::Transport(c) => c@,
            Failure::Integrity(c) => c@,
            Failure::Io(c) => c@,
            Failure::LockCorruption(c) => c@,
        }
    }

    pub fn cause(&self) -> (r: &String)
        ensures
            r@ == self.spec_cause(),
    {
        match self {
            Failure::Resolution(c) => c,
            Failure::Transport(c) => c,
            Failure::Integrity(c) => c,
            Failure::Io(c) => c,
            Failure::LockCorruption(c) => c,
        }
    }
}

} // verus!
