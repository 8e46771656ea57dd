//! Outcomes of checking a header's leadership proof.

use vstd::prelude::*;

verus! {

/// What was wrong with a block's leadership proof.
#[derive(Clone, Copy, Debug, PartialEq, Eq, Structural)]
pub enum ErrorKind {
    /// The claimed leader is not the one scheduled for the block's slot.
    InvalidLeader,
    /// The proof is not of the kind that this leadership mode expects.
    InvalidLeaderSignature,
}

#[derive(Clone, Copy, Debug, PartialEq, Eq, Structural)]
pub struct Error {
    pub kind: ErrorKind,
}

impl Error {
    pub fn new(kind: ErrorKind) -> (r: Error)
        ensures
            r.kind == kind,
    {
        Error { kind }
    }
}

/// The verdict on a header.
#[derive(Clone, Copy, Debug, PartialEq, Eq, Structural)]
pub enum Verification {
    Success,
    Failure(Error),
}

} // verus!
