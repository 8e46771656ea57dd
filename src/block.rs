//! The parts of a block header that leader verification reads.

use vstd::prelude::*;
use crate::leader_id::LeaderId;

verus! {

/// A block's place in time: an epoch and a slot within it.
#[derive(Clone, Copy, Debug, PartialEq, Eq, Structural)]
pub struct BlockDate {
    pub epoch: u32,
    pub slot_id: u32,
}

/// Proof that a block was issued by a BFT leader: who claims it, and the
/// signature over the header.
#[derive(Clone, Debug)]
pub struct BftProof {
    pub leader_id: LeaderId,
    pub signature: Vec<u8>,
}

/// Proof that a block was issued by a Genesis-Praos stake pool.
#[derive(Clone, Debug)]
pub struct GenesisPraosProof {
    pub node_id: Vec<u8>,
    pub vrf_proof: Vec<u8>,
    pub kes_proof: Vec<u8>,
}

/// The leadership proof attached to a header, one kind per consensus mode.
#[derive(Clone, Debug)]
pub enum Proof {
    NoProof,
    Bft(BftProof),
    GenesisPraos(GenesisPraosProof),
}

/// A block header, as far as leadership is concerned.
#[derive(Clone, Debug)]
pub struct Header {
    pub date: BlockDate,
    pub proof: Proof,
}

impl Header {
    pub fn block_date(&self) -> (r: &BlockDate)
        ensures
            *r == self.date,
    {
        &self.date
    }

    pub fn get_proof(&self) -> (r: &Proof)
        ensures
            *r == self.proof,
    {
        &self.proof
    }
}

} // verus!
