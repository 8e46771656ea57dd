//! Round-robin selection of BFT leaders, and verification that a header was
//! issued by the leader of its slot.

use std::sync::Arc;
use vstd::prelude::*;
use crate::block::{BlockDate, Header, Proof};
use crate::leader_id::LeaderId;
use crate::leadership::{Error, ErrorKind, Verification};

verus! {

/// A position in the roster of leaders.
#[derive(Clone, Copy, Debug, PartialEq, Eq, Structural)]
pub struct BftRoundRobinIndex(u64);

/// Leader selection by round robin over a fixed, non-empty, ordered roster
/// that is shared with the chain's settings.
#[derive(Debug)]
pub struct BftLeaderSelection {
    pub(crate) leaders: Arc<Vec<LeaderId>>,
}

/// The leader that a roster schedules for a slot.
pub open spec fn round_robin_leader(roster: Seq<LeaderId>, slot: int) -> LeaderId
    recommends
        roster.len() > 0,
{
    roster[slot % roster.len() as int]
}

/// The verdict on a header whose proof is checked against a roster.
pub open spec fn header_verdict(roster: Seq<LeaderId>, header: Header) -> Verification {
    match header.proof {
        Proof::Bft(p) => if p.leader_id@ == round_robin_leader(roster, header.date.slot_id as int)@ {
            Verification::Success
        } else {
            Verification::Failure(Error { kind: ErrorKind::InvalidLeader })
        },
        _ => Verification::Failure(Error { kind: ErrorKind::InvalidLeaderSignature }),
    }
}

/// Relies on `Arc::clone`: the new handle refers to the same roster.
#[verifier::external_body]
fn share_roster(leaders: &Arc<Vec<LeaderId>>) -> (r: Arc<Vec<LeaderId>>)
    ensures
        r@ == leaders@,
{
    Arc::clone(leaders)
}

impl View for BftLeaderSelection {
    type V = Seq<LeaderId>;

    closed spec fn view(&self) -> Seq<LeaderId> {
        self.leaders@
    }
}

impl BftLeaderSelection {
    /// The roster is never empty.
    pub open spec fn wf(&self) -> bool {
        self@.len() > 0
    }

    /// The leader scheduled for a slot.
    pub open spec fn leader_at(&self, slot: int) -> LeaderId {
        round_robin_leader(self@, slot)
    }

    /// A selection over the roster `bft_leaders`, shared rather than copied;
    /// none for an empty roster.
    pub fn new(bft_leaders: &Arc<Vec<LeaderId>>) -> (r: Option<BftLeaderSelection>)
        ensures
            bft_leaders@.len() == 0 <==> r is None,
            r matches Some(s) ==> s.wf() && s@ == bft_leaders@,
    {
        if bft_leaders.len() == 0 {
            return None;
        }
        Some(BftLeaderSelection { leaders: share_roster(bft_leaders) })
    }

    pub fn number_of_leaders(&self) -> (r: usize)
        ensures
            r == self@.len(),
    {
        self.leaders.len()
    }

    fn offset(&self, block_number: u64) -> (r: BftRoundRobinIndex)
        requires
            self.wf(),
        ensures
            r.0 == block_number % (self@.len() as u64),
            r.0 < self@.len(),
    {
        let max = self.number_of_leaders() as u64;
        BftRoundRobinIndex(block_number % max)
    }

    /// Checks that the header's proof is a BFT proof that names the leader
    /// scheduled for the header's slot.
    pub fn verify(&self, block_header: &Header) -> (r: Verification)
        requires
            self.wf(),
        ensures
            r == header_verdict(self@, *block_header),
            !(block_header.proof is Bft) ==> r == Verification::Failure(
                Error { kind: ErrorKind::InvalidLeaderSignature },
            ),
    {
        match block_header.get_proof() {
            Proof::Bft(bft_proof) => match self.get_leader_at(*block_header.block_date()) {
                Ok(leader_at) => {
                    if bft_proof.leader_id == leader_at {
                        Verification::Success
                    } else {
                        Verification::Failure(Error::new(ErrorKind::InvalidLeader))
                    }
                },
                Err(error) => Verification::Failure(error),
            },
            _ => Verification::Failure(Error::new(ErrorKind::InvalidLeaderSignature)),
        }
    }

    /// The leader scheduled for the date's slot: the roster's entry at the
    /// slot number modulo the roster's length.
    pub fn get_leader_at(&self, date: BlockDate) -> (r: Result<LeaderId, Error>)
        requires
            self.wf(),
        ensures
            r == Ok::<LeaderId, Error>(self.leader_at(date.slot_id as int)),
            r == Ok::<LeaderId, Error>(self@[(date.slot_id as int) % (self@.len() as int)]),
    {
        let n = self.number_of_leaders();
        let BftRoundRobinIndex(ofs) = self.offset(date.slot_id as u64);
        assert(ofs < n);
        Ok(self.leaders[ofs as usize])
    }
}

/// The schedule repeats with the roster's length as its period.
pub proof fn lemma_round_robin_periodic(sel: BftLeaderSelection, slot: nat)
    requires
        sel.wf(),
    ensures
        sel.leader_at(slot as int) == sel.leader_at(slot + sel@.len() as int),
{
    let n = sel@.len() as int;
    assert((slot + n) % n == (slot as int) % n) by (nonlinear_arith)
        requires n > 0;
}

/// A header whose proof is not a BFT proof is refused as a bad signature,
/// whatever its slot and whatever the roster.
pub proof fn lemma_other_proof_kinds_rejected(roster: Seq<LeaderId>, header: Header)
    requires
        !(header.proof is Bft),
    ensures
        header_verdict(roster, header) == Verification::Failure(
            Error { kind: ErrorKind::InvalidLeaderSignature },
        ),
{
}

} // verus!
