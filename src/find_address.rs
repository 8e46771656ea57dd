//! Looking up a transaction output's address among the addresses searched
//! for, each held in its canonical binary encoding.

use vstd::prelude::*;

verus! {

/// The search for given addresses in the outputs of synced blocks.
#[derive(Clone, Copy, Debug, PartialEq, Eq, Structural)]
pub struct FindAddress;

fn bytes_equal(a: &Vec<u8>, b: &Vec<u8>) -> (r: bool)
    ensures
        r == (a@ == b@),
{
    if a.len() != b.len() {
        return false;
    }
    let mut i: usize = 0;
    while i < a.len()
        invariant
            a@.len() == b@.len(),
            i <= a@.len(),
            forall|j: int| 0 <= j < i ==> a@[j] == b@[j],
        decreases a@.len() - i,
    {
        if a[i] != b[i] {
            return false;
        }
        i = i + 1;
    }
    assert(a@ =~= b@);
    true
}

impl FindAddress {
    /// The position of the first searched-for address equal to `address`.
    pub fn position(addresses: &Vec<Vec<u8>>, address: &Vec<u8>) -> (r: Option<usize>)
        ensures
            r matches Some(i) ==> {
                &&& i < addresses@.len()
                &&& addresses@[i as int]@ == address@
                &&& forall|j: int| 0 <= j < i ==> addresses@[j]@ != address@
            },
            r is None ==> forall|j: int| 0 <= j < addresses@.len() ==> addresses@[j]@ != address@,
    {
        let mut i: usize = 0;
        while i < addresses.len()
            invariant
                i <= addresses@.len(),
                forall|j: int| 0 <= j < i ==> addresses@[j]@ != address@,
            decreases addresses@.len() - i,
        {
            if bytes_equal(&addresses[i], address) {
                return Some(i);
            }
            i = i + 1;
        }
        None
    }
}

} // verus!
