//! Ed25519 public keys, the credential behind a BFT leader identity.

use vstd::prelude::*;

verus! {

/// Width in bytes of an Ed25519 public key.
pub const PUBLIC_KEY_LENGTH: usize = 32;

/// An Ed25519 public key, held as its fixed-width byte encoding.
#[derive(Clone, Copy, Debug, Hash)]
pub struct PublicKey {
    pub bytes: [u8; 32],
}

/// Why a byte string is not a public key.
#[derive(Clone, Copy, Debug, PartialEq, Eq, Structural)]
pub enum PublicKeyError {
    SizeInvalid,
}

impl View for PublicKey {
    type V = Seq<u8>;

    open spec fn view(&self) -> Seq<u8> {
        self.bytes@
    }
}

impl PublicKey {
    /// Builds a key from exactly `PUBLIC_KEY_LENGTH` bytes; any other length
    /// is refused.
    pub fn from_binary(data: &[u8]) -> (r: Result<PublicKey, PublicKeyError>)
        ensures
            data@.len() == PUBLIC_KEY_LENGTH ==> (r is Ok && r->Ok_0@ == data@),
            data@.len() != PUBLIC_KEY_LENGTH ==> r == Err::<PublicKey, PublicKeyError>(
                PublicKeyError::SizeInvalid,
            ),
    {
        if data.len() != PUBLIC_KEY_LENGTH {
            return Err(PublicKeyError::SizeInvalid);
        }
        let mut bytes: [u8; 32] = [0u8; 32];
        let mut i: usize = 0;
        while i < PUBLIC_KEY_LENGTH
            invariant
                data@.len() == PUBLIC_KEY_LENGTH,
                i <= PUBLIC_KEY_LENGTH,
                bytes@.len() == PUBLIC_KEY_LENGTH,
                forall|j: int| 0 <= j < i ==> bytes@[j] == data@[j],
            decreases PUBLIC_KEY_LENGTH - i,
        {
            bytes[i] = data[i];
            i = i + 1;
        }
        let r = PublicKey { bytes };
        assert(r@ =~= data@);
        Ok(r)
    }

    /// The key's byte encoding.
    pub fn as_bytes(&self) -> (r: &[u8])
        ensures
            r@ == self@,
    {
        self.bytes.as_slice()
    }
}

impl PartialEq for PublicKey {
    fn eq(&self, other: &PublicKey) -> (r: bool)
        ensures
            r == (self@ == other@),
    {
        let mut i: usize = 0;
        while i < PUBLIC_KEY_LENGTH
            invariant
                i <= PUBLIC_KEY_LENGTH,
                self@.len() == PUBLIC_KEY_LENGTH,
                other@.len() == PUBLIC_KEY_LENGTH,
                forall|j: int| 0 <= j < i ==> self@[j] == other@[j],
            decreases PUBLIC_KEY_LENGTH - i,
        {
            if self.bytes[i] != other.bytes[i] {
                return false;
            }
            i = i + 1;
        }
        assert(self@ =~= other@);
        true
    }
}

impl vstd::std_specs::cmp::PartialEqSpecImpl for PublicKey {
    open spec fn obeys_eq_spec() -> bool {
        true
    }

    open spec fn eq_spec(&self, other: &PublicKey) -> bool {
        self@ == other@
    }
}

impl Eq for PublicKey {

}

} // verus!
