//! The identity of a BFT leader: an Ed25519 public key.

use vstd::prelude::*;
use crate::key::{PublicKey, PUBLIC_KEY_LENGTH};
use crate::mempack::{ReadBuf, ReadError};
use crate::text::{
    bech32_payload, bech32_text, decode_bech32, encode_bech32, is_ascii_upper, is_lowercase_hrp,
};

verus! {

/// Human-readable part of the text form of a leader identity.
pub const BECH32_HRP: &'static str = "ed25519_pk";

/// A leader identity; equality and bytes are those of its public key.
#[derive(Clone, Copy, Debug, Hash)]
pub struct LeaderId(pub PublicKey);

/// Why a text is not a leader identity.
#[derive(Clone, Debug, PartialEq, Eq)]
pub enum Bech32Error {
    /// Not a well-formed bech32 text: bad characters, case, length or checksum.
    Bech32Malformed,
    /// A well-formed text whose human-readable part is not the expected one.
    HrpInvalid { actual: String },
    /// A well-formed text whose payload is not a public key.
    DataWrongLength,
}

impl View for LeaderId {
    type V = Seq<u8>;

    open spec fn view(&self) -> Seq<u8> {
        self.0@
    }
}

/// The bytes of the identity read from the front of `data`, if there are
/// enough of them.
pub open spec fn leader_id_prefix(data: Seq<u8>) -> Option<Seq<u8>> {
    if data.len() >= PUBLIC_KEY_LENGTH {
        Some(data.take(PUBLIC_KEY_LENGTH as int))
    } else {
        None
    }
}

proof fn lemma_hrp_is_lowercase()
    ensures
        is_lowercase_hrp(BECH32_HRP@),
{
    reveal_strlit("ed25519_pk");
    let h = BECH32_HRP@;
    assert(h.len() == 10);
    assert(h[0] == 'e' && h[1] == 'd' && h[2] == '2' && h[3] == '5' && h[4] == '5');
    assert(h[5] == '1' && h[6] == '9' && h[7] == '_' && h[8] == 'p' && h[9] == 'k');
    assert(forall|i: int| 0 <= i < h.len() ==> !is_ascii_upper(#[trigger] h[i]));
}

impl LeaderId {
    pub fn as_public_key(&self) -> (r: &PublicKey)
        ensures
            r@ == self@,
    {
        &self.0
    }

    /// The identity's binary form: the public key's bytes, with no framing.
    pub fn serialize(&self) -> (r: Vec<u8>)
        ensures
            r@ == self@,
    {
        let bytes = self.0.as_bytes();
        let mut out: Vec<u8> = Vec::new();
        let mut i: usize = 0;
        while i < bytes.len()
            invariant
                i <= bytes@.len(),
                bytes@ == self@,
                out@ == bytes@.take(i as int),
            decreases bytes@.len() - i,
        {
            out.push(bytes[i]);
            i = i + 1;
            assert(out@ =~= bytes@.take(i as int));
        }
        assert(out@ =~= bytes@);
        out
    }

    /// Reads an identity from the front of the buffer.
    pub fn read(buf: &mut ReadBuf) -> (r: Result<LeaderId, ReadError>)
        requires
            old(buf).wf(),
        ensures
            final(buf).wf(),
            final(buf).data() == old(buf).data(),
            leader_id_prefix(old(buf).remaining()) matches Some(bytes) ==> {
                &&& r is Ok
                &&& r->Ok_0@ == bytes
                &&& final(buf).position() == old(buf).position() + PUBLIC_KEY_LENGTH
            },
            leader_id_prefix(old(buf).remaining()) is None ==> {
                &&& r == Err::<LeaderId, ReadError>(
                    ReadError::NotEnoughBytes(
                        old(buf).remaining().len() as usize,
                        PUBLIC_KEY_LENGTH,
                    ),
                )
                &&& final(buf).position() == old(buf).position()
            },
    {
        let s = buf.get_slice(PUBLIC_KEY_LENGTH)?;
        match PublicKey::from_binary(s) {
            Ok(pk) => Ok(LeaderId(pk)),
            Err(_) => Err(ReadError::NotEnoughBytes(s.len(), PUBLIC_KEY_LENGTH)),
        }
    }

    /// The identity's bytes, for use as a key or for hashing.
    pub fn as_ref(&self) -> (r: &[u8])
        ensures
            r@ == self@,
    {
        self.0.as_bytes()
    }

    /// The identity's text form.
    pub fn to_bech32_str(&self) -> (r: String)
        ensures
            r@ == bech32_text(BECH32_HRP@, self@),
    {
        proof {
            lemma_hrp_is_lowercase();
        }
        match encode_bech32(BECH32_HRP, self.0.as_bytes()) {
            Some(s) => s,
            None => String::new(),
        }
    }

    /// Decodes the text form of an identity; the text of any identity
    /// decodes back to it.
    pub fn try_from_bech32_str(s: &str) -> (r: Result<LeaderId, Bech32Error>)
        ensures
            match bech32_payload(s@) {
                None => r == Err::<LeaderId, Bech32Error>(Bech32Error::Bech32Malformed),
                Some((hrp, data)) => if hrp != BECH32_HRP@ {
                    r matches Err(Bech32Error::HrpInvalid { actual }) && actual@ == hrp
                } else if data.len() != PUBLIC_KEY_LENGTH {
                    r == Err::<LeaderId, Bech32Error>(Bech32Error::DataWrongLength)
                } else {
                    r is Ok && r->Ok_0@ == data
                },
            },
            forall|bytes: Seq<u8>|
                bytes.len() == PUBLIC_KEY_LENGTH && s@ == #[trigger] bech32_text(BECH32_HRP@, bytes)
                    ==> r is Ok && r->Ok_0@ == bytes,
    {
        proof {
            lemma_hrp_is_lowercase();
        }
        match decode_bech32(s) {
            None => Err(Bech32Error::Bech32Malformed),
            Some((hrp, data)) => {
                let expected = BECH32_HRP.to_owned();
                if hrp != expected {
                    Err(Bech32Error::HrpInvalid { actual: hrp })
                } else {
                    match PublicKey::from_binary(data.as_slice()) {
                        Ok(pk) => Ok(LeaderId(pk)),
                        Err(_) => Err(Bech32Error::DataWrongLength),
                    }
                }
            },
        }
    }
}

/// The identity of the holder of a public key.
impl From<PublicKey> for LeaderId {
    fn from(v: PublicKey) -> (r: LeaderId)
        ensures
            r == LeaderId(v),
    {
        LeaderId(v)
    }
}

impl vstd::std_specs::convert::FromSpecImpl<PublicKey> for LeaderId {
    open spec fn obeys_from_spec() -> bool {
        true
    }

    open spec fn from_spec(v: PublicKey) -> LeaderId {
        LeaderId(v)
    }
}

impl PartialEq for LeaderId {
    fn eq(&self, other: &LeaderId) -> (r: bool)
        ensures
            r == (self@ == other@),
    {
        self.0 == other.0
    }
}

impl vstd::std_specs::cmp::PartialEqSpecImpl for LeaderId {
    open spec fn obeys_eq_spec() -> bool {
        true
    }

    open spec fn eq_spec(&self, other: &LeaderId) -> bool {
        self@ == other@
    }
}

impl Eq for LeaderId {

}

/// Two identities with the same bytes are the same identity.
pub proof fn lemma_leader_id_determined_by_bytes(a: LeaderId, b: LeaderId)
    ensures
        a@ == b@ ==> a == b,
{
    if a@ == b@ {
        assert(a.0.bytes =~= b.0.bytes);
    }
}

/// Reading an identity from its binary form, whatever follows it, gives
/// back that identity's bytes.
pub proof fn lemma_serialize_read_round_trip(id: LeaderId, rest: Seq<u8>)
    ensures
        leader_id_prefix(id@ + rest) == Some(id@),
{
    assert((id@ + rest).take(PUBLIC_KEY_LENGTH as int) =~= id@);
}

} // verus!
