//! Bech32 text: a human-readable prefix, a separator and a checksummed
//! base-32 payload. The encoding itself comes from the `bech32` crate.

use vstd::prelude::*;
use bech32::{FromBase32, ToBase32};

verus! {

/// The bech32 text for human-readable part `hrp` and payload bytes `data`.
pub uninterp spec fn bech32_text(hrp: Seq<char>, data: Seq<u8>) -> Seq<char>;

/// The human-readable part (lower-cased) and payload bytes that a bech32
/// text decodes to, if it decodes at all.
pub uninterp spec fn bech32_payload(s: Seq<char>) -> Option<(Seq<char>, Seq<u8>)>;

pub open spec fn is_ascii_upper(c: char) -> bool {
    'A' <= c && c <= 'Z'
}

pub open spec fn is_ascii_lower(c: char) -> bool {
    'a' <= c && c <= 'z'
}

/// A human-readable part that the encoder accepts: 1 to 83 printable ASCII
/// characters, not mixing upper and lower case.
pub open spec fn is_valid_hrp(hrp: Seq<char>) -> bool {
    &&& 1 <= hrp.len() <= 83
    &&& forall|i: int| 0 <= i < hrp.len() ==> 33 <= #[trigger] (hrp[i] as u32) <= 126
    &&& !((exists|i: int| 0 <= i < hrp.len() && is_ascii_upper(#[trigger] hrp[i])) && (exists|
        i: int,
    | 0 <= i < hrp.len() && is_ascii_lower(#[trigger] hrp[i])))
}

/// A valid human-readable part with no upper-case letter: the encoder
/// writes it as it is, and the decoder gives it back as it is.
pub open spec fn is_lowercase_hrp(hrp: Seq<char>) -> bool {
    &&& is_valid_hrp(hrp)
    &&& forall|i: int| 0 <= i < hrp.len() ==> !is_ascii_upper(#[trigger] hrp[i])
}

/// Relies on `bech32::encode` (with `ToBase32::to_base32` on the bytes): it
/// gives no text exactly when the human-readable part is not valid, and otherwise
/// returns the text, which depends on its arguments alone.
#[verifier::external_body]
pub(crate) fn encode_bech32(hrp: &str, data: &[u8]) -> (r: Option<String>)
    ensures
        r is Some <==> is_valid_hrp(hrp@),
        is_lowercase_hrp(hrp@) ==> r is Some && r->Some_0@ == bech32_text(hrp@, data@),
{
    bech32::encode(hrp, data.to_base32()).ok()
}

/// Relies on `bech32::decode` followed by `FromBase32::from_base32` into
/// bytes: the outcome depends on the text alone, and the text of a lower-case
/// human-readable part and some bytes decodes back to exactly those.
#[verifier::external_body]
pub(crate) fn decode_bech32(s: &str) -> (r: Option<(String, Vec<u8>)>)
    ensures
        r is Some <==> bech32_payload(s@) is Some,
        r is Some ==> (r->Some_0.0@, r->Some_0.1@) == bech32_payload(s@)->Some_0,
        forall|hrp: Seq<char>, data: Seq<u8>|
            is_lowercase_hrp(hrp) && s@ == #[trigger] bech32_text(hrp, data) ==> {
                &&& r is Some
                &&& r->Some_0.0@ == hrp
                &&& r->Some_0.1@ == data
            },
{
    let (hrp, data) = bech32::decode(s).ok()?;
    let bytes = Vec::<u8>::from_base32(&data).ok()?;
    Some((hrp, bytes))
}

} // verus!
