use bech32::ToBase32;

use bft_leadership::find_address::FindAddress;
use bft_leadership::key::{PublicKey, PublicKeyError, PUBLIC_KEY_LENGTH};
use bft_leadership::leader_id::{Bech32Error, LeaderId, BECH32_HRP};
use bft_leadership::mempack::{ReadBuf, ReadError};

fn sample_key() -> PublicKey {
    let mut bytes = [0u8; 32];
    for (i, b) in bytes.iter_mut().enumerate() {
        *b = (i as u8).wrapping_mul(37).wrapping_add(5);
    }
    PublicKey { bytes }
}

#[test]
fn public_key_from_binary_checks_length() {
    let k = sample_key();
    assert_eq!(PublicKey::from_binary(k.as_bytes()).unwrap(), k);
    assert_eq!(PublicKey::from_binary(&[1u8; 31]).unwrap_err(), PublicKeyError::SizeInvalid);
    assert_eq!(PublicKey::from_binary(&[1u8; 33]).unwrap_err(), PublicKeyError::SizeInvalid);
    assert_eq!(PublicKey::from_binary(&[]).unwrap_err(), PublicKeyError::SizeInvalid);
}

#[test]
fn leader_id_bytes_are_the_key_bytes() {
    let k = sample_key();
    let id = LeaderId::from(k);
    assert_eq!(id.as_ref(), &k.bytes[..]);
    assert_eq!(id.as_public_key(), &k);
    assert_eq!(id.serialize(), k.bytes.to_vec());
    assert_eq!(id.serialize().len(), PUBLIC_KEY_LENGTH);
}

#[test]
fn leader_id_equality_follows_the_key() {
    let a = LeaderId::from(sample_key());
    let mut other = sample_key();
    other.bytes[31] ^= 1;
    assert_eq!(a, LeaderId::from(sample_key()));
    assert_ne!(a, LeaderId::from(other));
}

#[test]
fn serialize_then_read_round_trips() {
    let id = LeaderId::from(sample_key());
    let bytes = id.serialize();
    let mut buf = ReadBuf::from(&bytes);
    assert_eq!(LeaderId::read(&mut buf).unwrap(), id);
    assert!(buf.is_end());
    assert_eq!(buf.expect_end(), Ok(()));
}

#[test]
fn read_leaves_the_rest_of_the_buffer() {
    let a = LeaderId::from(sample_key());
    let b = LeaderId(PublicKey { bytes: [9u8; 32] });
    let mut bytes = a.serialize();
    bytes.extend(b.serialize());
    bytes.push(0xEE);
    let mut buf = ReadBuf::from(&bytes);
    assert_eq!(LeaderId::read(&mut buf).unwrap(), a);
    assert_eq!(LeaderId::read(&mut buf).unwrap(), b);
    assert_eq!(buf.left(), 1);
    assert_eq!(buf.expect_end(), Err(ReadError::UnconsumedData(1)));
}

#[test]
fn read_short_buffer_fails() {
    let bytes = vec![3u8; 20];
    let mut buf = ReadBuf::from(&bytes);
    assert_eq!(LeaderId::read(&mut buf), Err(ReadError::NotEnoughBytes(20, 32)));
    assert_eq!(buf.left(), 20);
    let mut slice_buf = ReadBuf::from(&bytes);
    assert_eq!(slice_buf.get_slice(5).unwrap(), &[3u8; 5][..]);
    assert_eq!(slice_buf.left(), 15);
}

#[test]
fn text_form_matches_bech32_of_the_key() {
    let id = LeaderId::from(sample_key());
    let text = id.to_bech32_str();
    let expected = bech32::encode("ed25519_pk", sample_key().bytes.to_base32()).unwrap();
    assert_eq!(text, expected);
    assert!(text.starts_with("ed25519_pk1"));
    assert_eq!(text.len(), 10 + 1 + 52 + 6);
    assert_eq!(BECH32_HRP, "ed25519_pk");
}

#[test]
fn text_form_round_trips() {
    for seed in [0u8, 1, 0x55, 0xFF] {
        let id = LeaderId(PublicKey { bytes: [seed; 32] });
        assert_eq!(LeaderId::try_from_bech32_str(&id.to_bech32_str()).unwrap(), id);
    }
    let id = LeaderId::from(sample_key());
    assert_eq!(LeaderId::try_from_bech32_str(&id.to_bech32_str()).unwrap(), id);
}

#[test]
fn text_with_corrupted_checksum_is_rejected() {
    let text = LeaderId::from(sample_key()).to_bech32_str();
    let mut chars: Vec<char> = text.chars().collect();
    let last = chars.len() - 1;
    chars[last] = if chars[last] == 'q' { 'p' } else { 'q' };
    let corrupted: String = chars.into_iter().collect();
    assert_eq!(LeaderId::try_from_bech32_str(&corrupted), Err(Bech32Error::Bech32Malformed));
}

#[test]
fn text_with_corrupted_payload_is_rejected() {
    let text = LeaderId::from(sample_key()).to_bech32_str();
    let mut chars: Vec<char> = text.chars().collect();
    chars[20] = if chars[20] == 'q' { 'p' } else { 'q' };
    let corrupted: String = chars.into_iter().collect();
    assert_eq!(LeaderId::try_from_bech32_str(&corrupted), Err(Bech32Error::Bech32Malformed));
}

#[test]
fn text_with_wrong_prefix_is_rejected() {
    let other = bech32::encode("ed25519e_pk", sample_key().bytes.to_base32()).unwrap();
    assert_eq!(
        LeaderId::try_from_bech32_str(&other),
        Err(Bech32Error::HrpInvalid { actual: "ed25519e_pk".to_string() })
    );
}

#[test]
fn text_with_wrong_payload_length_is_rejected() {
    let short = bech32::encode("ed25519_pk", [7u8; 31].to_base32()).unwrap();
    assert_eq!(LeaderId::try_from_bech32_str(&short), Err(Bech32Error::DataWrongLength));
}

#[test]
fn text_that_is_not_bech32_is_rejected() {
    assert_eq!(LeaderId::try_from_bech32_str(""), Err(Bech32Error::Bech32Malformed));
    assert_eq!(LeaderId::try_from_bech32_str("ed25519_pk"), Err(Bech32Error::Bech32Malformed));
    assert_eq!(LeaderId::try_from_bech32_str("not bech32 at all"), Err(Bech32Error::Bech32Malformed));
}

#[test]
fn find_address_gives_first_match() {
    let searched = vec![vec![1u8, 2, 3], vec![4u8, 5], vec![1u8, 2, 3]];
    assert_eq!(FindAddress::position(&searched, &vec![1, 2, 3]), Some(0));
    assert_eq!(FindAddress::position(&searched, &vec![4, 5]), Some(1));
    assert_eq!(FindAddress::position(&searched, &vec![4]), None);
    assert_eq!(FindAddress::position(&vec![], &vec![4, 5]), None);
}
