use light_api::commitments::{from_slice, Commitment, DecodeError, COMMITMENT_SIZE};
use light_api::header::H256;

fn sample_hex() -> String {
    let mut s = String::from("0x");
    for i in 0..COMMITMENT_SIZE {
        s.push_str(&format!("{:02x}", (i * 3) as u8));
    }
    s
}

#[test]
fn commitment_hex_round_trips() {
    let hex = sample_hex();
    assert_eq!(hex.len(), 2 * COMMITMENT_SIZE + 2);
    let c = Commitment::from_hex_string(&hex).expect("well-shaped hex must parse");
    assert_eq!(c.to_hex_string(), hex);
}

#[test]
fn commitment_hex_wrong_length_fails() {
    let r = Commitment::from_hex_string("0x1234");
    assert_eq!(r.unwrap_err(), DecodeError::HexFormat { len: 6 });
}

#[test]
fn commitment_hex_missing_prefix_fails() {
    let hex = sample_hex().replacen("0x", "ab", 1);
    let r = Commitment::from_hex_string(&hex);
    assert_eq!(r.unwrap_err(), DecodeError::HexFormat { len: 98 });
}

#[test]
fn commitment_hex_uppercase_fails() {
    let hex = sample_hex().to_uppercase().replacen("0X", "0x", 1);
    let r = Commitment::from_hex_string(&hex);
    assert_eq!(r.unwrap_err(), DecodeError::HexDigit);
}

#[test]
fn commitment_hex_stray_character_fails() {
    let mut hex = sample_hex();
    hex.replace_range(10..11, "g");
    let r = Commitment::from_hex_string(&hex);
    assert_eq!(r.unwrap_err(), DecodeError::HexDigit);
}

#[test]
fn blob_splits_into_records() {
    let mut blob = Vec::new();
    for i in 0..2 * COMMITMENT_SIZE {
        blob.push(i as u8);
    }
    let cs = from_slice(&blob).expect("a multiple of the record size must decode");
    assert_eq!(cs.len(), 2);
    let mut first = String::from("0x");
    for i in 0..COMMITMENT_SIZE {
        first.push_str(&format!("{:02x}", i as u8));
    }
    assert_eq!(cs[0].to_hex_string(), first);
}

#[test]
fn empty_blob_decodes_to_nothing() {
    let cs = from_slice(&[]).expect("the empty blob is a multiple of any size");
    assert_eq!(cs.len(), 0);
}

#[test]
fn ragged_blob_fails_without_partial_result() {
    let blob = vec![0u8; COMMITMENT_SIZE - 1];
    let r = from_slice(&blob);
    assert_eq!(
        r.unwrap_err(),
        DecodeError::CommitmentsLength { len: COMMITMENT_SIZE - 1 }
    );
    let blob = vec![0u8; COMMITMENT_SIZE + 1];
    let r = from_slice(&blob);
    assert_eq!(
        r.unwrap_err(),
        DecodeError::CommitmentsLength { len: COMMITMENT_SIZE + 1 }
    );
}

#[test]
fn hash_wraps_exactly_32_bytes() {
    let h = H256::new((0u8..32).collect()).expect("32 bytes make a hash");
    assert_eq!(
        h.to_hex_string(),
        "0x000102030405060708090a0b0c0d0e0f101112131415161718191a1b1c1d1e1f"
    );
    let r = H256::new(vec![0u8; 31]);
    assert_eq!(r.unwrap_err(), DecodeError::HashLength { len: 31 });
}
