use light_api::commitments::{Commitment, DecodeError, COMMITMENT_SIZE};
use light_api::header::{
    AppLookup, AppLookupItem, Extension, H256, Header, HeaderExtension, HeaderMessage,
    PublishMessage, RawHeader, V1Extension, V2Extension,
};

fn hash(byte: u8) -> H256 {
    H256::new(vec![byte; 32]).expect("32 bytes make a hash")
}

fn lookup() -> AppLookup {
    AppLookup {
        size: 1,
        index: vec![AppLookupItem { app_id: 0, start: 0 }],
    }
}

#[test]
fn v1_extension_decodes_with_data_root() {
    let raw = HeaderExtension::V1(V1Extension {
        rows: 1,
        cols: 4,
        commitment: vec![7u8; 2 * COMMITMENT_SIZE],
        data_root: hash(9),
        app_lookup: lookup(),
    });
    let e = Extension::try_from(raw).expect("a whole number of records must decode");
    assert_eq!(e.rows, 1);
    assert_eq!(e.cols, 4);
    assert_eq!(e.commitments.len(), 2);
    assert_eq!(e.data_root.unwrap().to_hex_string(), hash(9).to_hex_string());
}

#[test]
fn v2_extension_keeps_data_root_optional() {
    let raw = HeaderExtension::V2(V2Extension {
        rows: 2,
        cols: 2,
        commitment: vec![1u8; COMMITMENT_SIZE],
        data_root: None,
        app_lookup: lookup(),
    });
    let e = Extension::try_from(raw).expect("a whole number of records must decode");
    assert_eq!(e.commitments.len(), 1);
    assert!(e.data_root.is_none());
}

#[test]
fn extension_commitments_round_trip_their_hex() {
    let mut blob = Vec::new();
    for i in 0..2 * COMMITMENT_SIZE {
        blob.push((251 - i) as u8);
    }
    let raw = HeaderExtension::V2(V2Extension {
        rows: 1,
        cols: 4,
        commitment: blob,
        data_root: Some(hash(4)),
        app_lookup: lookup(),
    });
    let e = Extension::try_from(raw).expect("a whole number of records must decode");
    for c in &e.commitments {
        let hex = c.to_hex_string();
        let back = Commitment::from_hex_string(&hex).expect("a rendering parses");
        assert_eq!(back.to_hex_string(), hex);
    }
}

#[test]
fn ragged_commitment_blob_fails_the_extension() {
    let raw = HeaderExtension::V1(V1Extension {
        rows: 1,
        cols: 4,
        commitment: vec![7u8; COMMITMENT_SIZE + 3],
        data_root: hash(9),
        app_lookup: lookup(),
    });
    let r = Extension::try_from(raw);
    assert_eq!(
        r.unwrap_err(),
        DecodeError::CommitmentsLength { len: COMMITMENT_SIZE + 3 }
    );
}

fn raw_header(number: u32, encoded: Vec<u8>) -> RawHeader {
    RawHeader {
        encoded,
        parent_hash: hash(1),
        number,
        state_root: hash(2),
        extrinsics_root: hash(3),
        extension: HeaderExtension::V2(V2Extension {
            rows: 1,
            cols: 1,
            commitment: vec![0u8; COMMITMENT_SIZE],
            data_root: None,
            app_lookup: AppLookup { size: 0, index: vec![] },
        }),
    }
}

#[test]
fn header_hash_is_the_digest_of_the_encoding() {
    // blake2b-256 of the empty input, a published test vector.
    let h = Header::try_from(raw_header(5, vec![])).expect("decodes");
    assert_eq!(
        h.hash.to_hex_string(),
        "0x0e5751c026e543b2e8ab2eb06099daa1d1e5df47778f7787faab45cdf12fe3a8"
    );
    assert_eq!(h.number, 5);
    assert_eq!(h.parent_hash.to_hex_string(), hash(1).to_hex_string());
}

#[test]
fn header_hash_depends_on_the_encoding() {
    let a = Header::try_from(raw_header(5, vec![1, 2, 3])).expect("decodes");
    let b = Header::try_from(raw_header(5, vec![1, 2, 4])).expect("decodes");
    assert_ne!(a.hash.to_hex_string(), b.hash.to_hex_string());
    assert_eq!(a.hash.to_hex_string().len(), 66);
}

#[test]
fn header_message_takes_the_header_number() {
    let m = HeaderMessage::try_from(raw_header(42, vec![9])).expect("decodes");
    assert_eq!(m.block_number, 42);
    assert_eq!(m.header.number, 42);
}

#[test]
fn publish_envelope_renders_exactly() {
    let raw = RawHeader {
        encoded: vec![],
        parent_hash: hash(0),
        number: 42,
        state_root: hash(0),
        extrinsics_root: hash(0),
        extension: HeaderExtension::V2(V2Extension {
            rows: 1,
            cols: 2,
            commitment: vec![],
            data_root: None,
            app_lookup: AppLookup { size: 1, index: vec![AppLookupItem { app_id: 7, start: 3 }] },
        }),
    };
    let m = HeaderMessage::try_from(raw).expect("decodes");
    let json = PublishMessage::HeaderVerified(m).to_json();
    let zeros = "0x0000000000000000000000000000000000000000000000000000000000000000";
    let empty_digest = "0x0e5751c026e543b2e8ab2eb06099daa1d1e5df47778f7787faab45cdf12fe3a8";
    let expected = format!(
        "{{\"type\":\"header-verified\",\"message\":{{\"block_number\":42,\"header\":{{\"hash\":\"{empty_digest}\",\"parent_hash\":\"{zeros}\",\"number\":42,\"state_root\":\"{zeros}\",\"extrinsics_root\":\"{zeros}\",\"extension\":{{\"rows\":1,\"cols\":2,\"data_root\":null,\"commitments\":[],\"app_lookup\":{{\"size\":1,\"index\":[{{\"app_id\":7,\"start\":3}}]}}}}}}}}}}"
    );
    assert_eq!(json, expected);
}

#[test]
fn publish_envelope_lists_commitments() {
    let mut blob = vec![0xabu8; COMMITMENT_SIZE];
    blob.extend(vec![0xcdu8; COMMITMENT_SIZE]);
    let raw = RawHeader {
        encoded: vec![1],
        parent_hash: hash(0),
        number: 1,
        state_root: hash(0),
        extrinsics_root: hash(0),
        extension: HeaderExtension::V1(V1Extension {
            rows: 1,
            cols: 2,
            commitment: blob,
            data_root: hash(0xee),
            app_lookup: AppLookup { size: 0, index: vec![] },
        }),
    };
    let m = HeaderMessage::try_from(raw).expect("decodes");
    let json = PublishMessage::HeaderVerified(m).to_json();
    let first = format!("\"0x{}\"", "ab".repeat(COMMITMENT_SIZE));
    let second = format!("\"0x{}\"", "cd".repeat(COMMITMENT_SIZE));
    assert!(json.contains(&format!("\"commitments\":[{first},{second}]")));
    assert!(json.contains(&format!("\"data_root\":\"0x{}\"", "ee".repeat(32))));
}
