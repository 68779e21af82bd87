//! Versioned block-header extensions and their normalization: a raw, version
//! tagged extension (V1 or V2) becomes one in-memory representation carrying
//! decoded commitments and an optional data root.
use vstd::prelude::*;
use crate::commitments::{from_slice, Commitment, DecodeError, COMMITMENT_SIZE};
use crate::hexstr::{hex_of, push_hex};

verus! {

/// A 256-bit hash carried as its 32 bytes.
#[derive(Debug)]
pub struct H256 {
    bytes: Vec<u8>,
}

impl Clone for H256 {
    fn clone(&self) -> (r: Self)
        ensures
            r@ == self@,
    {
        proof {
            use_type_invariant(self);
        }
        H256 { bytes: vstd::slice::slice_to_vec(self.bytes.as_slice()) }
    }
}

impl View for H256 {
    type V = Seq<u8>;

    closed spec fn view(&self) -> Seq<u8> {
        self.bytes@
    }
}

/// The textual form of a 256-bit hash: `0x` and 64 lowercase hex digits.
pub open spec fn h256_hex(b: Seq<u8>) -> Seq<char> {
    "0x"@ + hex_of(b)
}

impl H256 {
    #[verifier::type_invariant]
    pub open spec fn wf(self) -> bool {
        self@.len() == 32
    }

    /// Wraps exactly 32 bytes; any other count is refused.
    pub fn new(bytes: Vec<u8>) -> (r: Result<H256, DecodeError>)
        ensures
            r is Ok <==> bytes@.len() == 32,
            r matches Ok(h) ==> h@ == bytes@,
            r is Err ==> r == Err::<H256, DecodeError>((DecodeError::HashLength {
                len: bytes@.len() as usize,
            })),
    {
        if bytes.len() != 32 {
            return Err(DecodeError::HashLength { len: bytes.len() });
        }
        Ok(H256 { bytes })
    }

    /// The `0x`-prefixed lowercase hex rendering of this hash.
    pub fn to_hex_string(&self) -> (r: String)
        ensures
            r@ == h256_hex(self@),
    {
        let mut out = String::new();
        out.append("0x");
        push_hex(&mut out, self.bytes.as_slice());
        out
    }
}

/// Names the digest that sp_core's Blake2Hasher computes; the digest is a
/// function of the input bytes alone.
pub uninterp spec fn blake2_256_of(data: Seq<u8>) -> Seq<u8>;

/// Relies on sp_core's Blake2Hasher: the 32-byte blake2b-256 digest of the
/// input bytes.
#[verifier::external_body]
fn blake2_256(data: &[u8]) -> (r: Vec<u8>)
    ensures
        r@ == blake2_256_of(data@),
        r@.len() == 32,
{
    <sp_core::Blake2Hasher as sp_core::Hasher>::hash(data).as_bytes().to_vec()
}

/// One entry of the compact application-data lookup: where the rows of one
/// application start inside the block.
#[derive(Debug, Clone, Copy, PartialEq, Eq, Structural)]
pub struct AppLookupItem {
    pub app_id: u32,
    pub start: u32,
}

/// Compact lookup from applications to their slice of the block, copied
/// through decoding untouched.
#[derive(Debug, Clone)]
pub struct AppLookup {
    pub size: u32,
    pub index: Vec<AppLookupItem>,
}

/// A V1 wire extension: the data root is always present.
pub struct V1Extension {
    pub rows: u16,
    pub cols: u16,
    pub commitment: Vec<u8>,
    pub data_root: H256,
    pub app_lookup: AppLookup,
}

/// A V2 wire extension: the data root is optional.
pub struct V2Extension {
    pub rows: u16,
    pub cols: u16,
    pub commitment: Vec<u8>,
    pub data_root: Option<H256>,
    pub app_lookup: AppLookup,
}

/// A raw, version-tagged block extension as the node hands it over.
pub enum HeaderExtension {
    V1(V1Extension),
    V2(V2Extension),
}

/// The flat commitment blob of a raw extension.
pub open spec fn raw_commitment_bytes(v: HeaderExtension) -> Seq<u8> {
    match v {
        HeaderExtension::V1(x) => x.commitment@,
        HeaderExtension::V2(x) => x.commitment@,
    }
}

/// The data root a raw extension carries: always present for V1, optional
/// for V2.
pub open spec fn raw_data_root(v: HeaderExtension) -> Option<H256> {
    match v {
        HeaderExtension::V1(x) => Some(x.data_root),
        HeaderExtension::V2(x) => x.data_root,
    }
}

/// The matrix dimensions of a raw extension.
pub open spec fn raw_rows(v: HeaderExtension) -> u16 {
    match v {
        HeaderExtension::V1(x) => x.rows,
        HeaderExtension::V2(x) => x.rows,
    }
}

pub open spec fn raw_cols(v: HeaderExtension) -> u16 {
    match v {
        HeaderExtension::V1(x) => x.cols,
        HeaderExtension::V2(x) => x.cols,
    }
}

pub open spec fn raw_app_lookup(v: HeaderExtension) -> AppLookup {
    match v {
        HeaderExtension::V1(x) => x.app_lookup,
        HeaderExtension::V2(x) => x.app_lookup,
    }
}

/// The normalized in-memory extension.
#[derive(Debug)]
pub struct Extension {
    pub rows: u16,
    pub cols: u16,
    pub data_root: Option<H256>,
    pub commitments: Vec<Commitment>,
    pub app_lookup: AppLookup,
}

/// What decoding promises: dimensions and lookup copied through, the data
/// root set by the variant rule, and the commitments cut from the flat blob
/// record by record.
pub open spec fn extension_decodes_to(v: HeaderExtension, e: Extension) -> bool {
    &&& e.rows == raw_rows(v)
    &&& e.cols == raw_cols(v)
    &&& e.data_root == raw_data_root(v)
    &&& e.app_lookup == raw_app_lookup(v)
    &&& e.commitments@.len() * COMMITMENT_SIZE == raw_commitment_bytes(v).len()
    &&& forall|i: int|
        0 <= i < e.commitments@.len() ==> #[trigger] e.commitments@[i]@ == raw_commitment_bytes(
            v,
        ).subrange(COMMITMENT_SIZE * i, COMMITMENT_SIZE * i + COMMITMENT_SIZE)
}

impl Extension {
    /// Normalizes a raw extension. Fails exactly when the commitment blob's
    /// length is not a multiple of the commitment size, and the failure is
    /// propagated unchanged from the commitment codec: no partial result.
    pub fn try_from(value: HeaderExtension) -> (r: Result<Extension, DecodeError>)
        ensures
            r is Ok <==> raw_commitment_bytes(value).len() % (COMMITMENT_SIZE as nat) == 0,
            r matches Ok(e) ==> extension_decodes_to(value, e),
            r is Err ==> r == Err::<Extension, DecodeError>((DecodeError::CommitmentsLength {
                len: raw_commitment_bytes(value).len() as usize,
            })),
    {
        match value {
            HeaderExtension::V1(v1) => {
                let commitments = match from_slice(v1.commitment.as_slice()) {
                    Ok(c) => c,
                    Err(e) => {
                        return Err(e);
                    },
                };
                Ok(
                    Extension {
                        rows: v1.rows,
                        cols: v1.cols,
                        data_root: Some(v1.data_root),
                        commitments,
                        app_lookup: v1.app_lookup,
                    },
                )
            },
            HeaderExtension::V2(v2) => {
                let commitments = match from_slice(v2.commitment.as_slice()) {
                    Ok(c) => c,
                    Err(e) => {
                        return Err(e);
                    },
                };
                Ok(
                    Extension {
                        rows: v2.rows,
                        cols: v2.cols,
                        data_root: v2.data_root,
                        commitments,
                        app_lookup: v2.app_lookup,
                    },
                )
            },
        }
    }
}

/// A raw block header as the node client hands it over: its decoded fields
/// together with its canonical byte encoding, from which the header's own
/// hash is recomputed.
pub struct RawHeader {
    pub encoded: Vec<u8>,
    pub parent_hash: H256,
    pub number: u32,
    pub state_root: H256,
    pub extrinsics_root: H256,
    pub extension: HeaderExtension,
}

/// A decoded block header ready for delivery.
#[derive(Debug)]
pub struct Header {
    pub hash: H256,
    pub parent_hash: H256,
    pub number: u32,
    pub state_root: H256,
    pub extrinsics_root: H256,
    pub extension: Extension,
}

impl Header {
    /// Builds a header from the raw one: the hash is the blake2b-256 digest
    /// of the canonical encoding, the other fields are copied, and the
    /// extension is normalized; its failure propagates unchanged.
    pub fn try_from(raw: RawHeader) -> (r: Result<Header, DecodeError>)
        ensures
            r is Ok <==> raw_commitment_bytes(raw.extension).len() % (COMMITMENT_SIZE as nat)
                == 0,
            r matches Ok(h) ==> {
                &&& h.hash@ == blake2_256_of(raw.encoded@)
                &&& h.parent_hash == raw.parent_hash
                &&& h.number == raw.number
                &&& h.state_root == raw.state_root
                &&& h.extrinsics_root == raw.extrinsics_root
                &&& extension_decodes_to(raw.extension, h.extension)
            },
            r is Err ==> r == Err::<Header, DecodeError>((DecodeError::CommitmentsLength {
                len: raw_commitment_bytes(raw.extension).len() as usize,
            })),
    {
        let digest = blake2_256(raw.encoded.as_slice());
        let extension = match Extension::try_from(raw.extension) {
            Ok(e) => e,
            Err(e) => {
                return Err(e);
            },
        };
        Ok(
            Header {
                hash: H256 { bytes: digest },
                parent_hash: raw.parent_hash,
                number: raw.number,
                state_root: raw.state_root,
                extrinsics_root: raw.extrinsics_root,
                extension,
            },
        )
    }
}

/// One verified-header event, ready to broadcast.
#[derive(Debug)]
pub struct HeaderMessage {
    pub block_number: u32,
    pub header: Header,
}

impl HeaderMessage {
    /// Builds the broadcast message for a raw header: the header decoded as
    /// `Header::try_from` says, and the block number taken from it.
    pub fn try_from(raw: RawHeader) -> (r: Result<HeaderMessage, DecodeError>)
        ensures
            r is Ok <==> raw_commitment_bytes(raw.extension).len() % (COMMITMENT_SIZE as nat)
                == 0,
            r matches Ok(m) ==> {
                &&& m.block_number == raw.number
                &&& m.header.hash@ == blake2_256_of(raw.encoded@)
                &&& m.header.parent_hash == raw.parent_hash
                &&& m.header.number == raw.number
                &&& m.header.state_root == raw.state_root
                &&& m.header.extrinsics_root == raw.extrinsics_root
                &&& extension_decodes_to(raw.extension, m.header.extension)
            },
            r is Err ==> r == Err::<HeaderMessage, DecodeError>((DecodeError::CommitmentsLength {
                len: raw_commitment_bytes(raw.extension).len() as usize,
            })),
    {
        let header = match Header::try_from(raw) {
            Ok(h) => h,
            Err(e) => {
                return Err(e);
            },
        };
        Ok(HeaderMessage { block_number: header.number, header })
    }
}

/// A broadcast envelope: the event kind together with its message.
pub enum PublishMessage {
    HeaderVerified(HeaderMessage),
}

} // verus!
