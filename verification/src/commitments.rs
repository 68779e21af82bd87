//! The commitment codec: fixed-size commitment records cut from a flat byte
//! blob, and their `0x`-prefixed lowercase hex textual form.
use vstd::prelude::*;
use vstd::slice::{slice_subrange, slice_to_vec};
use vstd::string::StrSliceExecFns;
use crate::hexstr::{
    hex_char_value, hex_digit, hex_of, is_hex_char, lemma_hex_of_chars, lemma_hex_of_injective,
    lemma_hex_of_len, push_hex,
};

verus! {

/// Number of bytes in one commitment record.
pub const COMMITMENT_SIZE: usize = 48;

/// Why a blob or a textual form could not be decoded.
#[derive(Clone, Copy, Debug, PartialEq, Eq, Structural)]
pub enum DecodeError {
    /// The flat blob's length is not a multiple of the commitment size.
    CommitmentsLength { len: usize },
    /// A textual form is not `0x` followed by the right number of characters.
    HexFormat { len: usize },
    /// A character after the `0x` prefix is not a lowercase hex digit.
    HexDigit,
    /// A hash is not exactly 32 bytes.
    HashLength { len: usize },
    /// A transaction payload is not valid standard-alphabet base64.
    Base64,
}

/// One fixed-size commitment record.
#[derive(Debug)]
pub struct Commitment {
    bytes: Vec<u8>,
}

impl View for Commitment {
    type V = Seq<u8>;

    closed spec fn view(&self) -> Seq<u8> {
        self.bytes@
    }
}

/// The textual form of a commitment with the given bytes.
pub open spec fn commitment_hex(b: Seq<u8>) -> Seq<char> {
    "0x"@ + hex_of(b)
}

/// A well-shaped textual form: `0x`, then exactly two lowercase hex digits
/// per commitment byte.
pub open spec fn is_commitment_hex(s: Seq<char>) -> bool {
    &&& s.len() == 2 * COMMITMENT_SIZE + 2
    &&& s[0] == '0'
    &&& s[1] == 'x'
    &&& forall|i: int| 2 <= i < s.len() ==> is_hex_char(#[trigger] s[i])
}

impl Commitment {
    #[verifier::type_invariant]
    pub open spec fn wf(self) -> bool {
        self@.len() == COMMITMENT_SIZE
    }

    /// The `0x`-prefixed lowercase hex rendering of this commitment.
    pub fn to_hex_string(&self) -> (r: String)
        ensures
            r@ == commitment_hex(self@),
    {
        let mut out = String::new();
        out.append("0x");
        push_hex(&mut out, self.bytes.as_slice());
        out
    }

    /// Parses the `0x`-prefixed lowercase hex rendering of one commitment.
    /// Exactly the well-shaped strings parse, and to the bytes they render.
    pub fn from_hex_string(s: &str) -> (r: Result<Commitment, DecodeError>)
        ensures
            r is Ok <==> is_commitment_hex(s@),
            r matches Ok(c) ==> commitment_hex(c@) == s@ && c@.len() == COMMITMENT_SIZE,
            (s@.len() != 2 * COMMITMENT_SIZE + 2 || s@[0] != '0' || s@[1] != 'x') ==> r == Err::<
                Commitment,
                DecodeError,
            >((DecodeError::HexFormat { len: s@.len() as usize })),
            (s@.len() == 2 * COMMITMENT_SIZE + 2 && s@[0] == '0' && s@[1] == 'x' && r is Err)
                ==> r == Err::<Commitment, DecodeError>(DecodeError::HexDigit),
    {
        let n = s.unicode_len();
        if n != 2 * COMMITMENT_SIZE + 2 {
            return Err(DecodeError::HexFormat { len: n });
        }
        if s.get_char(0) != '0' || s.get_char(1) != 'x' {
            return Err(DecodeError::HexFormat { len: n });
        }
        let mut bytes: Vec<u8> = Vec::new();
        let mut i: usize = 0;
        while i < COMMITMENT_SIZE
            invariant
                i <= COMMITMENT_SIZE,
                s@.len() == 2 * COMMITMENT_SIZE + 2,
                s@[0] == '0',
                s@[1] == 'x',
                bytes@.len() == i,
                hex_of(bytes@) == s@.subrange(2, 2 + 2 * i),
                forall|j: int| 2 <= j < 2 + 2 * i ==> is_hex_char(#[trigger] s@[j]),
            decreases COMMITMENT_SIZE - i,
        {
            let hi_c = s.get_char(2 * i + 2);
            let lo_c = s.get_char(2 * i + 3);
            let hv = match hex_char_value(hi_c) {
                Some(v) => v,
                None => {
                    return Err(DecodeError::HexDigit);
                },
            };
            let lv = match hex_char_value(lo_c) {
                Some(v) => v,
                None => {
                    return Err(DecodeError::HexDigit);
                },
            };
            let b = hv * 16 + lv;
            let ghost before = bytes@;
            bytes.push(b);
            proof {
                assert(b / 16 == hv && b % 16 == lv);
                assert(bytes@.drop_last() =~= before);
                assert(hex_of(bytes@) == hex_of(before) + seq![
                    hex_digit((b / 16) as int),
                    hex_digit((b % 16) as int),
                ]);
                assert(s@.subrange(2, 2 + 2 * (i + 1)) =~= s@.subrange(2, 2 + 2 * i) + seq![
                    s@[2 + 2 * i],
                    s@[2 + 2 * i + 1],
                ]);
                assert(hex_of(bytes@) =~= s@.subrange(2, 2 + 2 * (i + 1)));
                assert(is_hex_char(s@[2 + 2 * i]));
                assert(is_hex_char(s@[2 + 2 * i + 1]));
            }
            i = i + 1;
        }
        proof {
            reveal_strlit("0x");
            assert(is_commitment_hex(s@));
            assert(commitment_hex(bytes@) =~= s@) by {
                assert(hex_of(bytes@) == s@.subrange(2, 2 + 2 * COMMITMENT_SIZE));
                lemma_hex_of_len(bytes@);
            }
        }
        Ok(Commitment { bytes })
    }
}

/// Cuts a flat blob into commitment records of `COMMITMENT_SIZE` bytes each.
/// Fails, and produces nothing, exactly when the length is not a multiple of
/// the record size.
pub fn from_slice(bytes: &[u8]) -> (r: Result<Vec<Commitment>, DecodeError>)
    ensures
        r is Ok <==> bytes@.len() % (COMMITMENT_SIZE as nat) == 0,
        r matches Ok(v) ==> {
            &&& v@.len() * COMMITMENT_SIZE == bytes@.len()
            &&& forall|i: int|
                0 <= i < v@.len() ==> #[trigger] v@[i]@ == bytes@.subrange(
                    COMMITMENT_SIZE * i,
                    COMMITMENT_SIZE * i + COMMITMENT_SIZE,
                )
        },
        r is Err ==> r == Err::<Vec<Commitment>, DecodeError>((DecodeError::CommitmentsLength {
            len: bytes@.len() as usize,
        })),
{
    let len = bytes.len();
    if len % COMMITMENT_SIZE != 0 {
        return Err(DecodeError::CommitmentsLength { len });
    }
    let mut out: Vec<Commitment> = Vec::new();
    let mut off: usize = 0;
    while off < len
        invariant
            len == bytes@.len(),
            len % COMMITMENT_SIZE == 0,
            off % COMMITMENT_SIZE == 0,
            off <= len,
            out@.len() * COMMITMENT_SIZE == off,
            forall|i: int|
                0 <= i < out@.len() ==> #[trigger] out@[i]@ == bytes@.subrange(
                    COMMITMENT_SIZE * i,
                    COMMITMENT_SIZE * i + COMMITMENT_SIZE,
                ),
        decreases len - off,
    {
        proof {
            vstd::arithmetic::div_mod::lemma_fundamental_div_mod(
                len as int,
                COMMITMENT_SIZE as int,
            );
            vstd::arithmetic::div_mod::lemma_fundamental_div_mod(
                off as int,
                COMMITMENT_SIZE as int,
            );
            let ql = len as int / COMMITMENT_SIZE as int;
            let qo = off as int / COMMITMENT_SIZE as int;
            assert(off + COMMITMENT_SIZE <= len) by (nonlinear_arith)
                requires
                    len as int == COMMITMENT_SIZE as int * ql,
                    off as int == COMMITMENT_SIZE as int * qo,
                    off < len,
                    COMMITMENT_SIZE == 48,
            {}
        }
        let chunk = slice_subrange(bytes, off, off + COMMITMENT_SIZE);
        let c = Commitment { bytes: slice_to_vec(chunk) };
        out.push(c);
        off = off + COMMITMENT_SIZE;
        proof {
            assert(out@.last()@ == bytes@.subrange(
                COMMITMENT_SIZE * (out@.len() - 1),
                COMMITMENT_SIZE * (out@.len() - 1) + COMMITMENT_SIZE,
            ));
        }
    }
    Ok(out)
}

/// Law: a commitment's textual form is well shaped, so parsing what
/// `to_hex_string` produced never fails.
pub proof fn lemma_commitment_hex_valid(b: Seq<u8>)
    requires
        b.len() == COMMITMENT_SIZE,
    ensures
        is_commitment_hex(commitment_hex(b)),
{
    reveal_strlit("0x");
    lemma_hex_of_len(b);
    lemma_hex_of_chars(b);
    let s = commitment_hex(b);
    assert(s.len() == 2 * COMMITMENT_SIZE + 2);
    assert(s[0] == '0' && s[1] == 'x');
    assert forall|i: int| 2 <= i < s.len() implies is_hex_char(#[trigger] s[i]) by {
        assert(s[i] == hex_of(b)[i - 2]);
    }
}

/// Law: two commitments with the same textual form hold the same bytes, so
/// parsing a rendering gives back exactly the commitment that was rendered.
pub proof fn lemma_commitment_hex_injective(a: Seq<u8>, b: Seq<u8>)
    requires
        commitment_hex(a) == commitment_hex(b),
    ensures
        a == b,
{
    reveal_strlit("0x");
    lemma_hex_of_len(a);
    lemma_hex_of_len(b);
    assert(commitment_hex(a).len() == commitment_hex(b).len());
    assert(commitment_hex(a).len() == "0x"@.len() + hex_of(a).len());
    assert(commitment_hex(b).len() == "0x"@.len() + hex_of(b).len());
    assert(hex_of(a).len() == hex_of(b).len());
    assert(hex_of(a) =~= hex_of(b)) by {
        assert forall|i: int| 0 <= i < hex_of(a).len() implies hex_of(a)[i] == hex_of(b)[i] by {
            assert(commitment_hex(a)[i + 2] == hex_of(a)[i]);
            assert(commitment_hex(b)[i + 2] == hex_of(b)[i]);
        }
    }
    lemma_hex_of_injective(a, b);
}

} // verus!
