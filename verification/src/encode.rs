//! The textual (JSON) form of the broadcast envelope. Every field of the
//! envelope is a number or a hex rendering, so the encoding is total and is
//! pinned down to the character by the spec functions here.
use vstd::prelude::*;
use vstd::string::{StrSliceExecFns, StringExecFns};
use crate::commitments::{commitment_hex, Commitment};
use crate::header::{h256_hex, AppLookup, AppLookupItem, Extension, Header, HeaderMessage, H256, PublishMessage};
use crate::hexstr::push_char;

verus! {

/// Decimal digit for a value below ten.
pub open spec fn dec_digit(n: int) -> char {
    if n == 0 {
        '0'
    } else if n == 1 {
        '1'
    } else if n == 2 {
        '2'
    } else if n == 3 {
        '3'
    } else if n == 4 {
        '4'
    } else if n == 5 {
        '5'
    } else if n == 6 {
        '6'
    } else if n == 7 {
        '7'
    } else if n == 8 {
        '8'
    } else {
        '9'
    }
}

/// Decimal rendering of a number: plain digits, no sign, no leading zeros.
pub open spec fn dec_of(n: nat) -> Seq<char>
    decreases n,
{
    if n < 10 {
        seq![dec_digit(n as int)]
    } else {
        dec_of(n / 10) + seq![dec_digit((n % 10) as int)]
    }
}

/// Relies on std's Display for u32: the plain decimal digits of the value,
/// without sign, padding or leading zeros.
#[verifier::external_body]
fn u32_string(n: u32) -> (r: String)
    ensures
        r@ == dec_of(n as nat),
{
    format!("{}", n)
}

/// Appends the decimal rendering of `n`.
fn push_u32(out: &mut String, n: u32)
    ensures
        final(out)@ == old(out)@ + dec_of(n as nat),
{
    let s = u32_string(n);
    out.append(s.as_str());
}

/// The escape of one character inside a JSON string: quotes and backslashes
/// get a backslash, control characters a `\u00..` form, everything else
/// stands as it is.
pub open spec fn json_escaped_char(c: char) -> Seq<char> {
    if c == '"' {
        seq!['\\', '"']
    } else if c == '\\' {
        seq!['\\', '\\']
    } else if (c as int) < 32 {
        seq!['\\', 'u', '0', '0'] + seq![
            crate::hexstr::hex_digit((c as int) / 16),
            crate::hexstr::hex_digit((c as int) % 16),
        ]
    } else {
        seq![c]
    }
}

/// The body of a JSON string: each character escaped.
pub open spec fn json_escaped(s: Seq<char>) -> Seq<char>
    decreases s.len(),
{
    if s.len() == 0 {
        Seq::empty()
    } else {
        json_escaped(s.drop_last()) + json_escaped_char(s.last())
    }
}

/// A whole JSON string value: the escaped body in quotes.
pub open spec fn json_string_of(s: Seq<char>) -> Seq<char> {
    seq!['"'] + json_escaped(s) + seq!['"']
}

fn push_escaped_char(out: &mut String, c: char)
    ensures
        final(out)@ == old(out)@ + json_escaped_char(c),
{
    let ghost start = out@;
    if c == '"' {
        push_char(out, '\\');
        push_char(out, '"');
    } else if c == '\\' {
        push_char(out, '\\');
        push_char(out, '\\');
    } else if (c as u32) < 32 {
        let v = c as u32;
        push_char(out, '\\');
        push_char(out, 'u');
        push_char(out, '0');
        push_char(out, '0');
        push_char(out, crate::hexstr::hex_char((v / 16) as u8));
        push_char(out, crate::hexstr::hex_char((v % 16) as u8));
    } else {
        push_char(out, c);
    }
    proof {
        assert(out@ =~= start + json_escaped_char(c));
    }
}

/// Appends `s` as a JSON string value, quoted and escaped.
pub fn push_json_string(out: &mut String, s: &str)
    ensures
        final(out)@ == old(out)@ + json_string_of(s@),
{
    let ghost start = out@;
    push_char(out, '"');
    let n = s.unicode_len();
    let mut i: usize = 0;
    while i < n
        invariant
            n == s@.len(),
            i <= n,
            out@ == start + seq!['"'] + json_escaped(s@.take(i as int)),
        decreases n - i,
    {
        let c = s.get_char(i);
        push_escaped_char(out, c);
        proof {
            let t = s@.take(i as int + 1);
            assert(t.drop_last() =~= s@.take(i as int));
            assert(t.last() == s@[i as int]);
            assert(out@ =~= start + seq!['"'] + json_escaped(t));
        }
        i = i + 1;
    }
    push_char(out, '"');
    proof {
        assert(s@.take(s@.len() as int) =~= s@);
        assert(out@ =~= start + json_string_of(s@));
    }
}

/// A quoted hash value.
pub open spec fn json_of_hash(h: Seq<u8>) -> Seq<char> {
    seq!['"'] + h256_hex(h) + seq!['"']
}

fn push_hash(out: &mut String, h: &H256)
    ensures
        final(out)@ == old(out)@ + json_of_hash(h@),
{
    let ghost start = out@;
    push_char(out, '"');
    let hx = h.to_hex_string();
    out.append(hx.as_str());
    push_char(out, '"');
    proof {
        assert(out@ =~= start + json_of_hash(h@));
    }
}

/// A quoted commitment value.
pub open spec fn json_of_commitment(c: Commitment) -> Seq<char> {
    seq!['"'] + commitment_hex(c@) + seq!['"']
}

/// The members of the commitments array, comma separated.
pub open spec fn json_of_commitments(cs: Seq<Commitment>) -> Seq<char>
    decreases cs.len(),
{
    if cs.len() == 0 {
        Seq::empty()
    } else if cs.len() == 1 {
        json_of_commitment(cs[0])
    } else {
        json_of_commitments(cs.drop_last()) + seq![','] + json_of_commitment(cs.last())
    }
}

fn push_commitments(out: &mut String, cs: &Vec<Commitment>)
    ensures
        final(out)@ == old(out)@ + json_of_commitments(cs@),
{
    let ghost start = out@;
    let mut i: usize = 0;
    while i < cs.len()
        invariant
            i <= cs@.len(),
            out@ == start + json_of_commitments(cs@.take(i as int)),
        decreases cs@.len() - i,
    {
        if i > 0 {
            push_char(out, ',');
        }
        let ghost mid = out@;
        push_char(out, '"');
        let hx = cs[i].to_hex_string();
        out.append(hx.as_str());
        push_char(out, '"');
        proof {
            let t = cs@.take(i as int + 1);
            assert(t.drop_last() =~= cs@.take(i as int));
            assert(t.last() == cs@[i as int]);
            assert(mid + seq!['"'] + commitment_hex(cs@[i as int]@) + seq!['"'] =~= mid
                + json_of_commitment(cs@[i as int]));
            if i == 0 {
                assert(json_of_commitments(t) == json_of_commitment(t[0]));
                assert(out@ =~= start + json_of_commitments(t));
            } else {
                assert(json_of_commitments(t) == json_of_commitments(cs@.take(i as int)) + seq![
                    ',',
                ] + json_of_commitment(cs@[i as int]));
                assert(out@ =~= start + json_of_commitments(t));
            }
        }
        i = i + 1;
    }
    proof {
        assert(cs@.take(cs@.len() as int) =~= cs@);
    }
}

/// One entry of the lookup index.
pub open spec fn json_of_lookup_item(it: AppLookupItem) -> Seq<char> {
    "{\"app_id\":"@ + dec_of(it.app_id as nat) + ",\"start\":"@ + dec_of(it.start as nat)
        + seq!['}']
}

/// The members of the lookup index array, comma separated.
pub open spec fn json_of_lookup_items(items: Seq<AppLookupItem>) -> Seq<char>
    decreases items.len(),
{
    if items.len() == 0 {
        Seq::empty()
    } else if items.len() == 1 {
        json_of_lookup_item(items[0])
    } else {
        json_of_lookup_items(items.drop_last()) + seq![','] + json_of_lookup_item(items.last())
    }
}

fn push_lookup_item(out: &mut String, it: &AppLookupItem)
    ensures
        final(out)@ == old(out)@ + json_of_lookup_item(*it),
{
    let ghost start = out@;
    out.append("{\"app_id\":");
    push_u32(out, it.app_id);
    out.append(",\"start\":");
    push_u32(out, it.start);
    push_char(out, '}');
    proof {
        assert(out@ =~= start + json_of_lookup_item(*it));
    }
}

fn push_lookup_items(out: &mut String, items: &Vec<AppLookupItem>)
    ensures
        final(out)@ == old(out)@ + json_of_lookup_items(items@),
{
    let ghost start = out@;
    let mut i: usize = 0;
    while i < items.len()
        invariant
            i <= items@.len(),
            out@ == start + json_of_lookup_items(items@.take(i as int)),
        decreases items@.len() - i,
    {
        if i > 0 {
            push_char(out, ',');
        }
        push_lookup_item(out, &items[i]);
        proof {
            let t = items@.take(i as int + 1);
            assert(t.drop_last() =~= items@.take(i as int));
            assert(t.last() == items@[i as int]);
            if i == 0 {
                assert(json_of_lookup_items(t) == json_of_lookup_item(t[0]));
                assert(out@ =~= start + json_of_lookup_items(t));
            } else {
                assert(json_of_lookup_items(t) == json_of_lookup_items(items@.take(i as int))
                    + seq![','] + json_of_lookup_item(items@[i as int]));
                assert(out@ =~= start + json_of_lookup_items(t));
            }
        }
        i = i + 1;
    }
    proof {
        assert(items@.take(items@.len() as int) =~= items@);
    }
}

/// The compact lookup object.
pub open spec fn json_of_app_lookup(l: AppLookup) -> Seq<char> {
    "{\"size\":"@ + dec_of(l.size as nat) + ",\"index\":["@ + json_of_lookup_items(l.index@)
        + "]}"@
}

fn push_app_lookup(out: &mut String, l: &AppLookup)
    ensures
        final(out)@ == old(out)@ + json_of_app_lookup(*l),
{
    let ghost start = out@;
    out.append("{\"size\":");
    push_u32(out, l.size);
    out.append(",\"index\":[");
    push_lookup_items(out, &l.index);
    out.append("]}");
    proof {
        assert(out@ =~= start + json_of_app_lookup(*l));
    }
}

/// The data root field: the quoted hash, or null when absent.
pub open spec fn json_of_data_root(r: Option<H256>) -> Seq<char> {
    match r {
        Some(h) => json_of_hash(h@),
        None => "null"@,
    }
}

/// The normalized extension object.
pub open spec fn json_of_extension(e: Extension) -> Seq<char> {
    "{\"rows\":"@ + dec_of(e.rows as nat) + ",\"cols\":"@ + dec_of(e.cols as nat)
        + ",\"data_root\":"@ + json_of_data_root(e.data_root) + ",\"commitments\":["@
        + json_of_commitments(e.commitments@) + "],\"app_lookup\":"@ + json_of_app_lookup(
        e.app_lookup,
    ) + seq!['}']
}

fn push_extension(out: &mut String, e: &Extension)
    ensures
        final(out)@ == old(out)@ + json_of_extension(*e),
{
    let ghost start = out@;
    out.append("{\"rows\":");
    push_u32(out, e.rows as u32);
    out.append(",\"cols\":");
    push_u32(out, e.cols as u32);
    out.append(",\"data_root\":");
    match &e.data_root {
        Some(h) => push_hash(out, h),
        None => out.append("null"),
    }
    out.append(",\"commitments\":[");
    push_commitments(out, &e.commitments);
    out.append("],\"app_lookup\":");
    push_app_lookup(out, &e.app_lookup);
    push_char(out, '}');
    proof {
        assert(out@ =~= start + json_of_extension(*e));
    }
}

/// The decoded header object.
pub open spec fn json_of_header(h: Header) -> Seq<char> {
    "{\"hash\":"@ + json_of_hash(h.hash@) + ",\"parent_hash\":"@ + json_of_hash(h.parent_hash@)
        + ",\"number\":"@ + dec_of(h.number as nat) + ",\"state_root\":"@ + json_of_hash(
        h.state_root@,
    ) + ",\"extrinsics_root\":"@ + json_of_hash(h.extrinsics_root@) + ",\"extension\":"@
        + json_of_extension(h.extension) + seq!['}']
}

fn push_header(out: &mut String, h: &Header)
    ensures
        final(out)@ == old(out)@ + json_of_header(*h),
{
    let ghost start = out@;
    out.append("{\"hash\":");
    push_hash(out, &h.hash);
    out.append(",\"parent_hash\":");
    push_hash(out, &h.parent_hash);
    out.append(",\"number\":");
    push_u32(out, h.number);
    out.append(",\"state_root\":");
    push_hash(out, &h.state_root);
    out.append(",\"extrinsics_root\":");
    push_hash(out, &h.extrinsics_root);
    out.append(",\"extension\":");
    push_extension(out, &h.extension);
    push_char(out, '}');
    proof {
        assert(out@ =~= start + json_of_header(*h));
    }
}

/// The header event message.
pub open spec fn json_of_header_message(m: HeaderMessage) -> Seq<char> {
    "{\"block_number\":"@ + dec_of(m.block_number as nat) + ",\"header\":"@ + json_of_header(
        m.header,
    ) + seq!['}']
}

/// The whole broadcast envelope: the event kind as its tag, then the message.
pub open spec fn json_of_publish(p: PublishMessage) -> Seq<char> {
    match p {
        PublishMessage::HeaderVerified(m) => "{\"type\":\"header-verified\",\"message\":"@
            + json_of_header_message(m) + seq!['}'],
    }
}

impl PublishMessage {
    /// Serializes the envelope; the encoding is total, so it never fails.
    pub fn to_json(&self) -> (r: String)
        ensures
            r@ == json_of_publish(*self),
    {
        let mut out = String::new();
        match self {
            PublishMessage::HeaderVerified(m) => {
                out.append("{\"type\":\"header-verified\",\"message\":");
                out.append("{\"block_number\":");
                push_u32(&mut out, m.block_number);
                out.append(",\"header\":");
                push_header(&mut out, &m.header);
                push_char(&mut out, '}');
                push_char(&mut out, '}');
                proof {
                    assert(out@ =~= json_of_publish(*self));
                }
            },
        }
        out
    }
}

} // verus!
