//! Lowercase hexadecimal rendering and parsing of byte strings, with the
//! facts that make the two directions of the codec line up.
use vstd::prelude::*;

verus! {

/// Hex digit for a nibble value, lowercase.
pub open spec fn hex_digit(n: int) -> char {
    if n == 0 {
        '0'
    } else if n == 1 {
        '1'
    } else if n == 2 {
        '2'
    } else if n == 3 {
        '3'
    } else if n == 4 {
        '4'
    } else if n == 5 {
        '5'
    } else if n == 6 {
        '6'
    } else if n == 7 {
        '7'
    } else if n == 8 {
        '8'
    } else if n == 9 {
        '9'
    } else if n == 10 {
        'a'
    } else if n == 11 {
        'b'
    } else if n == 12 {
        'c'
    } else if n == 13 {
        'd'
    } else if n == 14 {
        'e'
    } else {
        'f'
    }
}

/// A character that stands for some nibble value.
pub open spec fn is_hex_char(c: char) -> bool {
    exists|n: int| 0 <= n < 16 && hex_digit(n) == c
}

/// Lowercase hex rendering of a byte sequence, two digits per byte.
pub open spec fn hex_of(b: Seq<u8>) -> Seq<char>
    decreases b.len(),
{
    if b.len() == 0 {
        Seq::empty()
    } else {
        hex_of(b.drop_last()) + seq![
            hex_digit((b.last() / 16) as int),
            hex_digit((b.last() % 16) as int),
        ]
    }
}

/// Hex digits come in pairs.
pub proof fn lemma_hex_of_len(b: Seq<u8>)
    ensures
        hex_of(b).len() == 2 * b.len(),
    decreases b.len(),
{
    if b.len() > 0 {
        lemma_hex_of_len(b.drop_last());
    }
}

/// Every character of a hex rendering stands for a nibble.
pub proof fn lemma_hex_of_chars(b: Seq<u8>)
    ensures
        forall|i: int| 0 <= i < hex_of(b).len() ==> is_hex_char(#[trigger] hex_of(b)[i]),
    decreases b.len(),
{
    lemma_hex_of_len(b);
    if b.len() > 0 {
        lemma_hex_of_chars(b.drop_last());
        lemma_hex_of_len(b.drop_last());
        let hi = (b.last() / 16) as int;
        let lo = (b.last() % 16) as int;
        assert(hex_digit(hi) == hex_of(b)[hex_of(b).len() - 2]);
        assert(hex_digit(lo) == hex_of(b)[hex_of(b).len() - 1]);
        assert(is_hex_char(hex_digit(hi)));
        assert(is_hex_char(hex_digit(lo)));
    }
}

/// Two byte strings with the same hex rendering are the same.
pub proof fn lemma_hex_of_injective(a: Seq<u8>, b: Seq<u8>)
    requires
        hex_of(a) == hex_of(b),
    ensures
        a == b,
    decreases a.len(),
{
    lemma_hex_of_len(a);
    lemma_hex_of_len(b);
    if a.len() == 0 {
        assert(a =~= b);
    } else {
        let ha = hex_of(a.drop_last());
        let hb = hex_of(b.drop_last());
        lemma_hex_of_len(a.drop_last());
        lemma_hex_of_len(b.drop_last());
        assert(hex_of(a)[hex_of(a).len() - 2] == hex_digit((a.last() / 16) as int));
        assert(hex_of(a)[hex_of(a).len() - 1] == hex_digit((a.last() % 16) as int));
        assert(hex_of(b)[hex_of(b).len() - 2] == hex_digit((b.last() / 16) as int));
        assert(hex_of(b)[hex_of(b).len() - 1] == hex_digit((b.last() % 16) as int));
        assert(a.last() == b.last()) by {
            assert(hex_digit((a.last() / 16) as int) == hex_digit((b.last() / 16) as int));
            assert(hex_digit((a.last() % 16) as int) == hex_digit((b.last() % 16) as int));
        }
        assert(ha =~= hb) by {
            assert forall|i: int| 0 <= i < ha.len() implies ha[i] == hb[i] by {
                assert(hex_of(a)[i] == ha[i]);
                assert(hex_of(b)[i] == hb[i]);
            }
        }
        lemma_hex_of_injective(a.drop_last(), b.drop_last());
        assert(a =~= a.drop_last().push(a.last()));
        assert(b =~= b.drop_last().push(b.last()));
    }
}

/// Relies on std's String::push: appends exactly the one character.
#[verifier::external_body]
pub(crate) fn push_char(s: &mut String, c: char)
    ensures
        final(s)@ == old(s)@ + seq![c],
{
    s.push(c);
}

pub(crate) fn hex_char(n: u8) -> (c: char)
    requires
        n < 16,
    ensures
        c == hex_digit(n as int),
{
    match n {
        0 => '0',
        1 => '1',
        2 => '2',
        3 => '3',
        4 => '4',
        5 => '5',
        6 => '6',
        7 => '7',
        8 => '8',
        9 => '9',
        10 => 'a',
        11 => 'b',
        12 => 'c',
        13 => 'd',
        14 => 'e',
        _ => 'f',
    }
}

/// Nibble value of a lowercase hex character, or none for any other character.
pub fn hex_char_value(c: char) -> (r: Option<u8>)
    ensures
        match r {
            Some(v) => v < 16 && hex_digit(v as int) == c,
            None => !is_hex_char(c),
        },
{
    let r = match c {
        '0' => Some(0u8),
        '1' => Some(1u8),
        '2' => Some(2u8),
        '3' => Some(3u8),
        '4' => Some(4u8),
        '5' => Some(5u8),
        '6' => Some(6u8),
        '7' => Some(7u8),
        '8' => Some(8u8),
        '9' => Some(9u8),
        'a' => Some(10u8),
        'b' => Some(11u8),
        'c' => Some(12u8),
        'd' => Some(13u8),
        'e' => Some(14u8),
        'f' => Some(15u8),
        _ => None,
    };
    proof {
        if r is None {
            assert forall|n: int| 0 <= n < 16 implies hex_digit(n) != c by {}
        }
    }
    r
}

/// Appends the lowercase hex rendering of `bytes` to `out`.
pub fn push_hex(out: &mut String, bytes: &[u8])
    ensures
        final(out)@ == old(out)@ + hex_of(bytes@),
{
    let ghost start = out@;
    let mut i: usize = 0;
    while i < bytes.len()
        invariant
            i <= bytes@.len(),
            out@ == start + hex_of(bytes@.take(i as int)),
        decreases bytes@.len() - i,
    {
        let b = bytes[i];
        push_char(out, hex_char(b / 16));
        push_char(out, hex_char(b % 16));
        proof {
            let t = bytes@.take(i as int + 1);
            assert(t.drop_last() =~= bytes@.take(i as int));
            assert(t.last() == bytes@[i as int]);
            assert(hex_of(t) == hex_of(bytes@.take(i as int)) + seq![
                hex_digit((b / 16) as int),
                hex_digit((b % 16) as int),
            ]);
            assert(out@ =~= start + hex_of(t));
        }
        i = i + 1;
    }
    proof {
        assert(bytes@.take(bytes@.len() as int) =~= bytes@);
    }
}

} // verus!
