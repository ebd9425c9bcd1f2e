//! Strings cross the foreign boundary as 16-bit code units. This module
//! encodes host text into code units for the out-buffers and decodes
//! inbound unit buffers back into text, with the pairing rules for
//! supplementary characters proved rather than assumed.

use vstd::prelude::*;
use vstd::string::StrSliceExecFns;

verus! {

/// The code units of one character: one unit in the basic plane, or a
/// high/low surrogate pair above it.
pub open spec fn utf16_units(c: char) -> Seq<u16> {
    let v = c as u32;
    if v < 0x10000 {
        seq![v as u16]
    } else {
        seq![
            (0xD800 + ((v - 0x10000) / 0x400)) as u16,
            (0xDC00 + ((v - 0x10000) % 0x400)) as u16,
        ]
    }
}

/// The code units of a whole string, in order.
pub open spec fn utf16_encode(s: Seq<char>) -> Seq<u16>
    decreases s.len(),
{
    if s.len() == 0 {
        Seq::empty()
    } else {
        utf16_encode(s.drop_last()) + utf16_units(s.last())
    }
}

pub proof fn lemma_utf16_encode_push(s: Seq<char>, c: char)
    ensures
        utf16_encode(s.push(c)) == utf16_encode(s) + utf16_units(c),
{
    assert(s.push(c).drop_last() =~= s);
    assert(s.push(c).last() == c);
}

pub open spec fn is_high_surrogate(u: u16) -> bool {
    0xD800 <= u < 0xDC00
}

pub open spec fn is_low_surrogate(u: u16) -> bool {
    0xDC00 <= u < 0xE000
}

/// A unit buffer is well formed when every high surrogate is followed by a
/// low one and no low surrogate stands alone — exactly the buffers that are
/// the encoding of some string.
pub open spec fn valid_utf16(u: Seq<u16>) -> bool
    decreases u.len(),
{
    if u.len() == 0 {
        true
    } else if !is_high_surrogate(u[0]) && !is_low_surrogate(u[0]) {
        valid_utf16(u.skip(1))
    } else if is_high_surrogate(u[0]) && u.len() >= 2 && is_low_surrogate(u[1]) {
        valid_utf16(u.skip(2))
    } else {
        false
    }
}

/// Relies on `char::from_u32`: a code point converts exactly when it is a
/// scalar value — below the surrogate block or between it and the maximum —
/// and the resulting character has exactly that code point.
pub assume_specification[ char::from_u32 ](v: u32) -> (r: Option<char>)
    ensures
        r is Some <==> (v < 0xD800 || (0xE000 <= v && v < 0x110000)),
        r matches Some(c) ==> c as u32 == v,
;

/// Relies on `String`'s `FromIterator` over characters: collecting yields
/// the string of exactly those characters in order.
#[verifier::external_body]
pub(crate) fn chars_to_string(v: Vec<char>) -> (r: String)
    ensures
        r@ == v@,
{
    v.into_iter().collect()
}

/// Appends the code units of `s` to `out`, followed by the terminating
/// null unit that the boundary's out-buffers carry.
pub fn encode_utf16_z(s: &str, out: &mut Vec<u16>)
    ensures
        final(out)@ == old(out)@ + utf16_encode(s@) + seq![0u16],
{
    let len = s.unicode_len();
    let mut i: usize = 0;
    while i < len
        invariant
            0 <= i <= len,
            len == s@.len(),
            out@ == old(out)@ + utf16_encode(s@.take(i as int)),
        decreases len - i,
    {
        let c = s.get_char(i);
        let v = c as u32;
        if v < 0x10000 {
            out.push(v as u16);
        } else {
            out.push((0xD800 + ((v - 0x10000) / 0x400)) as u16);
            out.push((0xDC00 + ((v - 0x10000) % 0x400)) as u16);
        }
        proof {
            lemma_utf16_encode_push(s@.take(i as int), s@[i as int]);
            assert(s@.take(i as int).push(s@[i as int]) =~= s@.take(i as int + 1));
        }
        i = i + 1;
    }
    proof {
        assert(s@.take(len as int) =~= s@);
    }
    out.push(0);
}

/// Decodes a unit buffer back into text. Returns the decoded string
/// exactly when the buffer is well formed — the decoded string is the one
/// whose encoding is the input — and `None` on any lone or misordered
/// surrogate.
pub fn from_utf16(units: &Vec<u16>) -> (r: Option<String>)
    ensures
        r is Some <==> valid_utf16(units@),
        r matches Some(s) ==> utf16_encode(s@) == units@,
{
    let mut chars: Vec<char> = Vec::new();
    let mut i: usize = 0;
    let len = units.len();
    proof {
        assert(units@.skip(0) =~= units@);
        assert(units@.take(0) =~= Seq::<u16>::empty());
    }
    while i < len
        invariant
            0 <= i <= len,
            len == units@.len(),
            utf16_encode(chars@) == units@.take(i as int),
            valid_utf16(units@) == valid_utf16(units@.skip(i as int)),
        decreases len - i,
    {
        let u = units[i];
        let ghost rest = units@.skip(i as int);
        proof {
            assert(rest[0] == units@[i as int]);
        }
        if u < 0xD800 || u >= 0xE000 {
            let c = char::from_u32(u as u32).unwrap();
            proof {
                lemma_utf16_encode_push(chars@, c);
                assert(utf16_units(c) =~= seq![u]);
                assert(units@.take(i as int) + seq![u] =~= units@.take(i as int + 1));
                assert(rest.skip(1) =~= units@.skip(i as int + 1));
            }
            chars.push(c);
            i = i + 1;
        } else if u < 0xDC00 && i + 1 < len && 0xDC00 <= units[i + 1] && units[i + 1] < 0xE000 {
            let u2 = units[i + 1];
            let v: u32 = 0x10000 + (u as u32 - 0xD800) * 0x400 + (u2 as u32 - 0xDC00);
            let c = char::from_u32(v).unwrap();
            proof {
                lemma_utf16_encode_push(chars@, c);
                assert((v - 0x10000) / 0x400 == u - 0xD800 && (v - 0x10000) % 0x400 == u2
                    - 0xDC00) by (nonlinear_arith)
                    requires
                        v == 0x10000 + (u - 0xD800) * 0x400 + (u2 - 0xDC00),
                        0xD800 <= u < 0xDC00,
                        0xDC00 <= u2 < 0xE000,
                ;
                assert(utf16_units(c) =~= seq![u, u2]);
                assert(rest[1] == units@[i as int + 1]);
                assert(units@.take(i as int) + seq![u, u2] =~= units@.take(i as int + 2));
                assert(rest.skip(2) =~= units@.skip(i as int + 2));
            }
            chars.push(c);
            i = i + 2;
        } else {
            proof {
                assert(!valid_utf16(rest));
            }
            return None;
        }
    }
    proof {
        assert(units@.take(len as int) =~= units@);
        assert(units@.skip(len as int).len() == 0);
    }
    Some(chars_to_string(chars))
}

} // verus!
