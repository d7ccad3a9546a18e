//! The wide-encoding adapter: converts host text into the UTF-16 code-unit
//! buffer the wide native calls read.

use vstd::prelude::*;

verus! {

/// The UTF-16 code units of one character: the scalar value itself inside the
/// basic plane, and a surrogate pair above it.
pub open spec fn utf16_units(c: char) -> Seq<u16> {
    if (c as u32) < 0x10000 {
        seq![(c as u32) as u16]
    } else {
        seq![
            (0xD800 + ((c as u32) - 0x10000) / 0x400) as u16,
            (0xDC00 + ((c as u32) - 0x10000) % 0x400) as u16,
        ]
    }
}

/// The UTF-16 encoding of a character sequence.
pub open spec fn encode_utf16(chars: Seq<char>) -> Seq<u16>
    decreases chars.len(),
{
    if chars.len() == 0 {
        seq![]
    } else {
        utf16_units(chars[0]) + encode_utf16(chars.drop_first())
    }
}

/// Encoding distributes over appending one character at the end.
pub proof fn lemma_encode_utf16_snoc(chars: Seq<char>, c: char)
    ensures
        encode_utf16(chars.push(c)) == encode_utf16(chars) + utf16_units(c),
    decreases chars.len(),
{
    if chars.len() == 0 {
        assert(chars.push(c).drop_first() =~= Seq::<char>::empty());
        assert(chars.push(c)[0] == c);
        assert(encode_utf16(chars.push(c)) == utf16_units(c) + encode_utf16(
            chars.push(c).drop_first(),
        ));
        assert(encode_utf16(chars.push(c)) =~= encode_utf16(chars) + utf16_units(c));
    } else {
        assert(chars.push(c).drop_first() =~= chars.drop_first().push(c));
        lemma_encode_utf16_snoc(chars.drop_first(), c);
        assert(encode_utf16(chars.push(c)) =~= encode_utf16(chars) + utf16_units(c));
    }
}

/// Convert text to its UTF-16 code units, without a terminator.
pub fn to_utf16(s: &str) -> (r: Vec<u16>)
    ensures
        r@ == encode_utf16(s@),
{
    broadcast use vstd::utf8::char_is_scalar;

    let n = s.unicode_len();
    let mut out: Vec<u16> = Vec::new();
    let mut i: usize = 0;
    while i < n
        invariant
            n == s@.len(),
            i <= n,
            out@ == encode_utf16(s@.take(i as int)),
        decreases n - i,
    {
        let c = s.get_char(i);
        proof {
            lemma_encode_utf16_snoc(s@.take(i as int), c);
            assert(s@.take(i + 1 as int) =~= s@.take(i as int).push(c));
        }
        let u = c as u32;
        if u < 0x10000 {
            out.push(u as u16);
        } else {
            let v = u - 0x10000;
            out.push((0xD800 + v / 0x400) as u16);
            out.push((0xDC00 + v % 0x400) as u16);
        }
        i = i + 1;
    }
    proof {
        assert(s@.take(n as int) =~= s@);
    }
    out
}

/// The terminated wide buffer of a piece of text whose byte form is `bytes`:
/// its UTF-16 code units, with one terminator appended unless the text already
/// ended in a terminator byte.
pub open spec fn wide_buffer_of(chars: Seq<char>, bytes: Seq<u8>) -> Seq<u16> {
    if bytes.len() > 0 && bytes.last() == 0 {
        encode_utf16(chars)
    } else {
        encode_utf16(chars).push(0)
    }
}

} // verus!
