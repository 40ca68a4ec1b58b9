//! Packed four-character pixel-format tags: decoding the four bytes of a raw
//! code into text, and the reverse direction for printable ASCII tags.

use vstd::prelude::*;
use vstd::string::*;

verus! {

/// The character shown for one byte of a packed tag: ASCII bytes stand for
/// themselves, every other byte is shown as the replacement character.
pub open spec fn byte_char(b: u32) -> char {
    if b < 0x80 {
        (b as u8) as char
    } else {
        '\u{FFFD}'
    }
}

/// The four characters of a packed tag, least significant byte first.
pub open spec fn spec_fourcc_string(f: u32) -> Seq<char> {
    seq![
        byte_char(f & 0xff),
        byte_char((f >> 8) & 0xff),
        byte_char((f >> 16) & 0xff),
        byte_char((f >> 24) & 0xff),
    ]
}

/// Whether a character is printable ASCII.
pub open spec fn printable(c: char) -> bool {
    0x20 <= (c as u32) && (c as u32) < 0x7f
}

/// The packed tag for a four-character string of printable ASCII, least
/// significant byte first; `None` for any other string.
pub open spec fn spec_string_fourcc(s: Seq<char>) -> Option<u32> {
    if s.len() == 4 && printable(s[0]) && printable(s[1]) && printable(s[2]) && printable(s[3]) {
        Some(
            (s[0] as u32) | ((s[1] as u32) << 8) | ((s[2] as u32) << 16) | ((s[3] as u32) << 24),
        )
    } else {
        None
    }
}

/// Relies on String::push: appends the one character to the end of the
/// string.
#[verifier::external_body]
fn push_char(s: &mut String, c: char)
    ensures
        final(s)@ == old(s)@.push(c),
{
    s.push(c)
}

/// The display character for one byte of a packed tag.
fn byte_to_char(b: u32) -> (c: char)
    requires
        b < 0x100,
    ensures
        c == byte_char(b),
{
    if b < 0x80 {
        b as u8 as char
    } else {
        '\u{FFFD}'
    }
}

/// Decodes a packed four-character tag into its four characters, least
/// significant byte first; bytes outside ASCII appear as the replacement
/// character.
pub fn fourcc_to_string(fourcc: u32) -> (r: String)
    ensures
        r@ == spec_fourcc_string(fourcc),
{
    let b0: u32 = fourcc & 0xff;
    let b1: u32 = (fourcc >> 8) & 0xff;
    let b2: u32 = (fourcc >> 16) & 0xff;
    let b3: u32 = (fourcc >> 24) & 0xff;
    proof {
        assert(b0 < 0x100 && b1 < 0x100 && b2 < 0x100 && b3 < 0x100) by (bit_vector)
            requires
                b0 == fourcc & 0xff,
                b1 == (fourcc >> 8) & 0xff,
                b2 == (fourcc >> 16) & 0xff,
                b3 == (fourcc >> 24) & 0xff,
        ;
    }
    let mut r = String::new();
    push_char(&mut r, byte_to_char(b0));
    push_char(&mut r, byte_to_char(b1));
    push_char(&mut r, byte_to_char(b2));
    push_char(&mut r, byte_to_char(b3));
    proof {
        assert(r@ =~= spec_fourcc_string(fourcc));
    }
    r
}

/// Re-encodes a four-character printable-ASCII string as a packed tag, least
/// significant byte first; returns `None` for a string of any other length or
/// with any character outside printable ASCII.
pub fn string_to_fourcc(s: &str) -> (r: Option<u32>)
    ensures
        r == spec_string_fourcc(s@),
{
    if s.unicode_len() != 4 {
        return None;
    }
    let c0 = s.get_char(0);
    let c1 = s.get_char(1);
    let c2 = s.get_char(2);
    let c3 = s.get_char(3);
    let u0 = c0 as u32;
    let u1 = c1 as u32;
    let u2 = c2 as u32;
    let u3 = c3 as u32;
    if 0x20 <= u0 && u0 < 0x7f && 0x20 <= u1 && u1 < 0x7f && 0x20 <= u2 && u2 < 0x7f && 0x20 <= u3
        && u3 < 0x7f {
        Some(u0 | (u1 << 8) | (u2 << 16) | (u3 << 24))
    } else {
        None
    }
}

/// Tag decoding is reversible on printable ASCII: a packed code whose four
/// bytes are all printable ASCII is recovered exactly from its decoded
/// four-character string.
pub proof fn lemma_fourcc_round_trip(f: u32)
    requires
        0x20 <= f & 0xff < 0x7f,
        0x20 <= (f >> 8) & 0xff < 0x7f,
        0x20 <= (f >> 16) & 0xff < 0x7f,
        0x20 <= (f >> 24) & 0xff < 0x7f,
    ensures
        spec_string_fourcc(spec_fourcc_string(f)) == Some(f),
{
    let s = spec_fourcc_string(f);
    assert(s[0] as u32 == f & 0xff && s[1] as u32 == (f >> 8) & 0xff && s[2] as u32 == (f >> 16)
        & 0xff && s[3] as u32 == (f >> 24) & 0xff);
    assert((f & 0xff) | (((f >> 8) & 0xff) << 8) | (((f >> 16) & 0xff) << 16) | (((f >> 24) & 0xff)
        << 24) == f) by (bit_vector);
}

} // verus!
