//! Rendering a 32-bit fourcc as its four-character text.
use vstd::prelude::*;

use crate::text::push_char;

verus! {

/// Byte `i` (0 to 3) of `v` in little-endian order.
pub open spec fn fourcc_byte(v: u32, i: u32) -> u8 {
    if i == 0 {
        (v % 256) as u8
    } else if i == 1 {
        (v / 256 % 256) as u8
    } else if i == 2 {
        (v / 65536 % 256) as u8
    } else {
        (v / 16777216) as u8
    }
}

/// An ASCII digit or letter.
pub open spec fn is_alnum(b: u8) -> bool {
    (0x30 <= b && b <= 0x39) || (0x41 <= b && b <= 0x5a) || (0x61 <= b && b <= 0x7a)
}

/// Whether `v` has a textual form: its first three bytes are ASCII digits or
/// letters, and its last is one too or is the null byte.
pub open spec fn renderable(v: u32) -> bool {
    &&& is_alnum(fourcc_byte(v, 0))
    &&& is_alnum(fourcc_byte(v, 1))
    &&& is_alnum(fourcc_byte(v, 2))
    &&& (is_alnum(fourcc_byte(v, 3)) || fourcc_byte(v, 3) == 0)
}

/// The character shown for the last byte: a null byte reads as a space.
pub open spec fn last_char(b: u8) -> char {
    if b == 0 {
        ' '
    } else {
        b as char
    }
}

/// The four characters of a renderable `v`.
pub open spec fn fourcc_text(v: u32) -> Seq<char> {
    seq![
        fourcc_byte(v, 0) as char,
        fourcc_byte(v, 1) as char,
        fourcc_byte(v, 2) as char,
        last_char(fourcc_byte(v, 3)),
    ]
}

/// The textual form of `v`, where it has one.
pub open spec fn spec_string_form(v: u32) -> Option<Seq<char>> {
    if renderable(v) {
        Some(fourcc_text(v))
    } else {
        None
    }
}

fn byte_of(v: u32, i: u32) -> (r: u8)
    requires
        i < 4,
    ensures
        r == fourcc_byte(v, i),
{
    if i == 0 {
        (v % 256) as u8
    } else if i == 1 {
        (v / 256 % 256) as u8
    } else if i == 2 {
        (v / 65536 % 256) as u8
    } else {
        (v / 16777216) as u8
    }
}

fn is_ascii_alnum(b: u8) -> (r: bool)
    ensures
        r == is_alnum(b),
{
    (0x30 <= b && b <= 0x39) || (0x41 <= b && b <= 0x5a) || (0x61 <= b && b <= 0x7a)
}

/// The textual form of a fourcc: `None` unless its first three bytes are
/// ASCII digits or letters and its last is one too or is null, which is
/// shown as a space.
pub fn fourcc_string_form(fourcc: u32) -> (r: Option<String>)
    ensures
        r matches Some(s) <==> renderable(fourcc),
        r matches Some(s) ==> s@ == fourcc_text(fourcc),
{
    let mut out = String::new();
    let mut i: u32 = 0;
    while i < 3
        invariant
            i <= 3,
            out@.len() == i,
            forall|j: int| 0 <= j < i ==> is_alnum(#[trigger] fourcc_byte(fourcc, j as u32)),
            forall|j: int| 0 <= j < i ==> out@[j] == fourcc_byte(fourcc, j as u32) as char,
        decreases 3 - i,
    {
        let b = byte_of(fourcc, i);
        if !is_ascii_alnum(b) {
            return None;
        }
        push_char(&mut out, b as char);
        i = i + 1;
    }
    let last = byte_of(fourcc, 3);
    if last == 0 {
        push_char(&mut out, ' ');
    } else if is_ascii_alnum(last) {
        push_char(&mut out, last as char);
    } else {
        return None;
    }
    assert(out@ =~= fourcc_text(fourcc));
    Some(out)
}

} // verus!
