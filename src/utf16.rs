//! Validation of a character as a single UTF-16 code unit.
use vstd::prelude::*;

verus! {

/// The character fits in one UTF-16 code unit, i.e. it lies in the Basic
/// Multilingual Plane (surrogate code points are never `char`s).
pub open spec fn is_single_unit(c: char) -> bool {
    (c as u32) < 0x10000
}

/// Returns the single UTF-16 code unit that encodes `glyph`, or `None` when
/// its encoding needs a surrogate pair.
pub fn char_to_utf16(glyph: char) -> (r: Option<u16>)
    ensures
        is_single_unit(glyph) <==> r.is_some(),
        r matches Some(u) ==> u as u32 == glyph as u32,
{
    let code = glyph as u32;
    if code < 0x10000 {
        Some(code as u16)
    } else {
        None
    }
}

} // verus!
