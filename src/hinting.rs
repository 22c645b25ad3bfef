//! Hinting modes and their native integer codes.
use vstd::prelude::*;

verus! {

/// How the native rasteriser aligns glyph outlines to the pixel grid.
#[derive(Debug, Clone, Copy, PartialEq, Eq)]
pub enum FontHinting {
    NormalHinting,
    LightHinting,
    MonoHinting,
    NoneHinting,
}

impl FontHinting {
    /// The native code of each mode: 0 normal, 1 light, 2 mono, 3 none.
    pub open spec fn code(self) -> i32 {
        match self {
            FontHinting::NormalHinting => 0,
            FontHinting::LightHinting => 1,
            FontHinting::MonoHinting => 2,
            FontHinting::NoneHinting => 3,
        }
    }

    pub fn to_native(self) -> (r: i32)
        ensures
            r == self.code(),
    {
        match self {
            FontHinting::NormalHinting => 0,
            FontHinting::LightHinting => 1,
            FontHinting::MonoHinting => 2,
            FontHinting::NoneHinting => 3,
        }
    }

    /// The mode whose native code is `code`, or `None` for a code outside
    /// the four known ones.
    pub fn from_native(code: i32) -> (r: Option<FontHinting>)
        ensures
            r == decode_hinting(code),
            r is Some <==> 0 <= code <= 3,
            r matches Some(h) ==> h.code() == code,
    {
        match code {
            0 => Some(FontHinting::NormalHinting),
            1 => Some(FontHinting::LightHinting),
            2 => Some(FontHinting::MonoHinting),
            3 => Some(FontHinting::NoneHinting),
            _ => None,
        }
    }
}

/// The mode that a native code stands for, if any.
pub open spec fn decode_hinting(code: i32) -> Option<FontHinting> {
    if code == 0 {
        Some(FontHinting::NormalHinting)
    } else if code == 1 {
        Some(FontHinting::LightHinting)
    } else if code == 2 {
        Some(FontHinting::MonoHinting)
    } else if code == 3 {
        Some(FontHinting::NoneHinting)
    } else {
        None
    }
}

/// Writing a mode and reading its code back decodes to the same mode.
pub proof fn lemma_hinting_round_trip(h: FontHinting)
    ensures
        decode_hinting(h.code()) == Some(h),
{
}

} // verus!
