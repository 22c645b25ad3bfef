//! The owned font handle and the interpretation of per-font native results.
use vstd::prelude::*;
use crate::error::{check_handle, native_failure, FontError};
use crate::utf16::{char_to_utf16, is_single_unit};

verus! {

/// Measurements of one glyph, in pixels.
#[derive(Debug, Clone, Copy, PartialEq, Eq)]
pub struct GlyphMetrics {
    pub minx: i32,
    pub maxx: i32,
    pub miny: i32,
    pub maxy: i32,
    pub advance: i32,
}

/// One opened native font, owned by exactly one value.
///
/// `H` is the native handle. The handle is never handed out by value, and
/// releasing the native font is the handle's own drop, so it happens exactly
/// once: when the `Font` goes out of scope, on every path.
pub struct Font<H> {
    raw: H,
}

impl<H> Font<H> {
    /// The native handle that this font owns.
    pub closed spec fn handle(&self) -> H {
        self.raw
    }

    /// Takes ownership of what a native open call returned, `None` standing
    /// for a null pointer, which becomes a native failure carrying what
    /// `last_error` reads.
    pub fn from_native<E: FnOnce() -> String>(handle: Option<H>, last_error: E) -> (r: Result<
        Font<H>,
        FontError,
    >)
        requires
            last_error.requires(()),
        ensures
            handle matches Some(h) ==> (r matches Ok(f) && f.handle() == h),
            handle is None ==> (r matches Err(e) && native_failure(e, last_error)),
    {
        match check_handle(handle, last_error) {
            Ok(raw) => Ok(Font { raw }),
            Err(e) => Err(e),
        }
    }

    /// Borrows the native handle, for making a call on it.
    pub fn native(&self) -> (r: &H)
        ensures
            *r == self.handle(),
    {
        &self.raw
    }
}

/// The code unit to hand to a glyph-level native call, or `InvalidCodepoint`
/// when the character needs a surrogate pair; no native call is made then.
pub fn glyph_code(glyph: char) -> (r: Result<u16, FontError>)
    ensures
        is_single_unit(glyph) ==> (r matches Ok(u) && u as u32 == glyph as u32),
        !is_single_unit(glyph) ==> r == Err::<u16, FontError>(FontError::InvalidCodepoint),
{
    match char_to_utf16(glyph) {
        Some(u) => Ok(u),
        None => Err(FontError::InvalidCodepoint),
    }
}

/// Reads the native glyph-provided answer: zero means absent, anything else
/// is the index of the glyph.
pub fn provided_glyph(status: i32) -> (r: Option<i32>)
    ensures
        status == 0 ==> r is None,
        status != 0 ==> r == Some(status),
{
    if status == 0 {
        None
    } else {
        Some(status)
    }
}

/// Reads the native fixed-width answer: positive means fixed width.
pub fn is_fixed_width(code: i32) -> (r: bool)
    ensures
        r == (code > 0),
{
    code > 0
}

} // verus!
