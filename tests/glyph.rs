use sdl_ttf::error::FontError;
use sdl_ttf::font::{glyph_code, is_fixed_width, provided_glyph};
use sdl_ttf::utf16::char_to_utf16;

#[test]
fn ascii_is_one_unit() {
    assert_eq!(char_to_utf16('A'), Some(0x0041));
    assert_eq!(char_to_utf16('\0'), Some(0));
}

#[test]
fn bmp_edges_are_one_unit() {
    assert_eq!(char_to_utf16('\u{D7FF}'), Some(0xD7FF));
    assert_eq!(char_to_utf16('\u{E000}'), Some(0xE000));
    assert_eq!(char_to_utf16('\u{FFFF}'), Some(0xFFFF));
    assert_eq!(char_to_utf16('é'), Some(0x00E9));
}

#[test]
fn surrogate_pair_characters_are_rejected() {
    assert_eq!(char_to_utf16('\u{1F600}'), None);
    assert_eq!(char_to_utf16('\u{10000}'), None);
    assert_eq!(char_to_utf16('\u{10FFFF}'), None);
}

#[test]
fn glyph_code_outside_bmp_is_invalid_codepoint() {
    assert_eq!(glyph_code('\u{1F600}'), Err(FontError::InvalidCodepoint));
    assert_eq!(glyph_code('g'), Ok(0x67));
}

#[test]
fn glyph_provided_reads_zero_as_absent() {
    assert_eq!(provided_glyph(0), None);
    assert_eq!(provided_glyph(36), Some(36));
    assert_eq!(provided_glyph(-2), Some(-2));
}

#[test]
fn fixed_width_is_positive_answer() {
    assert!(is_fixed_width(1));
    assert!(!is_fixed_width(0));
    assert!(!is_fixed_width(-1));
}
