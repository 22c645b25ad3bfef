//! Typed bindings over the SDL_ttf font-rendering library.
//!
//! The native calls themselves are made by the embedding layer; this crate
//! holds everything that decides how their integer encodings and failure
//! signals become typed values: style bitmasks, hinting codes, UTF-16 glyph
//! validation, error propagation and single ownership of native handles.
pub mod error;
pub mod font;
pub mod hinting;
pub mod lifecycle;
pub mod style;
pub mod utf16;
