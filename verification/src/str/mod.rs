//! Text: padding to a display width, and UTF-16.

pub mod ascii;
pub mod pad;
pub mod string;
pub mod utf16;
