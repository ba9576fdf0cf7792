//! Texts as byte sequences: pieces between separators, numbers in a radix,
//! and the passage between ASCII bytes and the characters of a string.

pub mod ascii;
pub mod number;
pub mod split;
