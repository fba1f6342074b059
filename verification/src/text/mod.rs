//! The text of string literals: escape sequences turned into the characters
//! they stand for, and block strings freed of their common indentation.

pub mod blocks;
pub mod chars;
pub mod escapes;
