//! Worked examples in the order of a book's chapters, each with a contract
//! that says what it computes: small functions on numbers, texts and
//! structures, a guessing game, and a loader that reads a named resource or
//! creates it with a default content.

pub mod chance;
pub mod chapter_10;
pub mod chapter_11;
pub mod chapter_2;
pub mod chapter_3;
pub mod chapter_4;
pub mod chapter_5;
pub mod chapter_6;
pub mod chapter_7;
pub mod chapter_8;
pub mod chapter_9;
pub mod text;
