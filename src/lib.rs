//! Counting whitespace-delimited tokens in text.
//!
//! A token is a maximal run of characters that are not white space, where
//! white space is the Unicode `White_Space` property. The count equals the
//! number of pieces left after trimming the text, splitting it on runs of
//! white space and dropping empty pieces.
pub mod whitespace;
pub mod words;
pub mod count;
pub mod laws;

pub use count::count_tokens;
pub use whitespace::is_whitespace;
