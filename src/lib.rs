//! Small text utilities: character counting, in-place appending, a greeting
//! capability over a contact variant, guarded division and name filtering.

pub mod contact;
pub mod divide;
pub mod laws;
pub mod names;
pub mod text;

pub use contact::{Contact, Greet};
pub use divide::divide_length;
pub use names::process_names;
pub use text::{append_and_count, count_char, string_length};
