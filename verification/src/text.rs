//! Small operations on text that the panels share. Every operation is
//! stated over `Seq<char>`, the characters of the text.

pub mod decimal;
pub mod list;
pub mod title;
pub mod trim;
