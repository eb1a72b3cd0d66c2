//! A small terminal text editor: a character buffer with a single cursor
//! offset, and an editing session that maps key events onto buffer edits.
pub mod buffer;
pub mod lines;
pub mod session;
