//! A minimal text editor's core: an editable text buffer with a tracked
//! cursor, and the state machine that reacts to edits, open requests and
//! finished file loads.

pub mod buffer;
pub mod editor;
