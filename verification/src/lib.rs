//! A terminal text-viewer core: a line buffer with cursor and scroll state,
//! viewport geometry, keymap dispatch, and a render projection, with the
//! coordinate invariants stated and proved.

pub mod buffer;
pub mod editor;
pub mod input;
pub mod laws;
pub mod render;

pub use buffer::FileBuffer;
