//! A minimal screen text editor core: a line-oriented document model, a
//! dual buffer/screen cursor with a scrolling viewport, and a modal
//! open-file prompt layered on top of the same cursor machinery.
//!
//! The windowing shell (event decoding, font rendering, file I/O) lives
//! outside this crate; it drives the editor one discrete command at a time
//! and reads back the visible line range and screen cursor for drawing.

pub mod document;
pub mod editor;
pub mod laws;
pub mod model;
