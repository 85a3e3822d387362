//! An interactive terminal quiz on musical scale types.
//!
//! The crate has two layers: a pure music-theory engine (notes, pitch
//! classes, diatonic scale construction) and a page state machine that
//! turns key presses into screen transitions. Terminal I/O lives outside
//! the library; the library only produces page text and decides, for each
//! key press, what happens next.

pub mod music;
pub mod pages;
