//! A decoder for tagged-image raster files that carry georeferencing
//! metadata, together with a few small puzzle engines.
//!
//! The raster decoder works on an in-memory byte buffer. Floating-point
//! values never appear as such: a single- or double-precision number is
//! carried as its IEEE 754 bit pattern in a `u32` or `u64`.

pub mod error;
pub mod bytes;
pub mod binary64;
pub mod directory;
pub mod layout;
pub mod georef;
pub mod reader;
pub mod dataset;
pub mod months;
pub mod sudoku;
pub mod tetris;
