//! Rendering of vector shapes onto a monochrome dot grid, serialized as rows
//! of Unicode braille characters (each character encodes a 2x4 block of dots).

pub mod canvas;
pub mod display;
