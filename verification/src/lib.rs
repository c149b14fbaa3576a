//! A library for rendering decoded video frames as colored glyph grids in a
//! terminal: nearest-palette-color quantization, brightness-to-glyph mapping,
//! aspect-correct grid sizing, frame composition, and frame-rate pacing.

pub mod color256;
pub mod frame;
pub mod geometry;
pub mod glyph;
pub mod pace;
pub mod palette;
pub mod player;
