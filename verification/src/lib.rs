//! Rendering core for an interactive view of the Mandelbrot set.
//!
//! The crate owns everything about a frame that is decided on integers: the
//! grid of smoothed iteration counts, the colour table and the blend between
//! neighbouring entries, the RGBA frame buffer, the flags that say which of
//! them are stale, the loop that follows an orbit to its verdict, and the
//! decoding of input into commands. The host supplies the arithmetic on
//! points of the plane and the colour table, and receives the finished bytes.

pub mod color;
pub mod dirty;
pub mod error;
pub mod generator;
pub mod input;
pub mod orbit;
pub mod palette;
pub mod renderer;
pub mod sample;
