//! An escape-time rasterizer for the Mandelbrot set.
//!
//! The plane is modelled in fixed-point coordinates: an `i64` counts
//! units of `1 / SCALE` of the complex plane, so the whole kernel is
//! integer arithmetic. The library evaluates the escape-time iteration
//! per point, maps iteration counts to palette colours, applies the
//! discrete navigation commands to a viewport, and renders a complete
//! pixel buffer for a viewport and an output resolution. Window
//! creation and frame presentation live outside the library.

pub mod escape;
pub mod fixed;
pub mod palette;
pub mod render;
pub mod viewport;
