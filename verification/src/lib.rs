//! Core of a zoomable, pannable fractal viewer.
//!
//! The library holds the logic of the renderer: checking and classifying
//! shader-compiler outcomes, resolving attribute and uniform locations,
//! the full-screen quad geometry, the per-frame draw-call plan, and the
//! view controller that interpolates zoom and converts pan/zoom/aspect
//! state into a view-transform matrix.
//!
//! All continuous quantities (zoom, pan, aspect, matrix entries) are held
//! in fixed-point thousandths, so every operation on them is exact and
//! free of overflow. The windowing system and the GPU driver live outside
//! the library: callers feed in plain values (input events, elapsed time,
//! compiler status and logs, raw locations) and carry the library's
//! decisions back out to the driver.

pub mod command;
pub mod fixed;
pub mod render;
pub mod shader;
pub mod view;

pub use fixed::SCALE;
