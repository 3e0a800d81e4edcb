//! Core of a generative-art sketch: a population of colored particles that
//! drift across a 2D canvas, and a reactive control panel that folds slider,
//! button and touch-pad input into clamped shape parameters.
//!
//! All geometry is carried in fixed-point integers: canvas coordinates and
//! radii in milli-pixels, rotations in micro-radians, color channels in
//! thousandths. The rendering and windowing collaborator converts at the
//! boundary.

pub mod canvas;
pub mod color;
pub mod field;
pub mod geom;
pub mod panel;
pub mod particle;
pub mod rng;
pub mod system;
