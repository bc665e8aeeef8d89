//! A verified Conway's Game of Life engine on a bounded (non-wrapping) grid.
//!
//! The grid is a fixed-dimension boolean matrix indexed `[x][y]`. Neighbour
//! counting uses the Moore (8-connected) neighbourhood; positions outside the
//! grid are simply skipped, so border cells have fewer possible neighbours.
//! Each generation is written into a separate output buffer, leaving the
//! input untouched.

pub mod engine;
pub mod grid;
pub mod patterns;
pub mod render;
pub mod rules;
pub mod world;

pub use grid::Grid;
