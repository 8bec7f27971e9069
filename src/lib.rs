//! Renders raster images as terminal output, picking the encoding (character cells,
//! sixels, or a terminal's own image protocol) that the terminal supports.
//!
//! Detection reads what the engine's terminal database reports; geometry works from a
//! given window size; a session borrows its configuration and accepts one frame at a time.

pub mod canvas;
pub mod config;
pub mod error;
pub mod geometry;
pub mod modes;
pub mod term_info;
