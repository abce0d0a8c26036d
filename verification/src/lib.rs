//! Evaluates the perceptual contrast between two sRGB colors against the
//! WCAG accessibility thresholds, parses operator-supplied color text, holds
//! the live foreground/background pair for a renderer, and tracks frame
//! statistics.
//!
//! All arithmetic is exact fixed-point integer arithmetic: channel
//! linearization and contrast ratios carry six decimal places (a value of
//! `1_000_000` stands for `1.0`), relative luminance carries ten
//! (`10_000_000_000` stands for `1.0`).

pub mod contrast;
pub mod fixed;
pub mod parser;
pub mod state;
pub mod stats;
