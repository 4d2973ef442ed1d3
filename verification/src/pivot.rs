//! Detectors of local price extremes.

pub mod pivot_points;
