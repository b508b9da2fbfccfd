//! Physical-unit layout core: device calibration, millimetre/pixel transforms,
//! font-metric caching and the alignment-worker request bridge.
//!
//! Every quantity is an exact integer in a fixed unit:
//! lengths on paper in micrometres, screen positions in nanopixels,
//! scale factors in micropixels per millimetre and scores in parts per million.
pub mod coordinates;
pub mod calibration;
pub mod font_metrics;
pub mod cv_alignment;
pub mod rendering_engine;
