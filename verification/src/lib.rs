//! Animation engine for a radially symmetric figure of repeated petals.

pub mod color;
pub mod eeg_view;
pub mod fixed;
pub mod frames;
pub mod mandala;
pub mod mesh;
pub mod muse_model;
pub mod svg_path;
pub mod transform;
pub mod transition;
