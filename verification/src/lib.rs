//! Nine-patch decomposition and layout synthesis.
//!
//! A nine-patch source image is divided into an M x N grid of patches:
//! border patches keep their pixel size while interior patches stretch,
//! so a small texture can be rendered as a resizable bordered panel.
//! This crate holds the grid model, the slicer that crops the source
//! image into per-patch pixel buffers (with a single-slot cache keyed by
//! source-image identity), and the synthesizer that derives a flex-box
//! layout tree from the grid. The host engine that owns the real asset
//! table and scene graph feeds plain values in and carries the results
//! back out.

pub mod laws;
pub mod layout;
pub mod model;
pub mod slicer;
