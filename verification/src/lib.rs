//! A small voxel world and its mesh generation.
//!
//! The `vox` modules hold the world data model: voxels, fixed-size chunks,
//! and the fixed grid of chunks making up the world. The `renderer` modules
//! turn a chunk into GPU-ready geometry: a vertex stream and a 16-bit index
//! stream, one quad per emitted cube face. The `logic` modules hold the
//! input-driven state machines that decide what the frame loop does.

pub mod logic;
pub mod renderer;
pub mod vox;
