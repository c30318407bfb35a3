//! The voxel world data model: cube materials, chunks, and the world grid.

pub mod chunk;
pub mod cube;
pub mod world;
