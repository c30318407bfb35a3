//! Mesh generation: face geometry, the vertex record, and the chunk mesh
//! builder whose output a GPU rendering boundary uploads and draws.

pub mod chunk;
pub mod cube;
pub mod terrain;
