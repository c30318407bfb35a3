//! The vertex record the mesh builder emits.

use vstd::prelude::*;

verus! {

/// One vertex of the terrain mesh: a world-space position on the integer
/// grid, and a 4-channel color. The rendering boundary converts the position
/// to its floating-point vertex format on upload; every coordinate a chunk
/// mesh emits is a whole number, so nothing is lost in that conversion.
#[derive(Debug, PartialEq, Eq, Copy, Clone)]
pub struct TerrainVertex {
    /// World-space position, as `(x, y, z)`.
    pub position: (usize, usize, usize),
    /// Color, as (red, green, blue, alpha) channels.
    pub color: (u8, u8, u8, u8),
}

impl TerrainVertex {
    /// Builds a vertex from its position and color.
    pub fn new(position: (usize, usize, usize), color: (u8, u8, u8, u8)) -> (r: Self)
        ensures
            r == (TerrainVertex { position, color }),
    {
        Self { position, color }
    }
}

} // verus!
