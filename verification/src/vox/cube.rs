//! Material attributes of a single solid voxel.

use vstd::prelude::*;

verus! {

/// Material of a solid voxel: a 4-channel color and one 8-bit light level per
/// face direction. Every channel and every light level lies in `[0, 255]` by
/// construction of the `u8` type.
#[derive(Debug, PartialEq, Eq, Copy, Clone)]
pub struct CubeData {
    /// Base color, as (red, green, blue, alpha) channels.
    pub color: (u8, u8, u8, u8),

    /// Light level of the face looking towards positive `z`.
    pub up_light: u8,
    /// Light level of the face looking towards negative `z`.
    pub down_light: u8,
    /// Light level of the face looking towards negative `x`.
    pub left_light: u8,
    /// Light level of the face looking towards positive `x`.
    pub right_light: u8,
    /// Light level of the face looking towards negative `y`.
    pub front_light: u8,
    /// Light level of the face looking towards positive `y`.
    pub back_light: u8,
}

} // verus!
