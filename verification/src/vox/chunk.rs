//! A chunk: a fixed 16x16x16 grid of voxels with checked accessors.

use vstd::prelude::*;

use crate::vox::cube::CubeData;

verus! {

/// One cell of the world grid: empty air, or a solid cube with material
/// attributes.
#[derive(Debug, PartialEq, Eq, Copy, Clone)]
pub enum VoxelData {
    /// An empty cell; it contributes no geometry.
    Air,
    /// A solid cell carrying its material.
    Plain(CubeData),
}

/// Error returned by accessors given coordinates outside the grid.
#[derive(Debug, PartialEq, Eq, Copy, Clone)]
pub struct BoundsError;

/// Cells per chunk edge.
pub const CHUNK_SIZE: usize = 16;

/// Cells per chunk: `CHUNK_SIZE` cubed.
pub const CHUNK_VOLUME: usize = 4096;

/// Position of the cell `(x, y, z)` in a chunk's flat cell sequence.
/// `x` is the outermost coordinate, `z` the innermost.
pub open spec fn cell_index(x: int, y: int, z: int) -> int {
    x * 256 + y * 16 + z
}

/// Whether `(x, y, z)` addresses a cell of a chunk.
pub open spec fn cell_in_bounds(x: int, y: int, z: int) -> bool {
    0 <= x < 16 && 0 <= y < 16 && 0 <= z < 16
}

/// The material every solid cell starts with: opaque white, fully lit on all
/// six faces.
pub open spec fn initial_cube() -> CubeData {
    (CubeData {
        color: (255u8, 255u8, 255u8, 255u8),
        up_light: 255u8,
        down_light: 255u8,
        left_light: 255u8,
        right_light: 255u8,
        front_light: 255u8,
        back_light: 255u8,
    })
}

/// The fixed pattern a fresh chunk is filled with: alternating solid columns
/// along `x` in the cells with `y < 3` and even `z < 5`, air everywhere else.
pub open spec fn initial_voxel(x: int, y: int, z: int) -> VoxelData {
    if y < 3 && z < 5 && z % 2 == 0 {
        VoxelData::Plain(initial_cube())
    } else {
        VoxelData::Air
    }
}

/// The flat cell sequence of a fresh chunk.
pub open spec fn initial_chunk() -> Seq<VoxelData> {
    Seq::new(4096, |i: int| initial_voxel(i / 256, (i / 16) % 16, i % 16))
}

/// A 16x16x16 block of voxels, the unit of mesh generation. Cells are stored
/// in one flat contiguous array of 4096 voxels, addressed by
/// [`cell_index`]; the view of a chunk is that flat sequence.
pub struct ChunkData {
    data: Vec<VoxelData>,
}

impl View for ChunkData {
    type V = Seq<VoxelData>;

    closed spec fn view(&self) -> Seq<VoxelData> {
        self.data@
    }
}

impl ChunkData {
    #[verifier::type_invariant]
    spec fn wf(self) -> bool {
        self.data@.len() == 4096
    }

    /// Builds a chunk holding the fixed initial pattern.
    pub fn new() -> (r: Self)
        ensures
            r@ == initial_chunk(),
    {
        let mut data: Vec<VoxelData> = Vec::new();
        let mut i: usize = 0;
        while i < CHUNK_VOLUME
            invariant
                i <= 4096,
                data@ == initial_chunk().take(i as int),
            decreases 4096 - i,
        {
            let y = (i / 16) % 16;
            let z = i % 16;
            let voxel = if y < 3 && z < 5 && z % 2 == 0 {
                VoxelData::Plain(
                    CubeData {
                        color: (255, 255, 255, 255),
                        up_light: 255,
                        down_light: 255,
                        left_light: 255,
                        right_light: 255,
                        front_light: 255,
                        back_light: 255,
                    },
                )
            } else {
                VoxelData::Air
            };
            data.push(voxel);
            proof {
                assert(data@ =~= initial_chunk().take(i + 1));
            }
            i += 1;
        }
        proof {
            assert(data@ =~= initial_chunk());
        }
        Self { data }
    }

    /// Reads the voxel of the cell `(x, y, z)`, or reports a [`BoundsError`]
    /// for coordinates outside the grid.
    pub fn get(&self, x: usize, y: usize, z: usize) -> (r: Result<VoxelData, BoundsError>)
        ensures
            cell_in_bounds(x as int, y as int, z as int)
                ==> r == Ok::<VoxelData, BoundsError>(self@[cell_index(x as int, y as int, z as int)]),
            !cell_in_bounds(x as int, y as int, z as int)
                ==> r == Err::<VoxelData, BoundsError>(BoundsError),
    {
        if x < CHUNK_SIZE && y < CHUNK_SIZE && z < CHUNK_SIZE {
            Ok(self.at(x, y, z))
        } else {
            Err(BoundsError)
        }
    }

    /// Overwrites the cell `(x, y, z)` with `cube`, or reports a
    /// [`BoundsError`] for coordinates outside the grid, leaving the chunk
    /// unchanged. No mesh is rebuilt here: callers trigger that themselves.
    pub fn set(&mut self, x: usize, y: usize, z: usize, cube: VoxelData) -> (r: Result<
        (),
        BoundsError,
    >)
        ensures
            cell_in_bounds(x as int, y as int, z as int)
                ==> final(self)@ == old(self)@.update(
                    cell_index(x as int, y as int, z as int),
                    cube,
                ) && r == Ok::<(), BoundsError>(()),
            !cell_in_bounds(x as int, y as int, z as int)
                ==> final(self)@ == old(self)@ && r == Err::<(), BoundsError>(BoundsError),
    {
        proof {
            use_type_invariant(&*self);
        }
        if x < CHUNK_SIZE && y < CHUNK_SIZE && z < CHUNK_SIZE {
            let i = x * 256 + y * 16 + z;
            self.data[i] = cube;
            Ok(())
        } else {
            Err(BoundsError)
        }
    }

    /// Reads the cell `(x, y, z)` of an in-range coordinate triple.
    pub(crate) fn at(&self, x: usize, y: usize, z: usize) -> (r: VoxelData)
        requires
            cell_in_bounds(x as int, y as int, z as int),
        ensures
            r == self@[cell_index(x as int, y as int, z as int)],
    {
        proof {
            use_type_invariant(&*self);
        }
        self.data[x * 256 + y * 16 + z]
    }
}

/// Writing a voxel and reading the same cell back yields that voxel: over the
/// flat cell sequence, an update at a cell's position is what a later read of
/// that position sees, for every in-range coordinate triple and every voxel.
pub proof fn lemma_get_after_set(s: Seq<VoxelData>, x: int, y: int, z: int, v: VoxelData)
    requires
        s.len() == 4096,
        cell_in_bounds(x, y, z),
    ensures
        s.update(cell_index(x, y, z), v)[cell_index(x, y, z)] == v,
{
}

} // verus!
