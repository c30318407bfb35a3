//! The world: a fixed 2x2 grid of chunks, and the translation between
//! global voxel coordinates and (chunk, local) pairs.

use vstd::prelude::*;

use crate::vox::chunk::{
    cell_in_bounds, cell_index, initial_chunk, BoundsError, ChunkData, VoxelData, CHUNK_SIZE,
};

verus! {

/// Chunks per world edge, along `x` and along `z`.
pub const WORLD_SIZE: usize = 2;

/// Whether `(x, y, z)` addresses a voxel inside the world's bounding volume:
/// `WORLD_SIZE * CHUNK_SIZE` cells along `x` and `z`, one chunk along `y`.
pub open spec fn global_in_bounds(x: int, y: int, z: int) -> bool {
    0 <= x < 32 && 0 <= y < 16 && 0 <= z < 32
}

/// Position of the chunk `(cx, cz)` in the world's flat chunk sequence.
pub open spec fn chunk_slot(cx: int, cz: int) -> int {
    cx * 2 + cz
}

/// The fixed grid of chunks composing the playable volume. Every slot is
/// always populated; the chunk at `(cx, cz)` covers global coordinates
/// `[cx*16, cx*16+16)` along `x` and `[cz*16, cz*16+16)` along `z`.
pub struct World {
    chunks: Vec<ChunkData>,
}

impl View for World {
    type V = Seq<ChunkData>;

    closed spec fn view(&self) -> Seq<ChunkData> {
        self.chunks@
    }
}

impl World {
    /// Well-formedness: all four chunk slots are populated. Established by
    /// [`World::new`] and preserved by every method.
    pub open spec fn wf(self) -> bool {
        self@.len() == 4
    }

    /// Builds the world, every chunk slot filled with a fresh chunk.
    pub fn new() -> (r: Self)
        ensures
            r.wf(),
            forall|i: int| 0 <= i < 4 ==> r@[i]@ == initial_chunk(),
    {
        let mut chunks: Vec<ChunkData> = Vec::new();
        chunks.push(ChunkData::new());
        chunks.push(ChunkData::new());
        chunks.push(ChunkData::new());
        chunks.push(ChunkData::new());
        Self { chunks }
    }

    /// Borrows the chunk at chunk coordinate `(cx, cz)`, or reports a
    /// [`BoundsError`] for a coordinate outside the 2x2 grid.
    pub fn chunk(&self, cx: usize, cz: usize) -> (r: Result<&ChunkData, BoundsError>)
        requires
            self.wf(),
        ensures
            cx < 2 && cz < 2 ==> r == Ok::<&ChunkData, BoundsError>(
                &self@[chunk_slot(cx as int, cz as int)],
            ),
            !(cx < 2 && cz < 2) ==> r == Err::<&ChunkData, BoundsError>(BoundsError),
    {
        if cx < WORLD_SIZE && cz < WORLD_SIZE {
            Ok(&self.chunks[cx * 2 + cz])
        } else {
            Err(BoundsError)
        }
    }

    /// Reads the voxel at global coordinate `(x, y, z)`, or reports a
    /// [`BoundsError`] outside the world's bounding volume.
    pub fn get(&self, x: usize, y: usize, z: usize) -> (r: Result<VoxelData, BoundsError>)
        requires
            self.wf(),
        ensures
            global_in_bounds(x as int, y as int, z as int) ==> r == Ok::<VoxelData, BoundsError>(
                self@[chunk_slot(x as int / 16, z as int / 16)]@[cell_index(
                    x as int % 16,
                    y as int,
                    z as int % 16,
                )],
            ),
            !global_in_bounds(x as int, y as int, z as int) ==> r == Err::<
                VoxelData,
                BoundsError,
            >(BoundsError),
    {
        match world_to_chunk(x, y, z) {
            Ok(((cx, cz), (lx, ly, lz))) => Ok(self.chunks[cx * 2 + cz].at(lx, ly, lz)),
            Err(e) => Err(e),
        }
    }

    /// Overwrites the voxel at global coordinate `(x, y, z)`, or reports a
    /// [`BoundsError`] outside the world's bounding volume, leaving the world
    /// unchanged. No mesh is rebuilt here: callers trigger that themselves.
    pub fn set(&mut self, x: usize, y: usize, z: usize, cube: VoxelData) -> (r: Result<
        (),
        BoundsError,
    >)
        requires
            old(self).wf(),
        ensures
            final(self).wf(),
            global_in_bounds(x as int, y as int, z as int) ==> {
                let slot = chunk_slot(x as int / 16, z as int / 16);
                &&& final(self)@[slot]@ == old(self)@[slot]@.update(
                    cell_index(x as int % 16, y as int, z as int % 16),
                    cube,
                )
                &&& forall|i: int| 0 <= i < 4 && i != slot ==> final(self)@[i] == old(self)@[i]
                &&& r == Ok::<(), BoundsError>(())
            },
            !global_in_bounds(x as int, y as int, z as int) ==> final(self)@ == old(self)@ && r
                == Err::<(), BoundsError>(BoundsError),
    {
        match world_to_chunk(x, y, z) {
            Ok(((cx, cz), (lx, ly, lz))) => {
                let slot = cx * 2 + cz;
                let mut chunk = self.chunks.remove(slot);
                let result = chunk.set(lx, ly, lz, cube);
                let ghost updated = chunk;
                self.chunks.insert(slot, chunk);
                proof {
                    assert(self.chunks@ =~= old(self)@.update(slot as int, updated));
                }
                result
            },
            Err(e) => Err(e),
        }
    }
}

/// Translates a global voxel coordinate into the chunk coordinate `(cx, cz)`
/// and the local cell coordinate inside that chunk, by division and remainder
/// by the chunk edge length; reports a [`BoundsError`] outside the world's
/// bounding volume.
pub fn world_to_chunk(x: usize, y: usize, z: usize) -> (r: Result<
    ((usize, usize), (usize, usize, usize)),
    BoundsError,
>)
    ensures
        global_in_bounds(x as int, y as int, z as int) ==> r == Ok::<
            ((usize, usize), (usize, usize, usize)),
            BoundsError,
        >(((x / 16, z / 16), (x % 16, y, z % 16))),
        !global_in_bounds(x as int, y as int, z as int) ==> r == Err::<
            ((usize, usize), (usize, usize, usize)),
            BoundsError,
        >(BoundsError),
{
    if x < WORLD_SIZE * CHUNK_SIZE && y < CHUNK_SIZE && z < WORLD_SIZE * CHUNK_SIZE {
        Ok(((x / 16, z / 16), (x % 16, y, z % 16)))
    } else {
        Err(BoundsError)
    }
}

/// Coordinate round trip: inside the world's bounding volume, composing the
/// chunk coordinate and the local coordinate that [`world_to_chunk`] yields
/// (`chunk * 16 + local`, per axis) gives back the global coordinate it
/// started from, and both parts are in range.
pub proof fn lemma_world_to_chunk_roundtrip(x: int, y: int, z: int)
    requires
        global_in_bounds(x, y, z),
    ensures
        (x / 16) * 16 + x % 16 == x,
        (z / 16) * 16 + z % 16 == z,
        0 <= x / 16 < 2,
        0 <= z / 16 < 2,
        cell_in_bounds(x % 16, y, z % 16),
{
}

} // verus!
