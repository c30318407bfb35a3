//! The chunk mesh builder: one linear pass over a chunk's cells, emitting
//! all six faces of every solid voxel into one vertex array and one 16-bit
//! index array.

use vstd::prelude::*;

use vstd::arithmetic::div_mod::lemma_fundamental_div_mod_converse;

use crate::renderer::cube::{
    face_back, face_back_verts, face_down, face_down_verts, face_front, face_front_verts,
    face_indices, face_left, face_left_verts, face_right, face_right_verts, face_up,
    face_up_verts, quad_indices,
};
use crate::renderer::terrain::TerrainVertex;
use crate::vox::chunk::{cell_index, ChunkData, VoxelData};
use crate::vox::cube::CubeData;

verus! {

/// Error returned by the mesh builder when the emitted vertex count would
/// exceed what a 16-bit index can address. It is surfaced, never silently
/// truncated or wrapped.
#[derive(Debug, PartialEq, Eq, Copy, Clone)]
pub struct OverflowError;

/// The most quads one chunk mesh can hold: a 16-bit index addresses 65536
/// vertices, and each quad takes four.
pub const MAX_CHUNK_QUADS: usize = 16384;

/// The most solid voxels one chunk mesh can represent: each solid voxel
/// takes six quads, and `MAX_CHUNK_QUADS / 6` rounds down to 2730.
pub const MAX_SOLID_VOXELS: usize = 2730;

/// Whether a voxel contributes geometry.
pub open spec fn is_solid(v: VoxelData) -> bool {
    v is Plain
}

/// The `x` coordinate of the cell at position `i` of the flat cell sequence.
pub open spec fn cell_x(i: int) -> int {
    i / 256
}

/// The `y` coordinate of the cell at position `i` of the flat cell sequence.
pub open spec fn cell_y(i: int) -> int {
    (i / 16) % 16
}

/// The `z` coordinate of the cell at position `i` of the flat cell sequence.
pub open spec fn cell_z(i: int) -> int {
    i % 16
}

/// The 24 vertices of one solid voxel's six faces, in emission order:
/// front, back, down, up, left, right, each scaled by its own light level.
pub open spec fn solid_verts(gx: usize, gy: usize, gz: usize, d: CubeData) -> Seq<TerrainVertex> {
    face_front_verts(gx, gy, gz, d.color, d.front_light) + face_back_verts(
        gx,
        gy,
        gz,
        d.color,
        d.back_light,
    ) + face_down_verts(gx, gy, gz, d.color, d.down_light) + face_up_verts(
        gx,
        gy,
        gz,
        d.color,
        d.up_light,
    ) + face_left_verts(gx, gy, gz, d.color, d.left_light) + face_right_verts(
        gx,
        gy,
        gz,
        d.color,
        d.right_light,
    )
}

/// The 36 indices of one solid voxel's six quads, starting at the given
/// running quad offset.
pub open spec fn solid_indices(offset: int) -> Seq<u16> {
    quad_indices(offset) + quad_indices(offset + 1) + quad_indices(offset + 2) + quad_indices(
        offset + 3,
    ) + quad_indices(offset + 4) + quad_indices(offset + 5)
}

/// How many of the first `n` cells are solid.
pub open spec fn solid_count_upto(cells: Seq<VoxelData>, n: int) -> int
    decreases n,
{
    if n <= 0 {
        0
    } else {
        solid_count_upto(cells, n - 1) + if is_solid(cells[n - 1]) {
            1int
        } else {
            0int
        }
    }
}

/// How many cells of a chunk are solid.
pub open spec fn solid_count(cells: Seq<VoxelData>) -> int {
    solid_count_upto(cells, 4096)
}

/// The vertex array the builder has emitted after visiting the first `n`
/// cells of the chunk at chunk coordinate `(cx, cy, cz)`.
pub open spec fn mesh_verts_upto(
    cells: Seq<VoxelData>,
    cx: usize,
    cy: usize,
    cz: usize,
    n: int,
) -> Seq<TerrainVertex>
    decreases n,
{
    if n <= 0 {
        Seq::empty()
    } else {
        mesh_verts_upto(cells, cx, cy, cz, n - 1) + match cells[n - 1] {
            VoxelData::Air => Seq::empty(),
            VoxelData::Plain(d) => solid_verts(
                ((cx * 16 + cell_x(n - 1)) as usize),
                ((cy * 16 + cell_y(n - 1)) as usize),
                ((cz * 16 + cell_z(n - 1)) as usize),
                d,
            ),
        }
    }
}

/// The index array the builder has emitted after visiting the first `n`
/// cells.
pub open spec fn mesh_indices_upto(cells: Seq<VoxelData>, n: int) -> Seq<u16>
    decreases n,
{
    if n <= 0 {
        Seq::empty()
    } else {
        mesh_indices_upto(cells, n - 1) + if is_solid(cells[n - 1]) {
            solid_indices(6 * solid_count_upto(cells, n - 1))
        } else {
            Seq::empty()
        }
    }
}

/// The complete vertex array of the chunk at chunk coordinate
/// `(cx, cy, cz)`.
pub open spec fn mesh_verts(cells: Seq<VoxelData>, cx: usize, cy: usize, cz: usize) -> Seq<
    TerrainVertex,
> {
    mesh_verts_upto(cells, cx, cy, cz, 4096)
}

/// The complete index array of a chunk.
pub open spec fn mesh_indices(cells: Seq<VoxelData>) -> Seq<u16> {
    mesh_indices_upto(cells, 4096)
}

/// Recovers a cell's coordinates from its position in the flat cell
/// sequence.
proof fn lemma_cell_coords(x: int, y: int, z: int)
    requires
        0 <= x < 16,
        0 <= y < 16,
        0 <= z < 16,
    ensures
        cell_x(cell_index(x, y, z)) == x,
        cell_y(cell_index(x, y, z)) == y,
        cell_z(cell_index(x, y, z)) == z,
{
    let i = cell_index(x, y, z);
    lemma_fundamental_div_mod_converse(i, 256, x, y * 16 + z);
    lemma_fundamental_div_mod_converse(i, 16, x * 16 + y, z);
    lemma_fundamental_div_mod_converse(x * 16 + y, 16, x, y);
}

/// The CPU side of one chunk's render data: the complete vertex array, the
/// complete index array, and the index count, ready for a one-shot upload
/// into GPU-resident vertex and index buffers.
pub struct ChunkMesh {
    /// All emitted vertices, 24 per solid voxel.
    pub vertex_data: Vec<TerrainVertex>,
    /// All emitted triangle indices, 36 per solid voxel, each pointing into
    /// `vertex_data`.
    pub index_data: Vec<u16>,
    /// The number of indices to draw, `index_data.len()`.
    pub index_count: usize,
}

impl ChunkMesh {
    /// Builds the mesh of `chunk`, whose position in the chunk grid is
    /// `(chunk_x, chunk_y, chunk_z)`: visits every cell in a fixed order
    /// (`x` outer, `y` middle, `z` inner), skips empty cells, and emits all
    /// six faces of every solid cell at its global position, with no test
    /// for neighbor occlusion. Reports an [`OverflowError`] instead, before
    /// emitting anything out of range, if the mesh would need more vertices
    /// than a 16-bit index can address; that happens exactly when the chunk
    /// holds more than [`MAX_SOLID_VOXELS`] solid cells.
    #[verifier::loop_isolation(false)]
    #[verifier::rlimit(60)]
    pub fn new(chunk_x: usize, chunk_y: usize, chunk_z: usize, chunk: &ChunkData) -> (r: Result<
        Self,
        OverflowError,
    >)
        requires
            chunk_x * 16 + 16 <= usize::MAX,
            chunk_y * 16 + 16 <= usize::MAX,
            chunk_z * 16 + 16 <= usize::MAX,
        ensures
            r is Ok <==> solid_count(chunk@) <= MAX_SOLID_VOXELS,
            (r matches Ok(m) ==> {
                &&& m.vertex_data@ == mesh_verts(chunk@, chunk_x, chunk_y, chunk_z)
                &&& m.index_data@ == mesh_indices(chunk@)
                &&& m.index_count == m.index_data@.len()
                &&& m.vertex_data@.len() <= 65536
            }),
    {
        let mut vertex_data: Vec<TerrainVertex> = Vec::new();
        let mut index_data: Vec<u16> = Vec::new();
        let mut offset: usize = 0;

        let mut x: usize = 0;
        while x < 16
            invariant
                x <= 16,
                offset == 6 * solid_count_upto(chunk@, 256 * x),
                offset <= 16384,
                vertex_data@ == mesh_verts_upto(chunk@, chunk_x, chunk_y, chunk_z, 256 * x),
                index_data@ == mesh_indices_upto(chunk@, 256 * x),
            decreases 16 - x,
        {
            let mut y: usize = 0;
            while y < 16
                invariant
                    x < 16,
                    y <= 16,
                    offset == 6 * solid_count_upto(chunk@, 256 * x + 16 * y),
                    offset <= 16384,
                    vertex_data@ == mesh_verts_upto(
                        chunk@,
                        chunk_x,
                        chunk_y,
                        chunk_z,
                        256 * x + 16 * y,
                    ),
                    index_data@ == mesh_indices_upto(chunk@, 256 * x + 16 * y),
                decreases 16 - y,
            {
                let mut z: usize = 0;
                while z < 16
                    invariant
                        x < 16,
                        y < 16,
                        z <= 16,
                        offset == 6 * solid_count_upto(chunk@, 256 * x + 16 * y + z),
                        offset <= 16384,
                        vertex_data@ == mesh_verts_upto(
                            chunk@,
                            chunk_x,
                            chunk_y,
                            chunk_z,
                            256 * x + 16 * y + z,
                        ),
                        index_data@ == mesh_indices_upto(chunk@, 256 * x + 16 * y + z),
                    decreases 16 - z,
                {
                    let ghost n: int = 256 * x + 16 * y + z;
                    proof {
                        lemma_cell_coords(x as int, y as int, z as int);
                    }
                    match chunk.at(x, y, z) {
                        VoxelData::Air => {
                            proof {
                                assert(vertex_data@ =~= mesh_verts_upto(
                                    chunk@,
                                    chunk_x,
                                    chunk_y,
                                    chunk_z,
                                    n + 1,
                                ));
                                assert(index_data@ =~= mesh_indices_upto(chunk@, n + 1));
                            }
                        },
                        VoxelData::Plain(data) => {
                            if offset + 6 > MAX_CHUNK_QUADS {
                                proof {
                                    lemma_solid_count_monotonic(chunk@, n + 1, 4096);
                                }
                                return Err(OverflowError);
                            }
                            let xx = chunk_x * 16 + x;
                            let yy = chunk_y * 16 + y;
                            let zz = chunk_z * 16 + z;

                            let mut vertices = face_front(xx, yy, zz, data.color, data.front_light);
                            let mut indices = face_indices(offset);
                            vertex_data.append(&mut vertices);
                            index_data.append(&mut indices);

                            let mut vertices = face_back(xx, yy, zz, data.color, data.back_light);
                            let mut indices = face_indices(offset + 1);
                            vertex_data.append(&mut vertices);
                            index_data.append(&mut indices);

                            let mut vertices = face_down(xx, yy, zz, data.color, data.down_light);
                            let mut indices = face_indices(offset + 2);
                            vertex_data.append(&mut vertices);
                            index_data.append(&mut indices);

                            let mut vertices = face_up(xx, yy, zz, data.color, data.up_light);
                            let mut indices = face_indices(offset + 3);
                            vertex_data.append(&mut vertices);
                            index_data.append(&mut indices);

                            let mut vertices = face_left(xx, yy, zz, data.color, data.left_light);
                            let mut indices = face_indices(offset + 4);
                            vertex_data.append(&mut vertices);
                            index_data.append(&mut indices);

                            let mut vertices = face_right(xx, yy, zz, data.color, data.right_light);
                            let mut indices = face_indices(offset + 5);
                            vertex_data.append(&mut vertices);
                            index_data.append(&mut indices);

                            offset = offset + 6;
                            proof {
                                assert(vertex_data@ =~= mesh_verts_upto(
                                    chunk@,
                                    chunk_x,
                                    chunk_y,
                                    chunk_z,
                                    n + 1,
                                ));
                                assert(index_data@ =~= mesh_indices_upto(chunk@, n + 1));
                            }
                        },
                    }
                    z += 1;
                }
                y += 1;
            }
            x += 1;
        }
        proof {
            lemma_mesh_counts(chunk@, chunk_x, chunk_y, chunk_z, 4096);
        }
        let index_count = index_data.len();
        Ok(ChunkMesh { vertex_data, index_data, index_count })
    }
}

/// A prefix of the cells never holds more solid cells than a longer prefix.
pub proof fn lemma_solid_count_monotonic(cells: Seq<VoxelData>, m: int, n: int)
    requires
        m <= n,
    ensures
        solid_count_upto(cells, m) <= solid_count_upto(cells, n),
    decreases n - m,
{
    if m < n {
        lemma_solid_count_monotonic(cells, m, n - 1);
    }
}

/// The emitted array lengths are proportional to the solid cells visited:
/// 24 vertices and 36 indices per solid cell.
pub proof fn lemma_mesh_counts(cells: Seq<VoxelData>, cx: usize, cy: usize, cz: usize, n: int)
    ensures
        mesh_verts_upto(cells, cx, cy, cz, n).len() == 24 * solid_count_upto(cells, n),
        mesh_indices_upto(cells, n).len() == 36 * solid_count_upto(cells, n),
    decreases n,
{
    if n > 0 {
        lemma_mesh_counts(cells, cx, cy, cz, n - 1);
    }
}

/// A mesh built from an all-empty chunk is empty: no vertices and no
/// indices.
pub proof fn lemma_empty_chunk_empty_mesh(cells: Seq<VoxelData>, cx: usize, cy: usize, cz: usize)
    requires
        forall|i: int| 0 <= i < 4096 ==> !is_solid(#[trigger] cells[i]),
    ensures
        mesh_verts(cells, cx, cy, cz) == Seq::<TerrainVertex>::empty(),
        mesh_indices(cells) == Seq::<u16>::empty(),
{
    lemma_empty_prefix_empty_mesh(cells, cx, cy, cz, 4096);
}

/// Helper induction for [`lemma_empty_chunk_empty_mesh`], over prefixes.
proof fn lemma_empty_prefix_empty_mesh(
    cells: Seq<VoxelData>,
    cx: usize,
    cy: usize,
    cz: usize,
    n: int,
)
    requires
        n <= 4096,
        forall|i: int| 0 <= i < 4096 ==> !is_solid(#[trigger] cells[i]),
    ensures
        mesh_verts_upto(cells, cx, cy, cz, n) == Seq::<TerrainVertex>::empty(),
        mesh_indices_upto(cells, n) == Seq::<u16>::empty(),
    decreases n,
{
    if n > 0 {
        lemma_empty_prefix_empty_mesh(cells, cx, cy, cz, n - 1);
        assert(mesh_verts_upto(cells, cx, cy, cz, n) =~= Seq::<TerrainVertex>::empty());
        assert(mesh_indices_upto(cells, n) =~= Seq::<u16>::empty());
    }
}

/// A chunk whose cells hold exactly one solid voxel has one solid cell by
/// count.
pub proof fn lemma_single_solid_count(cells: Seq<VoxelData>, j: int)
    requires
        0 <= j < 4096,
        is_solid(cells[j]),
        forall|i: int| 0 <= i < 4096 && i != j ==> !is_solid(#[trigger] cells[i]),
    ensures
        solid_count(cells) == 1,
{
    lemma_single_solid_count_upto(cells, j, 4096);
}

/// Helper induction for [`lemma_single_solid_count`], over prefixes.
proof fn lemma_single_solid_count_upto(cells: Seq<VoxelData>, j: int, n: int)
    requires
        0 <= j < 4096,
        n <= 4096,
        is_solid(cells[j]),
        forall|i: int| 0 <= i < 4096 && i != j ==> !is_solid(#[trigger] cells[i]),
    ensures
        solid_count_upto(cells, n) == if j < n {
            1int
        } else {
            0int
        },
    decreases n,
{
    if n > 0 {
        lemma_single_solid_count_upto(cells, j, n - 1);
    }
}

/// A mesh built from a chunk with exactly one solid voxel holds exactly 24
/// vertices and 36 indices: the six faces of that one voxel.
pub proof fn lemma_single_solid_mesh_counts(
    cells: Seq<VoxelData>,
    cx: usize,
    cy: usize,
    cz: usize,
    j: int,
)
    requires
        0 <= j < 4096,
        is_solid(cells[j]),
        forall|i: int| 0 <= i < 4096 && i != j ==> !is_solid(#[trigger] cells[i]),
    ensures
        mesh_verts(cells, cx, cy, cz).len() == 24,
        mesh_indices(cells).len() == 36,
{
    lemma_single_solid_count(cells, j);
    lemma_mesh_counts(cells, cx, cy, cz, 4096);
}

/// A mesh built from a chunk with exactly one solid voxel is precisely that
/// voxel's six faces: the 24 vertices of [`solid_verts`] at the voxel's
/// global position, and the 36 indices of the first six quads.
pub proof fn lemma_single_solid_mesh_content(
    cells: Seq<VoxelData>,
    cx: usize,
    cy: usize,
    cz: usize,
    j: int,
    d: CubeData,
)
    requires
        0 <= j < 4096,
        cells[j] == VoxelData::Plain(d),
        forall|i: int| 0 <= i < 4096 && i != j ==> !is_solid(#[trigger] cells[i]),
    ensures
        mesh_verts(cells, cx, cy, cz) == solid_verts(
            ((cx * 16 + cell_x(j)) as usize),
            ((cy * 16 + cell_y(j)) as usize),
            ((cz * 16 + cell_z(j)) as usize),
            d,
        ),
        mesh_indices(cells) == solid_indices(0),
{
    lemma_single_solid_mesh_content_upto(cells, cx, cy, cz, j, d, 4096);
}

/// Helper induction for [`lemma_single_solid_mesh_content`], over prefixes.
proof fn lemma_single_solid_mesh_content_upto(
    cells: Seq<VoxelData>,
    cx: usize,
    cy: usize,
    cz: usize,
    j: int,
    d: CubeData,
    n: int,
)
    requires
        0 <= j < 4096,
        n <= 4096,
        cells[j] == VoxelData::Plain(d),
        forall|i: int| 0 <= i < 4096 && i != j ==> !is_solid(#[trigger] cells[i]),
    ensures
        j < n ==> mesh_verts_upto(cells, cx, cy, cz, n) == solid_verts(
            ((cx * 16 + cell_x(j)) as usize),
            ((cy * 16 + cell_y(j)) as usize),
            ((cz * 16 + cell_z(j)) as usize),
            d,
        ) && mesh_indices_upto(cells, n) == solid_indices(0),
        j >= n ==> mesh_verts_upto(cells, cx, cy, cz, n) == Seq::<TerrainVertex>::empty()
            && mesh_indices_upto(cells, n) == Seq::<u16>::empty(),
    decreases n,
{
    if n > 0 {
        lemma_single_solid_mesh_content_upto(cells, cx, cy, cz, j, d, n - 1);
        lemma_single_solid_count_upto(cells, j, n - 1);
        if j < n - 1 || j >= n {
            assert(mesh_verts_upto(cells, cx, cy, cz, n) =~= mesh_verts_upto(
                cells,
                cx,
                cy,
                cz,
                n - 1,
            ));
            assert(mesh_indices_upto(cells, n) =~= mesh_indices_upto(cells, n - 1));
        } else {
            assert(mesh_verts_upto(cells, cx, cy, cz, n) =~= solid_verts(
                ((cx * 16 + cell_x(j)) as usize),
                ((cy * 16 + cell_y(j)) as usize),
                ((cz * 16 + cell_z(j)) as usize),
                d,
            ));
            assert(mesh_indices_upto(cells, n) =~= solid_indices(0));
        }
    }
}

/// Every index of one voxel's index block lies below the vertex slots that
/// voxel's quads reach: block values stay in `[4*offset, 4*offset + 24)`.
proof fn lemma_solid_indices_bounds(offset: int, k: int)
    requires
        0 <= offset,
        4 * offset + 23 <= 65535,
        0 <= k < 36,
    ensures
        4 * offset <= solid_indices(offset)[k] < 4 * offset + 24,
{
}

/// No dangling index: every index the mesh holds is strictly less than the
/// vertex array's length, for any chunk content the builder accepts (at
/// most [`MAX_SOLID_VOXELS`] solid cells; beyond that the builder reports
/// overflow and emits nothing).
pub proof fn lemma_indices_in_bounds(cells: Seq<VoxelData>, cx: usize, cy: usize, cz: usize)
    requires
        solid_count(cells) <= MAX_SOLID_VOXELS,
    ensures
        forall|k: int|
            0 <= k < mesh_indices(cells).len() ==> (#[trigger] mesh_indices(cells)[k]) < mesh_verts(
                cells,
                cx,
                cy,
                cz,
            ).len(),
{
    lemma_mesh_counts(cells, cx, cy, cz, 4096);
    lemma_indices_bounded_upto(cells, 4096);
}

/// Helper induction for [`lemma_indices_in_bounds`]: after `n` cells every
/// emitted index lies below 24 times the solid cells seen so far.
proof fn lemma_indices_bounded_upto(cells: Seq<VoxelData>, n: int)
    requires
        n <= 4096,
        solid_count(cells) <= MAX_SOLID_VOXELS,
    ensures
        forall|k: int|
            0 <= k < mesh_indices_upto(cells, n).len() ==> (#[trigger] mesh_indices_upto(
                cells,
                n,
            )[k]) < 24 * solid_count_upto(cells, n),
    decreases n,
{
    if n > 0 {
        lemma_indices_bounded_upto(cells, n - 1);
        lemma_solid_count_monotonic(cells, 0, n - 1);
        lemma_solid_count_monotonic(cells, n - 1, n);
        lemma_solid_count_monotonic(cells, n, 4096);
        if is_solid(cells[n - 1]) {
            let c = solid_count_upto(cells, n - 1);
            let prefix = mesh_indices_upto(cells, n - 1);
            let block = solid_indices(6 * c);
            assert forall|k: int|
                0 <= k < mesh_indices_upto(cells, n).len() implies (#[trigger] mesh_indices_upto(
                cells,
                n,
            )[k]) < 24 * solid_count_upto(cells, n) by {
                if k < prefix.len() {
                    assert(mesh_indices_upto(cells, n)[k] == prefix[k]);
                } else {
                    assert(mesh_indices_upto(cells, n)[k] == block[k - prefix.len()]);
                    lemma_solid_indices_bounds(6 * c, k - prefix.len());
                }
            }
        } else {
            assert(mesh_indices_upto(cells, n) =~= mesh_indices_upto(cells, n - 1));
        }
    }
}

/// A fully solid chunk holds 4096 solid cells, six times more than the
/// 16-bit index budget of 2730 admits: its emitted vertex count, 98304,
/// exceeds the 65536 vertices a 16-bit index can address, so the builder
/// reports overflow rather than truncate or wrap.
pub proof fn lemma_full_chunk_overflows(cells: Seq<VoxelData>)
    requires
        forall|i: int| 0 <= i < 4096 ==> is_solid(#[trigger] cells[i]),
    ensures
        solid_count(cells) == 4096,
        24 * solid_count(cells) == 98304,
{
    lemma_full_prefix_count(cells, 4096);
}

/// Helper induction for [`lemma_full_chunk_overflows`], over prefixes.
proof fn lemma_full_prefix_count(cells: Seq<VoxelData>, n: int)
    requires
        0 <= n <= 4096,
        forall|i: int| 0 <= i < 4096 ==> is_solid(#[trigger] cells[i]),
    ensures
        solid_count_upto(cells, n) == n,
    decreases n,
{
    if n > 0 {
        lemma_full_prefix_count(cells, n - 1);
    }
}

} // verus!
