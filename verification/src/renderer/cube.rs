//! Face geometry: six emitters, one per cardinal direction, each producing
//! one quad (4 vertices) of a unit cube, and the index pattern that turns a
//! quad into two triangles.
//!
//! Winding is consistent across the six emitters: with the triangle pattern
//! `{0,1,2}, {2,1,3}` of [`face_indices`], both triangles of every face wind
//! so that their right-handed normal points out of the cube, which is what a
//! back-face-culling rasterizer needs to show each face exactly from its
//! outward side.

use vstd::prelude::*;

use crate::renderer::terrain::TerrainVertex;

verus! {

/// One color channel scaled by a light level: the 8-bit light value is
/// divided by 255 *before* the multiplication, an integer operation that
/// yields 0 for every light level below the maximum. This literal behavior
/// is kept on purpose; see [`lemma_partial_light_zeroes_color`].
pub open spec fn scale_channel(c: u8, light: u8) -> u8 {
    (c * (light / 255)) as u8
}

/// All four channels of a color scaled by one light level.
pub open spec fn scale_color(color: (u8, u8, u8, u8), light: u8) -> (u8, u8, u8, u8) {
    (
        scale_channel(color.0, light),
        scale_channel(color.1, light),
        scale_channel(color.2, light),
        scale_channel(color.3, light),
    )
}

/// Scales a color by a light level, channel by channel.
pub fn apply_light(color: (u8, u8, u8, u8), light: u8) -> (r: (u8, u8, u8, u8))
    ensures
        r == scale_color(color, light),
{
    let f = light / 255;
    if f == 0 {
        (0, 0, 0, 0)
    } else {
        proof {
            assert(f == 1);
            assert(color.0 * f == color.0) by (nonlinear_arith)
                requires
                    f == 1,
            ;
            assert(color.1 * f == color.1) by (nonlinear_arith)
                requires
                    f == 1,
            ;
            assert(color.2 * f == color.2) by (nonlinear_arith)
                requires
                    f == 1,
            ;
            assert(color.3 * f == color.3) by (nonlinear_arith)
                requires
                    f == 1,
            ;
        }
        (color.0 * f, color.1 * f, color.2 * f, color.3 * f)
    }
}

/// At the maximum light level the implemented formula leaves every channel
/// unchanged: the color comes through fully lit and unattenuated.
pub proof fn lemma_full_light_keeps_color(color: (u8, u8, u8, u8))
    ensures
        scale_color(color, 255) == color,
{
    assert(255u8 / 255 == 1);
    assert(color.0 * 1 == color.0) by (nonlinear_arith);
    assert(color.1 * 1 == color.1) by (nonlinear_arith);
    assert(color.2 * 1 == color.2) by (nonlinear_arith);
    assert(color.3 * 1 == color.3) by (nonlinear_arith);
}

/// At any light level below the maximum the implemented formula zeroes every
/// channel, because the light value is divided by 255 before multiplying.
/// This is documented behavior, not an endorsed one: a fractional scaling
/// would divide after multiplying instead.
pub proof fn lemma_partial_light_zeroes_color(color: (u8, u8, u8, u8), light: u8)
    requires
        light < 255,
    ensures
        scale_color(color, light) == (0u8, 0u8, 0u8, 0u8),
{
}

/// The vertices of the `+z` face of the unit cube whose minimum corner is
/// `(x, y, z)`.
pub open spec fn face_up_verts(
    x: usize,
    y: usize,
    z: usize,
    color: (u8, u8, u8, u8),
    light: u8,
) -> Seq<TerrainVertex> {
    let c = scale_color(color, light);
    seq![
        (TerrainVertex { position: (x, y, (z + 1) as usize), color: c }),
        (TerrainVertex { position: ((x + 1) as usize, y, (z + 1) as usize), color: c }),
        (TerrainVertex { position: (x, (y + 1) as usize, (z + 1) as usize), color: c }),
        (TerrainVertex { position: ((x + 1) as usize, (y + 1) as usize, (z + 1) as usize), color: c }),
    ]
}

/// The vertices of the `-z` face of the unit cube whose minimum corner is
/// `(x, y, z)`.
pub open spec fn face_down_verts(
    x: usize,
    y: usize,
    z: usize,
    color: (u8, u8, u8, u8),
    light: u8,
) -> Seq<TerrainVertex> {
    let c = scale_color(color, light);
    seq![
        (TerrainVertex { position: (x, y, z), color: c }),
        (TerrainVertex { position: (x, (y + 1) as usize, z), color: c }),
        (TerrainVertex { position: ((x + 1) as usize, y, z), color: c }),
        (TerrainVertex { position: ((x + 1) as usize, (y + 1) as usize, z), color: c }),
    ]
}

/// The vertices of the `+y` face of the unit cube whose minimum corner is
/// `(x, y, z)`.
pub open spec fn face_back_verts(
    x: usize,
    y: usize,
    z: usize,
    color: (u8, u8, u8, u8),
    light: u8,
) -> Seq<TerrainVertex> {
    let c = scale_color(color, light);
    seq![
        (TerrainVertex { position: (x, (y + 1) as usize, z), color: c }),
        (TerrainVertex { position: (x, (y + 1) as usize, (z + 1) as usize), color: c }),
        (TerrainVertex { position: ((x + 1) as usize, (y + 1) as usize, z), color: c }),
        (TerrainVertex { position: ((x + 1) as usize, (y + 1) as usize, (z + 1) as usize), color: c }),
    ]
}

/// The vertices of the `-y` face of the unit cube whose minimum corner is
/// `(x, y, z)`.
pub open spec fn face_front_verts(
    x: usize,
    y: usize,
    z: usize,
    color: (u8, u8, u8, u8),
    light: u8,
) -> Seq<TerrainVertex> {
    let c = scale_color(color, light);
    seq![
        (TerrainVertex { position: (x, y, z), color: c }),
        (TerrainVertex { position: ((x + 1) as usize, y, z), color: c }),
        (TerrainVertex { position: (x, y, (z + 1) as usize), color: c }),
        (TerrainVertex { position: ((x + 1) as usize, y, (z + 1) as usize), color: c }),
    ]
}

/// The vertices of the `+x` face of the unit cube whose minimum corner is
/// `(x, y, z)`.
pub open spec fn face_right_verts(
    x: usize,
    y: usize,
    z: usize,
    color: (u8, u8, u8, u8),
    light: u8,
) -> Seq<TerrainVertex> {
    let c = scale_color(color, light);
    seq![
        (TerrainVertex { position: ((x + 1) as usize, y, z), color: c }),
        (TerrainVertex { position: ((x + 1) as usize, (y + 1) as usize, z), color: c }),
        (TerrainVertex { position: ((x + 1) as usize, y, (z + 1) as usize), color: c }),
        (TerrainVertex { position: ((x + 1) as usize, (y + 1) as usize, (z + 1) as usize), color: c }),
    ]
}

/// The vertices of the `-x` face of the unit cube whose minimum corner is
/// `(x, y, z)`.
pub open spec fn face_left_verts(
    x: usize,
    y: usize,
    z: usize,
    color: (u8, u8, u8, u8),
    light: u8,
) -> Seq<TerrainVertex> {
    let c = scale_color(color, light);
    seq![
        (TerrainVertex { position: (x, y, z), color: c }),
        (TerrainVertex { position: (x, y, (z + 1) as usize), color: c }),
        (TerrainVertex { position: (x, (y + 1) as usize, z), color: c }),
        (TerrainVertex { position: (x, (y + 1) as usize, (z + 1) as usize), color: c }),
    ]
}

/// Emits the quad of the `+z` face of the voxel whose minimum corner is
/// `(x, y, z)`, its color scaled by the face's light level.
pub fn face_up(x: usize, y: usize, z: usize, color: (u8, u8, u8, u8), light: u8) -> (r: Vec<
    TerrainVertex,
>)
    requires
        x < usize::MAX,
        y < usize::MAX,
        z < usize::MAX,
    ensures
        r@ == face_up_verts(x, y, z, color, light),
{
    let c = apply_light(color, light);
    let mut vertices: Vec<TerrainVertex> = Vec::new();
    vertices.push(TerrainVertex::new((x, y, z + 1), c));
    vertices.push(TerrainVertex::new((x + 1, y, z + 1), c));
    vertices.push(TerrainVertex::new((x, y + 1, z + 1), c));
    vertices.push(TerrainVertex::new((x + 1, y + 1, z + 1), c));
    proof {
        assert(vertices@ =~= face_up_verts(x, y, z, color, light));
    }
    vertices
}

/// Emits the quad of the `-z` face of the voxel whose minimum corner is
/// `(x, y, z)`, its color scaled by the face's light level.
pub fn face_down(x: usize, y: usize, z: usize, color: (u8, u8, u8, u8), light: u8) -> (r: Vec<
    TerrainVertex,
>)
    requires
        x < usize::MAX,
        y < usize::MAX,
        z < usize::MAX,
    ensures
        r@ == face_down_verts(x, y, z, color, light),
{
    let c = apply_light(color, light);
    let mut vertices: Vec<TerrainVertex> = Vec::new();
    vertices.push(TerrainVertex::new((x, y, z), c));
    vertices.push(TerrainVertex::new((x, y + 1, z), c));
    vertices.push(TerrainVertex::new((x + 1, y, z), c));
    vertices.push(TerrainVertex::new((x + 1, y + 1, z), c));
    proof {
        assert(vertices@ =~= face_down_verts(x, y, z, color, light));
    }
    vertices
}

/// Emits the quad of the `+y` face of the voxel whose minimum corner is
/// `(x, y, z)`, its color scaled by the face's light level.
pub fn face_back(x: usize, y: usize, z: usize, color: (u8, u8, u8, u8), light: u8) -> (r: Vec<
    TerrainVertex,
>)
    requires
        x < usize::MAX,
        y < usize::MAX,
        z < usize::MAX,
    ensures
        r@ == face_back_verts(x, y, z, color, light),
{
    let c = apply_light(color, light);
    let mut vertices: Vec<TerrainVertex> = Vec::new();
    vertices.push(TerrainVertex::new((x, y + 1, z), c));
    vertices.push(TerrainVertex::new((x, y + 1, z + 1), c));
    vertices.push(TerrainVertex::new((x + 1, y + 1, z), c));
    vertices.push(TerrainVertex::new((x + 1, y + 1, z + 1), c));
    proof {
        assert(vertices@ =~= face_back_verts(x, y, z, color, light));
    }
    vertices
}

/// Emits the quad of the `-y` face of the voxel whose minimum corner is
/// `(x, y, z)`, its color scaled by the face's light level.
pub fn face_front(x: usize, y: usize, z: usize, color: (u8, u8, u8, u8), light: u8) -> (r: Vec<
    TerrainVertex,
>)
    requires
        x < usize::MAX,
        y < usize::MAX,
        z < usize::MAX,
    ensures
        r@ == face_front_verts(x, y, z, color, light),
{
    let c = apply_light(color, light);
    let mut vertices: Vec<TerrainVertex> = Vec::new();
    vertices.push(TerrainVertex::new((x, y, z), c));
    vertices.push(TerrainVertex::new((x + 1, y, z), c));
    vertices.push(TerrainVertex::new((x, y, z + 1), c));
    vertices.push(TerrainVertex::new((x + 1, y, z + 1), c));
    proof {
        assert(vertices@ =~= face_front_verts(x, y, z, color, light));
    }
    vertices
}

/// Emits the quad of the `+x` face of the voxel whose minimum corner is
/// `(x, y, z)`, its color scaled by the face's light level.
pub fn face_right(x: usize, y: usize, z: usize, color: (u8, u8, u8, u8), light: u8) -> (r: Vec<
    TerrainVertex,
>)
    requires
        x < usize::MAX,
        y < usize::MAX,
        z < usize::MAX,
    ensures
        r@ == face_right_verts(x, y, z, color, light),
{
    let c = apply_light(color, light);
    let mut vertices: Vec<TerrainVertex> = Vec::new();
    vertices.push(TerrainVertex::new((x + 1, y, z), c));
    vertices.push(TerrainVertex::new((x + 1, y + 1, z), c));
    vertices.push(TerrainVertex::new((x + 1, y, z + 1), c));
    vertices.push(TerrainVertex::new((x + 1, y + 1, z + 1), c));
    proof {
        assert(vertices@ =~= face_right_verts(x, y, z, color, light));
    }
    vertices
}

/// Emits the quad of the `-x` face of the voxel whose minimum corner is
/// `(x, y, z)`, its color scaled by the face's light level.
pub fn face_left(x: usize, y: usize, z: usize, color: (u8, u8, u8, u8), light: u8) -> (r: Vec<
    TerrainVertex,
>)
    requires
        x < usize::MAX,
        y < usize::MAX,
        z < usize::MAX,
    ensures
        r@ == face_left_verts(x, y, z, color, light),
{
    let c = apply_light(color, light);
    let mut vertices: Vec<TerrainVertex> = Vec::new();
    vertices.push(TerrainVertex::new((x, y, z), c));
    vertices.push(TerrainVertex::new((x, y, z + 1), c));
    vertices.push(TerrainVertex::new((x, y + 1, z), c));
    vertices.push(TerrainVertex::new((x, y + 1, z + 1), c));
    proof {
        assert(vertices@ =~= face_left_verts(x, y, z, color, light));
    }
    vertices
}

/// The six indices of one quad's two triangles, `{0,1,2}` and `{2,1,3}`,
/// shifted by four slots per preceding quad.
pub open spec fn quad_indices(offset: int) -> Seq<u16> {
    seq![
        (4 * offset) as u16,
        (4 * offset + 1) as u16,
        (4 * offset + 2) as u16,
        (4 * offset + 2) as u16,
        (4 * offset + 1) as u16,
        (4 * offset + 3) as u16,
    ]
}

/// Emits the index pattern of the quad with the given running quad offset:
/// `{0,1,2,2,1,3}`, each shifted up by four slots per preceding quad.
pub fn face_indices(offset: usize) -> (r: Vec<u16>)
    requires
        offset <= 16383,
    ensures
        r@ == quad_indices(offset as int),
{
    let base = (offset * 4) as u16;
    let mut indices: Vec<u16> = Vec::new();
    indices.push(base);
    indices.push(base + 1);
    indices.push(base + 2);
    indices.push(base + 2);
    indices.push(base + 1);
    indices.push(base + 3);
    proof {
        assert(indices@ =~= quad_indices(offset as int));
    }
    indices
}

/// A vertex position lifted to mathematical integers.
pub open spec fn pos_int(v: TerrainVertex) -> (int, int, int) {
    (v.position.0 as int, v.position.1 as int, v.position.2 as int)
}

/// The right-handed normal of the triangle `(a, b, c)`: the cross product
/// `(b - a) x (c - a)`.
pub open spec fn tri_normal(a: (int, int, int), b: (int, int, int), c: (int, int, int)) -> (
    int,
    int,
    int,
) {
    (
        (b.1 - a.1) * (c.2 - a.2) - (b.2 - a.2) * (c.1 - a.1),
        (b.2 - a.2) * (c.0 - a.0) - (b.0 - a.0) * (c.2 - a.2),
        (b.0 - a.0) * (c.1 - a.1) - (b.1 - a.1) * (c.0 - a.0),
    )
}

/// Evaluates [`tri_normal`] once the two edge vectors of the triangle are
/// known: equal factors give equal products, so the cross product can be
/// read off the edges.
proof fn lemma_tri_normal_eval(
    a: (int, int, int),
    b: (int, int, int),
    c: (int, int, int),
    u: (int, int, int),
    w: (int, int, int),
)
    requires
        b.0 - a.0 == u.0,
        b.1 - a.1 == u.1,
        b.2 - a.2 == u.2,
        c.0 - a.0 == w.0,
        c.1 - a.1 == w.1,
        c.2 - a.2 == w.2,
    ensures
        tri_normal(a, b, c) == (
            u.1 * w.2 - u.2 * w.1,
            u.2 * w.0 - u.0 * w.2,
            u.0 * w.1 - u.1 * w.0,
        ),
{
}

/// Winding consistency: for every face the two triangles that
/// [`face_indices`] cuts from the quad (vertex triples `{0,1,2}` and
/// `{2,1,3}`) have right-handed normals equal to the face's outward axis
/// direction. Under back-face culling every face is therefore visible
/// exactly from its outward normal direction and invisible from inside the
/// cube.
pub proof fn lemma_winding_consistency(
    x: usize,
    y: usize,
    z: usize,
    color: (u8, u8, u8, u8),
    light: u8,
)
    requires
        x < usize::MAX,
        y < usize::MAX,
        z < usize::MAX,
    ensures
        ({
            let q = face_up_verts(x, y, z, color, light);
            tri_normal(pos_int(q[0]), pos_int(q[1]), pos_int(q[2])) == (0int, 0int, 1int)
                && tri_normal(pos_int(q[2]), pos_int(q[1]), pos_int(q[3])) == (0int, 0int, 1int)
        }),
        ({
            let q = face_down_verts(x, y, z, color, light);
            tri_normal(pos_int(q[0]), pos_int(q[1]), pos_int(q[2])) == (0int, 0int, -1int)
                && tri_normal(pos_int(q[2]), pos_int(q[1]), pos_int(q[3])) == (0int, 0int, -1int)
        }),
        ({
            let q = face_back_verts(x, y, z, color, light);
            tri_normal(pos_int(q[0]), pos_int(q[1]), pos_int(q[2])) == (0int, 1int, 0int)
                && tri_normal(pos_int(q[2]), pos_int(q[1]), pos_int(q[3])) == (0int, 1int, 0int)
        }),
        ({
            let q = face_front_verts(x, y, z, color, light);
            tri_normal(pos_int(q[0]), pos_int(q[1]), pos_int(q[2])) == (0int, -1int, 0int)
                && tri_normal(pos_int(q[2]), pos_int(q[1]), pos_int(q[3])) == (0int, -1int, 0int)
        }),
        ({
            let q = face_right_verts(x, y, z, color, light);
            tri_normal(pos_int(q[0]), pos_int(q[1]), pos_int(q[2])) == (1int, 0int, 0int)
                && tri_normal(pos_int(q[2]), pos_int(q[1]), pos_int(q[3])) == (1int, 0int, 0int)
        }),
        ({
            let q = face_left_verts(x, y, z, color, light);
            tri_normal(pos_int(q[0]), pos_int(q[1]), pos_int(q[2])) == (-1int, 0int, 0int)
                && tri_normal(pos_int(q[2]), pos_int(q[1]), pos_int(q[3])) == (-1int, 0int, 0int)
        }),
{
    let up = face_up_verts(x, y, z, color, light);
    lemma_tri_normal_eval(pos_int(up[0]), pos_int(up[1]), pos_int(up[2]), (1, 0, 0), (0, 1, 0));
    lemma_tri_normal_eval(pos_int(up[2]), pos_int(up[1]), pos_int(up[3]), (1, -1, 0), (1, 0, 0));
    let down = face_down_verts(x, y, z, color, light);
    lemma_tri_normal_eval(
        pos_int(down[0]),
        pos_int(down[1]),
        pos_int(down[2]),
        (0, 1, 0),
        (1, 0, 0),
    );
    lemma_tri_normal_eval(
        pos_int(down[2]),
        pos_int(down[1]),
        pos_int(down[3]),
        (-1, 1, 0),
        (0, 1, 0),
    );
    let back = face_back_verts(x, y, z, color, light);
    lemma_tri_normal_eval(
        pos_int(back[0]),
        pos_int(back[1]),
        pos_int(back[2]),
        (0, 0, 1),
        (1, 0, 0),
    );
    lemma_tri_normal_eval(
        pos_int(back[2]),
        pos_int(back[1]),
        pos_int(back[3]),
        (-1, 0, 1),
        (0, 0, 1),
    );
    let front = face_front_verts(x, y, z, color, light);
    lemma_tri_normal_eval(
        pos_int(front[0]),
        pos_int(front[1]),
        pos_int(front[2]),
        (1, 0, 0),
        (0, 0, 1),
    );
    lemma_tri_normal_eval(
        pos_int(front[2]),
        pos_int(front[1]),
        pos_int(front[3]),
        (1, 0, -1),
        (1, 0, 0),
    );
    let right = face_right_verts(x, y, z, color, light);
    lemma_tri_normal_eval(
        pos_int(right[0]),
        pos_int(right[1]),
        pos_int(right[2]),
        (0, 1, 0),
        (0, 0, 1),
    );
    lemma_tri_normal_eval(
        pos_int(right[2]),
        pos_int(right[1]),
        pos_int(right[3]),
        (0, 1, -1),
        (0, 1, 0),
    );
    let left = face_left_verts(x, y, z, color, light);
    lemma_tri_normal_eval(
        pos_int(left[0]),
        pos_int(left[1]),
        pos_int(left[2]),
        (0, 0, 1),
        (0, 1, 0),
    );
    lemma_tri_normal_eval(
        pos_int(left[2]),
        pos_int(left[1]),
        pos_int(left[3]),
        (0, -1, 1),
        (0, 0, 1),
    );
}

} // verus!
