use vox::renderer::cube::{
    face_back, face_down, face_front, face_indices, face_left, face_right, face_up,
};
use vox::renderer::terrain::TerrainVertex;

const COLOR: (u8, u8, u8, u8) = (10, 20, 30, 40);

#[test]
fn face_indices_shift_by_four_per_quad() {
    assert_eq!(face_indices(0), vec![0, 1, 2, 2, 1, 3]);
    assert_eq!(face_indices(1), vec![4, 5, 6, 6, 5, 7]);
    assert_eq!(face_indices(2), vec![8, 9, 10, 10, 9, 11]);
    assert_eq!(face_indices(16383), vec![65532, 65533, 65534, 65534, 65533, 65535]);
}

#[test]
fn face_up_emits_the_expected_quad() {
    let quad = face_up(1, 2, 3, COLOR, 255);
    let positions: Vec<(usize, usize, usize)> = quad.iter().map(|v| v.position).collect();
    assert_eq!(positions, vec![(1, 2, 4), (2, 2, 4), (1, 3, 4), (2, 3, 4)]);
}

#[test]
fn face_down_emits_the_expected_quad() {
    let quad = face_down(1, 2, 3, COLOR, 255);
    let positions: Vec<(usize, usize, usize)> = quad.iter().map(|v| v.position).collect();
    assert_eq!(positions, vec![(1, 2, 3), (1, 3, 3), (2, 2, 3), (2, 3, 3)]);
}

#[test]
fn face_front_emits_the_expected_quad() {
    let quad = face_front(1, 2, 3, COLOR, 255);
    let positions: Vec<(usize, usize, usize)> = quad.iter().map(|v| v.position).collect();
    assert_eq!(positions, vec![(1, 2, 3), (2, 2, 3), (1, 2, 4), (2, 2, 4)]);
}

#[test]
fn face_back_emits_the_expected_quad() {
    let quad = face_back(1, 2, 3, COLOR, 255);
    let positions: Vec<(usize, usize, usize)> = quad.iter().map(|v| v.position).collect();
    assert_eq!(positions, vec![(1, 3, 3), (1, 3, 4), (2, 3, 3), (2, 3, 4)]);
}

#[test]
fn face_left_emits_the_expected_quad() {
    let quad = face_left(1, 2, 3, COLOR, 255);
    let positions: Vec<(usize, usize, usize)> = quad.iter().map(|v| v.position).collect();
    assert_eq!(positions, vec![(1, 2, 3), (1, 2, 4), (1, 3, 3), (1, 3, 4)]);
}

#[test]
fn face_right_emits_the_expected_quad() {
    let quad = face_right(1, 2, 3, COLOR, 255);
    let positions: Vec<(usize, usize, usize)> = quad.iter().map(|v| v.position).collect();
    assert_eq!(positions, vec![(2, 2, 3), (2, 3, 3), (2, 2, 4), (2, 3, 4)]);
}

/// With the maximum light level the implemented scaling leaves the color
/// unchanged: fully lit means unattenuated.
#[test]
fn full_light_keeps_every_channel() {
    for emit in [face_up, face_down, face_back, face_front, face_right, face_left] {
        let quad = emit(0, 0, 0, COLOR, 255);
        for vertex in &quad {
            assert_eq!(vertex.color, COLOR);
        }
    }
}

/// Any light level below the maximum zeroes every channel, because the
/// implementation divides the light value by 255 before multiplying. A
/// fully-lit-but-one attenuation would be expected to keep most of the
/// color; the mismatch is the documented behavior of the implemented
/// formula, recorded here as a known defect rather than fixed.
#[test]
fn partial_light_zeroes_every_channel() {
    for light in [0u8, 1, 127, 254] {
        for emit in [face_up, face_down, face_back, face_front, face_right, face_left] {
            let quad = emit(0, 0, 0, COLOR, light);
            for vertex in &quad {
                assert_eq!(vertex.color, (0, 0, 0, 0));
            }
        }
    }
}

fn cross(a: (i64, i64, i64), b: (i64, i64, i64), c: (i64, i64, i64)) -> (i64, i64, i64) {
    let u = (b.0 - a.0, b.1 - a.1, b.2 - a.2);
    let w = (c.0 - a.0, c.1 - a.1, c.2 - a.2);
    (
        u.1 * w.2 - u.2 * w.1,
        u.2 * w.0 - u.0 * w.2,
        u.0 * w.1 - u.1 * w.0,
    )
}

fn pos(v: &TerrainVertex) -> (i64, i64, i64) {
    (v.position.0 as i64, v.position.1 as i64, v.position.2 as i64)
}

/// Winding consistency: for each of the six faces, both triangles of the
/// quad (index pattern `{0,1,2}, {2,1,3}`) have right-handed normals
/// pointing along the face's outward axis, so back-face culling shows each
/// face exactly from its outward side.
#[test]
fn winding_is_outward_on_all_six_faces() {
    let cases: [(fn(usize, usize, usize, (u8, u8, u8, u8), u8) -> Vec<TerrainVertex>, (i64, i64, i64)); 6] = [
        (face_up, (0, 0, 1)),
        (face_down, (0, 0, -1)),
        (face_back, (0, 1, 0)),
        (face_front, (0, -1, 0)),
        (face_right, (1, 0, 0)),
        (face_left, (-1, 0, 0)),
    ];
    for (emit, outward) in cases {
        let q = emit(4, 5, 6, COLOR, 255);
        assert_eq!(cross(pos(&q[0]), pos(&q[1]), pos(&q[2])), outward);
        assert_eq!(cross(pos(&q[2]), pos(&q[1]), pos(&q[3])), outward);
    }
}
