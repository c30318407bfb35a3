use vox::vox::chunk::{BoundsError, ChunkData, VoxelData};
use vox::vox::cube::CubeData;

fn sample_cube() -> CubeData {
    CubeData {
        color: (10, 20, 30, 40),
        up_light: 255,
        down_light: 254,
        left_light: 253,
        right_light: 252,
        front_light: 251,
        back_light: 250,
    }
}

#[test]
fn set_then_get_returns_the_voxel() {
    let mut chunk = ChunkData::new();
    let voxel = VoxelData::Plain(sample_cube());
    assert_eq!(chunk.set(3, 4, 5, voxel), Ok(()));
    assert_eq!(chunk.get(3, 4, 5), Ok(voxel));
}

#[test]
fn set_then_get_at_corners() {
    let mut chunk = ChunkData::new();
    let voxel = VoxelData::Plain(sample_cube());
    assert_eq!(chunk.set(0, 0, 0, voxel), Ok(()));
    assert_eq!(chunk.get(0, 0, 0), Ok(voxel));
    assert_eq!(chunk.set(15, 15, 15, voxel), Ok(()));
    assert_eq!(chunk.get(15, 15, 15), Ok(voxel));
    assert_eq!(chunk.set(15, 15, 15, VoxelData::Air), Ok(()));
    assert_eq!(chunk.get(15, 15, 15), Ok(VoxelData::Air));
}

#[test]
fn set_then_get_every_cell() {
    let mut chunk = ChunkData::new();
    let voxel = VoxelData::Plain(sample_cube());
    for x in 0..16 {
        for y in 0..16 {
            for z in 0..16 {
                assert_eq!(chunk.set(x, y, z, voxel), Ok(()));
                assert_eq!(chunk.get(x, y, z), Ok(voxel));
            }
        }
    }
}

#[test]
fn out_of_range_get_is_a_bounds_error() {
    let chunk = ChunkData::new();
    assert_eq!(chunk.get(16, 0, 0), Err(BoundsError));
    assert_eq!(chunk.get(0, 16, 0), Err(BoundsError));
    assert_eq!(chunk.get(0, 0, 16), Err(BoundsError));
    assert_eq!(chunk.get(usize::MAX, 0, 0), Err(BoundsError));
}

#[test]
fn out_of_range_set_is_a_bounds_error_and_changes_nothing() {
    let mut chunk = ChunkData::new();
    let before = chunk.get(0, 0, 0);
    assert_eq!(chunk.set(16, 0, 0, VoxelData::Air), Err(BoundsError));
    assert_eq!(chunk.set(0, 0, 99, VoxelData::Air), Err(BoundsError));
    assert_eq!(chunk.get(0, 0, 0), before);
}

#[test]
fn initial_pattern_has_solid_columns() {
    let chunk = ChunkData::new();
    let white = CubeData {
        color: (255, 255, 255, 255),
        up_light: 255,
        down_light: 255,
        left_light: 255,
        right_light: 255,
        front_light: 255,
        back_light: 255,
    };
    let mut solid = 0;
    for x in 0..16 {
        for y in 0..16 {
            for z in 0..16 {
                let expected = if y < 3 && z < 5 && z % 2 == 0 {
                    VoxelData::Plain(white)
                } else {
                    VoxelData::Air
                };
                assert_eq!(chunk.get(x, y, z), Ok(expected));
                if y < 3 && z < 5 && z % 2 == 0 {
                    solid += 1;
                }
            }
        }
    }
    assert_eq!(solid, 16 * 3 * 3);
}
