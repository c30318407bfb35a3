use vox::vox::chunk::{BoundsError, VoxelData};
use vox::vox::cube::CubeData;
use vox::vox::world::{world_to_chunk, World};

#[test]
fn every_chunk_slot_is_populated() {
    let world = World::new();
    for cx in 0..2 {
        for cz in 0..2 {
            let chunk = world.chunk(cx, cz).unwrap();
            assert_eq!(chunk.get(0, 4, 0), Ok(VoxelData::Air));
        }
    }
    assert_eq!(world.chunk(2, 0).err(), Some(BoundsError));
    assert_eq!(world.chunk(0, 2).err(), Some(BoundsError));
}

#[test]
fn world_coordinate_round_trip() {
    for x in 0..32 {
        for y in 0..16 {
            for z in 0..32 {
                let ((cx, cz), (lx, ly, lz)) = world_to_chunk(x, y, z).unwrap();
                assert!(cx < 2 && cz < 2);
                assert!(lx < 16 && ly < 16 && lz < 16);
                assert_eq!(cx * 16 + lx, x);
                assert_eq!(ly, y);
                assert_eq!(cz * 16 + lz, z);
            }
        }
    }
}

#[test]
fn out_of_volume_translation_is_a_bounds_error() {
    assert_eq!(world_to_chunk(32, 0, 0), Err(BoundsError));
    assert_eq!(world_to_chunk(0, 16, 0), Err(BoundsError));
    assert_eq!(world_to_chunk(0, 0, 32), Err(BoundsError));
}

#[test]
fn global_get_reads_across_chunks() {
    let world = World::new();
    // (17, 0, 2) lies in chunk (1, 0), local (1, 0, 2): an initial solid cell.
    match world.get(17, 0, 2) {
        Ok(VoxelData::Plain(cube)) => assert_eq!(cube.color, (255, 255, 255, 255)),
        other => panic!("expected a solid voxel, got {:?}", other),
    }
    // (17, 3, 2) has y = 3: air in the initial pattern.
    assert_eq!(world.get(17, 3, 2), Ok(VoxelData::Air));
    assert_eq!(world.get(32, 0, 0), Err(BoundsError));
}

#[test]
fn global_set_then_get_round_trip() {
    let mut world = World::new();
    let voxel = VoxelData::Plain(CubeData {
        color: (1, 2, 3, 4),
        up_light: 5,
        down_light: 6,
        left_light: 7,
        right_light: 8,
        front_light: 9,
        back_light: 10,
    });
    assert_eq!(world.set(31, 15, 31, voxel), Ok(()));
    assert_eq!(world.get(31, 15, 31), Ok(voxel));
    // The same local cell of another chunk is untouched.
    assert_eq!(world.get(15, 15, 31), Ok(VoxelData::Air));
    assert_eq!(world.set(0, 16, 0, voxel), Err(BoundsError));
}
