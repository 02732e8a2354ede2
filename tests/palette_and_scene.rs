use voxellaneous_core::palette::{pack_palette, PALETTE_SLOTS};
use voxellaneous_core::primitives::{pack_rgba, RGBA};
use voxellaneous_core::scene::{validate_object, validate_scene, Scene, SceneError, VoxelObject};

fn object(id: &str, dims: [u32; 3], voxels: Vec<u8>) -> VoxelObject {
    VoxelObject { id: id.to_string(), model_matrix: [0; 16], inv_model_matrix: [0; 16], dims, voxels }
}

#[test]
fn pack_rgba_places_channels_high_to_low() {
    assert_eq!(pack_rgba(&RGBA(0x12, 0x34, 0x56, 0x78)), 0x1234_5678);
    assert_eq!(pack_rgba(&RGBA(255, 0, 0, 255)), 0xFF00_00FF);
    assert_eq!(pack_rgba(&RGBA(0, 0, 0, 0)), 0);
    assert_eq!(pack_rgba(&RGBA(255, 255, 255, 255)), 0xFFFF_FFFF);
    assert_eq!(pack_rgba(&RGBA(0, 0, 1, 0)), 0x100);
}

#[test]
fn pack_palette_fills_leading_slots_then_zeros() {
    let palette = vec![RGBA(1, 2, 3, 4), RGBA(255, 0, 0, 255)];
    let packed = pack_palette(&palette);
    assert_eq!(packed.len(), PALETTE_SLOTS);
    assert_eq!(packed[0], 0x0102_0304);
    assert_eq!(packed[1], 0xFF00_00FF);
    assert!(packed[2..].iter().all(|&w| w == 0));
}

#[test]
fn pack_palette_empty_is_all_zero() {
    let packed = pack_palette(&Vec::new());
    assert_eq!(packed.len(), 256);
    assert!(packed.iter().all(|&w| w == 0));
}

#[test]
fn pack_palette_full_uses_every_slot() {
    let palette: Vec<RGBA> = (0..256u32).map(|i| RGBA(i as u8, 0, 0, 1)).collect();
    let packed = pack_palette(&palette);
    assert_eq!(packed.len(), 256);
    for i in 0..256usize {
        assert_eq!(packed[i], ((i as u32) << 24) | 1);
    }
}

#[test]
fn validate_accepts_consistent_scene() {
    let scene = Scene {
        palette: vec![RGBA(1, 1, 1, 1)],
        objects: vec![object("a", [2, 2, 2], vec![0; 8]), object("b", [1, 3, 1], vec![0; 3])],
    };
    assert_eq!(validate_scene(&scene), Ok(()));
    let empty = Scene { palette: Vec::new(), objects: Vec::new() };
    assert_eq!(validate_scene(&empty), Ok(()));
}

#[test]
fn validate_rejects_long_palette() {
    let scene = Scene { palette: vec![RGBA(0, 0, 0, 0); 257], objects: Vec::new() };
    assert_eq!(validate_scene(&scene), Err(SceneError::PaletteTooLong { len: 257 }));
    let full = Scene { palette: vec![RGBA(0, 0, 0, 0); 256], objects: Vec::new() };
    assert_eq!(validate_scene(&full), Ok(()));
}

#[test]
fn validate_rejects_empty_dimension() {
    let scene = Scene {
        palette: Vec::new(),
        objects: vec![object("a", [1, 1, 1], vec![0]), object("b", [2, 0, 2], Vec::new())],
    };
    assert_eq!(validate_scene(&scene), Err(SceneError::EmptyDimension { object: 1 }));
}

#[test]
fn validate_rejects_voxel_count_mismatch() {
    let scene = Scene {
        palette: Vec::new(),
        objects: vec![object("a", [2, 2, 2], vec![0; 7]), object("b", [0, 1, 1], Vec::new())],
    };
    assert_eq!(
        validate_scene(&scene),
        Err(SceneError::VoxelCountMismatch { object: 0, expected: 8, actual: 7 })
    );
    let huge = object("h", [u32::MAX, u32::MAX, u32::MAX], vec![0; 4]);
    assert_eq!(
        validate_object(&huge, 5),
        Err(SceneError::VoxelCountMismatch {
            object: 5,
            expected: (u32::MAX as u128) * (u32::MAX as u128) * (u32::MAX as u128),
            actual: 4
        })
    );
}
