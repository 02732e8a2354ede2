use vstd::prelude::*;

use crate::palette::PALETTE_SLOTS;
use crate::primitives::RGBA;

verus! {

/// A box-shaped grid of palette indices, placed in the scene by a model matrix.
pub struct VoxelObject {
    /// A name, unique within its scene, used to label the object's resources.
    pub id: String,
    /// The model matrix, column by column, as the bit patterns of sixteen 32-bit floats.
    pub model_matrix: [u32; 16],
    /// The inverse of the model matrix, in the same form.
    pub inv_model_matrix: [u32; 16],
    /// The grid's size along x, y and z.
    pub dims: [u32; 3],
    /// The grid's palette indices, x varying fastest, then y, then z.
    pub voxels: Vec<u8>,
}

/// A palette shared by all objects, and the objects in drawing order.
pub struct Scene {
    pub palette: Vec<RGBA>,
    pub objects: Vec<VoxelObject>,
}

/// Why a scene cannot be uploaded.
#[derive(Clone, Copy, Debug, PartialEq, Eq, Structural)]
pub enum SceneError {
    /// The palette holds more colors than the palette uniform has slots.
    PaletteTooLong { len: usize },
    /// An object has a dimension of size zero.
    EmptyDimension { object: usize },
    /// An object's voxel count differs from the product of its dimensions.
    VoxelCountMismatch { object: usize, expected: u128, actual: usize },
}

/// The number of cells of a grid of the given dimensions.
pub open spec fn voxel_count(dims: [u32; 3]) -> int {
    dims@[0] * dims@[1] * dims@[2]
}

pub open spec fn dims_nonzero(dims: [u32; 3]) -> bool {
    dims@[0] > 0 && dims@[1] > 0 && dims@[2] > 0
}

/// Every dimension is positive and the grid holds exactly one byte per cell.
pub open spec fn object_valid(o: VoxelObject) -> bool {
    dims_nonzero(o.dims) && o.voxels@.len() == voxel_count(o.dims)
}

pub open spec fn objects_valid_below(objects: Seq<VoxelObject>, n: int) -> bool {
    forall|i: int| 0 <= i < n ==> object_valid(#[trigger] objects[i])
}

/// A scene that can be uploaded: a palette that fits its uniform, and valid objects.
pub open spec fn scene_valid(s: Scene) -> bool {
    s.palette@.len() <= PALETTE_SLOTS && objects_valid_below(s.objects@, s.objects@.len() as int)
}

/// The problem with one object, if any; `index` is its place in the scene.
pub open spec fn object_error(o: VoxelObject, index: int) -> Option<SceneError> {
    if !dims_nonzero(o.dims) {
        Some(SceneError::EmptyDimension { object: index as usize })
    } else if o.voxels@.len() != voxel_count(o.dims) {
        Some(SceneError::VoxelCountMismatch {
            object: index as usize,
            expected: voxel_count(o.dims) as u128,
            actual: o.voxels@.len() as usize,
        })
    } else {
        None
    }
}

/// The problem with the first faulty object among the first `n`, if any.
pub open spec fn first_object_error(objects: Seq<VoxelObject>, n: int) -> Option<SceneError>
    decreases n,
{
    if n <= 0 {
        None
    } else {
        match first_object_error(objects, n - 1) {
            Some(e) => Some(e),
            None => object_error(objects[n - 1], n - 1),
        }
    }
}

/// The first problem with a scene: a palette that is too long, else the first faulty object.
pub open spec fn scene_error(s: Scene) -> Option<SceneError> {
    if s.palette@.len() > PALETTE_SLOTS {
        Some(SceneError::PaletteTooLong { len: s.palette@.len() as usize })
    } else {
        first_object_error(s.objects@, s.objects@.len() as int)
    }
}

pub open spec fn check_result(e: Option<SceneError>) -> Result<(), SceneError> {
    match e {
        Some(e) => Err(e),
        None => Ok(()),
    }
}

proof fn lemma_first_error_stays(objects: Seq<VoxelObject>, m: int, n: int)
    requires
        0 <= m <= n,
        first_object_error(objects, m) is Some,
    ensures
        first_object_error(objects, n) == first_object_error(objects, m),
    decreases n - m,
{
    if m < n {
        lemma_first_error_stays(objects, m, n - 1);
    }
}

proof fn lemma_no_error_iff_valid(objects: Seq<VoxelObject>, n: int)
    requires
        0 <= n <= objects.len(),
    ensures
        first_object_error(objects, n) is None <==> objects_valid_below(objects, n),
    decreases n,
{
    if n > 0 {
        lemma_no_error_iff_valid(objects, n - 1);
        if first_object_error(objects, n - 1) is Some {
            lemma_first_error_stays(objects, n - 1, n);
        }
    }
}

/// Checks one object; `index` is its place in the scene, reported in the error.
pub fn validate_object(o: &VoxelObject, index: usize) -> (r: Result<(), SceneError>)
    ensures
        r == check_result(object_error(*o, index as int)),
        r is Ok <==> object_valid(*o),
{
    let nx = o.dims[0];
    let ny = o.dims[1];
    let nz = o.dims[2];
    if nx == 0 || ny == 0 || nz == 0 {
        return Err(SceneError::EmptyDimension { object: index });
    }
    assert((nx as u128) * (ny as u128) <= 0xffff_ffff_ffff_ffffu128) by (nonlinear_arith)
        requires nx <= 0xffff_ffffu32, ny <= 0xffff_ffffu32;
    let nxy = (nx as u128) * (ny as u128);
    assert(nxy * (nz as u128) <= 0xffff_ffff_ffff_ffff_ffff_ffffu128) by (nonlinear_arith)
        requires nxy <= 0xffff_ffff_ffff_ffffu128, nz <= 0xffff_ffffu32;
    let expected = nxy * (nz as u128);
    if o.voxels.len() as u128 != expected {
        return Err(SceneError::VoxelCountMismatch { object: index, expected, actual: o.voxels.len() });
    }
    Ok(())
}

/// Checks a scene before anything is created for it: the palette first, then each object
/// in order. The first problem found is reported.
pub fn validate_scene(s: &Scene) -> (r: Result<(), SceneError>)
    ensures
        r == check_result(scene_error(*s)),
        r is Ok <==> scene_valid(*s),
{
    if s.palette.len() > PALETTE_SLOTS {
        return Err(SceneError::PaletteTooLong { len: s.palette.len() });
    }
    let mut i: usize = 0;
    while i < s.objects.len()
        invariant
            i <= s.objects@.len(),
            s.palette@.len() <= PALETTE_SLOTS,
            first_object_error(s.objects@, i as int) is None,
        decreases s.objects@.len() - i,
    {
        let checked = validate_object(&s.objects[i], i);
        match checked {
            Ok(()) => {},
            Err(e) => {
                proof {
                    lemma_first_error_stays(s.objects@, i + 1, s.objects@.len() as int);
                }
                return Err(e);
            },
        }
        i += 1;
    }
    proof {
        lemma_no_error_iff_valid(s.objects@, s.objects@.len() as int);
    }
    Ok(())
}

} // verus!
