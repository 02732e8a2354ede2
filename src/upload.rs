use vstd::prelude::*;

use crate::bytes::{native_bytes_of, words_as_bytes};
use crate::palette::{pack_palette, palette_slots};
use crate::scene::{
    check_result, object_valid, scene_error, scene_valid, validate_scene, Scene, SceneError,
    VoxelObject,
};

verus! {

/// The size of a texture in texels.
#[derive(Clone, Copy, Debug, PartialEq, Eq, Structural)]
pub struct TextureExtent {
    pub width: u32,
    pub height: u32,
    pub depth_or_array_layers: u32,
}

/// How the bytes of a copy into a texture are laid out: texel (x, y, z) of a one-byte
/// format is read at `offset + z * rows_per_image * bytes_per_row + y * bytes_per_row + x`.
#[derive(Clone, Copy, Debug, PartialEq, Eq, Structural)]
pub struct CopyLayout {
    pub offset: u64,
    pub bytes_per_row: u32,
    pub rows_per_image: u32,
}

/// Why the device cannot hold a scene's resources.
#[derive(Clone, Copy, Debug, PartialEq, Eq, Structural)]
pub enum ResourceCreationError {
    /// An object's texture would exceed the device's largest 3D texture dimension.
    TextureTooLarge { object: usize, limit: u32 },
}

pub open spec fn fits_limit(dims: [u32; 3], limit: u32) -> bool {
    dims@[0] <= limit && dims@[1] <= limit && dims@[2] <= limit
}

/// What is created for one object: a 3D texture of `extent`, filled from the object's voxels
/// laid out by `layout`, and a uniform buffer holding `model_bytes`.
pub struct ObjectUpload {
    pub extent: TextureExtent,
    pub layout: CopyLayout,
    pub model_bytes: Vec<u8>,
}

/// What an upload writes: the palette uniform, as words and as bytes, and one entry per object.
pub struct UploadPlan {
    pub palette: Vec<u32>,
    pub palette_bytes: Vec<u8>,
    pub objects: Vec<ObjectUpload>,
}

pub open spec fn extent_of(dims: [u32; 3]) -> TextureExtent {
    TextureExtent { width: dims@[0], height: dims@[1], depth_or_array_layers: dims@[2] }
}

/// Byte-tight rows: a row is `nx` bytes and an image is `ny` rows.
pub open spec fn upload_layout(dims: [u32; 3]) -> CopyLayout {
    CopyLayout { offset: 0, bytes_per_row: dims@[0], rows_per_image: dims@[1] }
}

/// The index in the source bytes from which a copy with `layout` fills texel (x, y, z).
pub open spec fn copy_source_index(layout: CopyLayout, x: int, y: int, z: int) -> int {
    layout.offset + z * layout.rows_per_image * layout.bytes_per_row + y * layout.bytes_per_row + x
}

/// The place of cell (x, y, z) in a grid's voxel bytes.
pub open spec fn linear_offset(dims: [u32; 3], x: int, y: int, z: int) -> int {
    x + y * dims@[0] + z * dims@[0] * dims@[1]
}

pub open spec fn in_grid(dims: [u32; 3], x: int, y: int, z: int) -> bool {
    0 <= x < dims@[0] && 0 <= y < dims@[1] && 0 <= z < dims@[2]
}

pub open spec fn object_planned(o: VoxelObject, p: ObjectUpload) -> bool {
    &&& p.extent == extent_of(o.dims)
    &&& p.layout == upload_layout(o.dims)
    &&& native_bytes_of(o.model_matrix@, p.model_bytes@)
}

pub open spec fn plan_matches(s: Scene, p: UploadPlan) -> bool {
    &&& p.palette@ == palette_slots(s.palette@)
    &&& native_bytes_of(p.palette@, p.palette_bytes@)
    &&& p.objects@.len() == s.objects@.len()
    &&& forall|i: int| 0 <= i < s.objects@.len() ==> object_planned(#[trigger] s.objects@[i], p.objects@[i])
}

proof fn lemma_offset_bounds(nx: int, ny: int, nz: int, x: int, y: int, z: int)
    requires
        0 <= x < nx,
        0 <= y < ny,
        0 <= z < nz,
    ensures
        0 <= y + ny * z < ny * nz,
        0 <= x + nx * (y + ny * z) < nx * ny * nz,
        x + nx * (y + ny * z) == x + y * nx + z * nx * ny,
        ny * nz <= nx * ny * nz,
        nx * (y + ny * z) <= nx * ny * nz,
{
    assert(0 <= y + ny * z < ny * nz) by (nonlinear_arith)
        requires 0 <= y < ny, 0 <= z < nz;
    let yz = y + ny * z;
    assert(0 <= x + nx * yz < nx * (ny * nz)) by (nonlinear_arith)
        requires 0 <= x < nx, 0 <= yz < ny * nz;
    assert(nx * (ny * nz) == nx * ny * nz) by (nonlinear_arith);
    assert(x + nx * (y + ny * z) == x + y * nx + z * nx * ny) by (nonlinear_arith);
    assert(ny * nz <= nx * (ny * nz)) by (nonlinear_arith)
        requires 1 <= nx, 0 <= ny * nz;
    assert(nx * yz <= nx * (ny * nz)) by (nonlinear_arith)
        requires 0 <= nx, 0 <= yz < ny * nz;
}

/// A copy laid out by `upload_layout` fills texel (x, y, z) of an object's texture from the
/// byte at offset `x + y * nx + z * nx * ny` of its voxels, which lies inside them.
pub proof fn lemma_upload_round_trip(o: VoxelObject, x: int, y: int, z: int)
    requires
        object_valid(o),
        in_grid(o.dims, x, y, z),
    ensures
        copy_source_index(upload_layout(o.dims), x, y, z) == linear_offset(o.dims, x, y, z),
        0 <= linear_offset(o.dims, x, y, z) < o.voxels@.len(),
{
    let (nx, ny, nz) = (o.dims@[0] as int, o.dims@[1] as int, o.dims@[2] as int);
    lemma_offset_bounds(nx, ny, nz, x, y, z);
    assert(z * ny * nx == z * nx * ny) by (nonlinear_arith);
}

/// The place of cell (x, y, z) in an object's voxel bytes.
pub fn texel_offset(o: &VoxelObject, x: u32, y: u32, z: u32) -> (r: usize)
    requires
        object_valid(*o),
        in_grid(o.dims, x as int, y as int, z as int),
    ensures
        r == linear_offset(o.dims, x as int, y as int, z as int),
        r < o.voxels@.len(),
{
    let len = o.voxels.len();
    let nx = o.dims[0] as usize;
    let ny = o.dims[1] as usize;
    proof {
        let (a, b, c) = (nx as int, ny as int, o.dims@[2] as int);
        lemma_offset_bounds(a, b, c, x as int, y as int, z as int);
        assert(len == a * b * c);
        assert(b * (z as int) <= y + b * (z as int));
    }
    let yz = y as usize + ny * (z as usize);
    x as usize + nx * yz
}

/// The palette index of cell (x, y, z) of an object.
pub fn voxel_at(o: &VoxelObject, x: u32, y: u32, z: u32) -> (r: u8)
    requires
        object_valid(*o),
        in_grid(o.dims, x as int, y as int, z as int),
    ensures
        r == o.voxels@[linear_offset(o.dims, x as int, y as int, z as int)],
{
    o.voxels[texel_offset(o, x, y, z)]
}

/// The texture and uniform data to create for one valid object.
pub fn plan_object(o: &VoxelObject) -> (r: ObjectUpload)
    requires
        object_valid(*o),
    ensures
        object_planned(*o, r),
{
    let extent = TextureExtent { width: o.dims[0], height: o.dims[1], depth_or_array_layers: o.dims[2] };
    let layout = CopyLayout { offset: 0, bytes_per_row: o.dims[0], rows_per_image: o.dims[1] };
    let model_bytes = words_as_bytes(vstd::array::array_as_slice(&o.model_matrix));
    ObjectUpload { extent, layout, model_bytes }
}

/// Checks, before anything is created, that every object's texture fits a device whose
/// largest 3D texture dimension is `limit`; the first object that does not is reported.
pub fn check_texture_limits(s: &Scene, limit: u32) -> (r: Result<(), ResourceCreationError>)
    ensures
        r is Ok <==> forall|i: int| 0 <= i < s.objects@.len() ==> fits_limit(#[trigger] s.objects@[i].dims, limit),
        r matches Err(ResourceCreationError::TextureTooLarge { object, limit: l }) ==> {
            &&& l == limit
            &&& object < s.objects@.len()
            &&& !fits_limit(s.objects@[object as int].dims, limit)
            &&& forall|i: int| 0 <= i < object ==> fits_limit(#[trigger] s.objects@[i].dims, limit)
        },
{
    let mut i: usize = 0;
    while i < s.objects.len()
        invariant
            i <= s.objects@.len(),
            forall|j: int| 0 <= j < i ==> fits_limit(#[trigger] s.objects@[j].dims, limit),
        decreases s.objects@.len() - i,
    {
        let dims = s.objects[i].dims;
        if dims[0] > limit || dims[1] > limit || dims[2] > limit {
            return Err(ResourceCreationError::TextureTooLarge { object: i, limit });
        }
        i += 1;
    }
    Ok(())
}

/// Validates a scene and computes everything its upload writes, one entry per object in
/// order. Nothing is planned for a scene that fails validation.
pub fn plan_upload(s: &Scene) -> (r: Result<UploadPlan, SceneError>)
    ensures
        r is Ok <==> scene_valid(*s),
        r matches Err(e) ==> check_result(scene_error(*s)) == Err::<(), SceneError>(e),
        r matches Ok(p) ==> plan_matches(*s, p),
{
    match validate_scene(s) {
        Ok(()) => {},
        Err(e) => {
            return Err(e);
        },
    }
    let palette = pack_palette(&s.palette);
    let palette_bytes = words_as_bytes(palette.as_slice());
    let mut objects: Vec<ObjectUpload> = Vec::new();
    let mut i: usize = 0;
    while i < s.objects.len()
        invariant
            scene_valid(*s),
            i <= s.objects@.len(),
            objects@.len() == i,
            forall|j: int| 0 <= j < i ==> object_planned(#[trigger] s.objects@[j], objects@[j]),
        decreases s.objects@.len() - i,
    {
        assert(object_valid(s.objects@[i as int]));
        objects.push(plan_object(&s.objects[i]));
        i += 1;
    }
    Ok(UploadPlan { palette, palette_bytes, objects })
}

} // verus!
