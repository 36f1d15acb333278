//! Volume texture manager and device limits.
//!
//! The volume texture is a 3D grid with one value per voxel. Creation
//! validates the dimensions against the device limits — requests beyond
//! them fail fast instead of being logged and ignored — and initialises
//! every voxel to zero. The GPU-side commands that accompany creation are
//! recorded by the caller through [`crate::gpu`].

use vstd::prelude::*;

verus! {

/// Largest voxel count a single volume may hold.
pub const MAX_VOXELS: u128 = 1_073_741_824;

/// Device capabilities, queried once at startup by the embedder and handed
/// to the library for validation and diagnostics.
#[derive(Clone, Copy, Debug, PartialEq, Eq, Structural)]
pub struct DeviceLimits {
    /// Largest side length of a 3D texture.
    pub max_texture_size: i32,
    /// Largest global work-group counts per axis.
    pub max_group_count_x: i32,
    pub max_group_count_y: i32,
    pub max_group_count_z: i32,
    /// Largest local work-group sizes per axis.
    pub max_group_size_x: i32,
    pub max_group_size_y: i32,
    pub max_group_size_z: i32,
    /// Largest local work-group invocation total.
    pub max_invocations: i32,
}

/// The per-axis global work-group count limits.
pub fn get_workgroup_count(limits: &DeviceLimits) -> (r: (i32, i32, i32))
    ensures
        r.0 == limits.max_group_count_x,
        r.1 == limits.max_group_count_y,
        r.2 == limits.max_group_count_z,
{
    (limits.max_group_count_x, limits.max_group_count_y, limits.max_group_count_z)
}

/// The per-axis local work-group size limits.
pub fn get_workgroup_size(limits: &DeviceLimits) -> (r: (i32, i32, i32))
    ensures
        r.0 == limits.max_group_size_x,
        r.1 == limits.max_group_size_y,
        r.2 == limits.max_group_size_z,
{
    (limits.max_group_size_x, limits.max_group_size_y, limits.max_group_size_z)
}

/// The local work-group invocation limit.
pub fn get_workgroup_invocations(limits: &DeviceLimits) -> (r: i32)
    ensures
        r == limits.max_invocations,
{
    limits.max_invocations
}

/// A 3D texture: the dimensions, the voxel store uploaded at creation
/// (one value per voxel, zero meaning a cleared RGBA value), and whether a
/// compute pass has filled it and completed the memory barrier.
pub struct VolumeTexture {
    /// Identifier of the texture within the recorded command stream.
    pub id: u32,
    pub width: i32,
    pub height: i32,
    pub depth: i32,
    /// The voxel values uploaded at creation.
    pub data: Vec<u32>,
    /// True once a compute dispatch wrote the texture and the
    /// shader-image-access barrier made the write visible.
    pub filled: bool,
}

/// The requested dimensions are acceptable: each axis positive and within
/// the device's texture size limit, and the voxel total within the
/// allocation cap.
pub open spec fn volume_dims_ok(limits: DeviceLimits, w: int, h: int, d: int) -> bool {
    &&& 1 <= w <= limits.max_texture_size
    &&& 1 <= h <= limits.max_texture_size
    &&& 1 <= d <= limits.max_texture_size
    &&& w * h * d <= MAX_VOXELS
}

/// A well-formed volume: positive dimensions and one stored value per
/// voxel.
pub open spec fn volume_wf(v: VolumeTexture) -> bool {
    &&& 1 <= v.width
    &&& 1 <= v.height
    &&& 1 <= v.depth
    &&& v.data@.len() == v.width as int * v.height as int * v.depth as int
}

/// A vector of `n` zeroed voxels.
fn zero_voxels(n: usize) -> (r: Vec<u32>)
    ensures
        r@.len() == n,
        forall|i: int| 0 <= i < n ==> r@[i] == 0,
{
    let mut data: Vec<u32> = Vec::new();
    while data.len() < n
        invariant
            data@.len() <= n,
            forall|i: int| 0 <= i < data@.len() ==> data@[i] == 0,
        decreases n - data@.len(),
    {
        data.push(0);
    }
    data
}

/// Create the voxel store of a volume texture: validates the dimensions
/// against the device limits, failing fast when they are exceeded, and
/// returns the texture model with every voxel zeroed and not yet filled.
/// The caller records the accompanying GPU commands through
/// [`crate::gpu::create_volume`].
pub fn get_3d_texture(limits: &DeviceLimits, id: u32, w: i32, h: i32, d: i32) -> (r: Result<
    VolumeTexture,
    crate::error::RenderError,
>)
    ensures
        r is Ok <==> volume_dims_ok(*limits, w as int, h as int, d as int),
        r matches Err(e) ==> e == crate::error::RenderError::InvalidTextureSize,
        r matches Ok(v) ==> {
            &&& v.id == id
            &&& v.width == w
            &&& v.height == h
            &&& v.depth == d
            &&& v.data@.len() == w as int * h as int * d as int
            &&& forall|i: int| 0 <= i < v.data@.len() ==> v.data@[i] == 0
            &&& !v.filled
            &&& volume_wf(v)
        },
{
    if w < 1 || h < 1 || d < 1 || w > limits.max_texture_size || h > limits.max_texture_size || d
        > limits.max_texture_size {
        return Err(crate::error::RenderError::InvalidTextureSize);
    }
    let wu: u128 = w as u128;
    let hu: u128 = h as u128;
    let du: u128 = d as u128;
    proof {
        assert((w as int) * (h as int) <= 0x8000_0000_0000_0000int && 1 <= (w as int) * (
        h as int)) by (nonlinear_arith)
            requires
                1 <= (w as int) && (w as int) <= 0x8000_0000int,
                1 <= (h as int) && (h as int) <= 0x8000_0000int,
        ;
    }
    let wh: u128 = wu * hu;
    proof {
        assert((w as int) * (h as int) * (d as int) <= 0x4000_0000_0000_0000_0000_0000int && 1
            <= (w as int) * (h as int) * (d as int)) by (nonlinear_arith)
            requires
                1 <= (w as int) * (h as int) && (w as int) * (h as int)
                    <= 0x8000_0000_0000_0000int,
                1 <= (d as int) && (d as int) <= 0x8000_0000int,
        ;
    }
    let total: u128 = wh * du;
    if total > MAX_VOXELS {
        return Err(crate::error::RenderError::InvalidTextureSize);
    }
    let count: usize = total as usize;
    let data: Vec<u32> = zero_voxels(count);
    Ok(VolumeTexture { id, width: w, height: h, depth: d, data, filled: false })
}

impl VolumeTexture {
    /// The voxel value at `(x, y, z)` of the initial upload.
    pub fn voxel(&self, x: i32, y: i32, z: i32) -> (r: u32)
        requires
            volume_wf(*self),
            0 <= x < self.width,
            0 <= y < self.height,
            0 <= z < self.depth,
        ensures
            r == self.data@[(z as int * self.height as int + y as int) * self.width as int
                + x as int],
    {
        let len: usize = self.data.len();
        proof {
            let w = self.width as int;
            let h = self.height as int;
            let d = self.depth as int;
            assert(0 <= (z as int) * h + (y as int) && ((z as int) * h + (y as int)) < h * d && ((
            z as int) * h + (y as int)) * w + (x as int) < w * h * d && 0 <= ((z as int) * h + (
            y as int)) * w + (x as int) && (z as int) * h <= 0x4000_0000_0000_0000int && ((
            z as int) * h + (y as int)) * w <= 0x4000_0000_0000_0000_0000_0000int)
                by (nonlinear_arith)
                requires
                    1 <= w && w <= 0x8000_0000int,
                    1 <= h && h <= 0x8000_0000int,
                    1 <= d && d <= 0x8000_0000int,
                    0 <= (x as int) && (x as int) < w,
                    0 <= (y as int) && (y as int) < h,
                    0 <= (z as int) && (z as int) < d,
            ;
        }
        let idx128: u128 = ((z as u128) * (self.height as u128) + (y as u128)) * (
        self.width as u128) + (x as u128);
        let idx: usize = idx128 as usize;
        self.data[idx]
    }
}

} // verus!
