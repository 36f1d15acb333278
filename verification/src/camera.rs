//! First-person camera: pose, projection and view matrices.
//!
//! The camera keeps its position and a unit-style quaternion built fresh
//! each frame from accumulated pitch and yaw, roll fixed at zero. The view
//! matrix is the rotation matrix times the translation by the negated
//! position — rotate after moving the world to camera-relative coordinates.

use vstd::prelude::*;
use crate::fixed::{
    fxm, fxd, mag, tdiv, fx_mul, fx_div, sin_deg, cos_deg, sin_deg_spec, cos_deg_spec,
    lemma_fxd_mag, lemma_fxm_scale, lemma_fxm_zero, lemma_fxm_neg_scale, lemma_fxm_square,
    SCALE, DEG180, DEG360,
};
use vstd::arithmetic::div_mod::{
    lemma_div_is_ordered_by_denominator, lemma_div_multiples_vanish, lemma_div_pos_is_pos,
};
use crate::mat::{
    Vec3, Mat4, translate, translate_spec, vec3_neg, vec3_neg_spec, vec3_mag_le, mat_mul,
    mat_mul_spec, mat_mag_le, lemma_fxm_mag, lemma_mat_mul_mag, det4_spec, is_inverse4,
    identity_spec, minor00,
    minor01, minor02, minor03, minor10, minor11, minor12, minor13, minor20, minor21, minor22,
    minor23, minor30, minor31, minor32, minor33,
};
use crate::error::RenderError;

verus! {

/// Largest position coordinate magnitude the pipeline carries.
pub const POSITION_LIMIT: i128 = 1_000_000_000_000;

/// Largest configuration scalar (clip plane, aspect) magnitude accepted.
pub const CONFIG_LIMIT: i128 = 1_000_000_000_000;

/// Largest projection entry the later pipeline stages accept.
pub const PROJECTION_ENTRY_LIMIT: i128 = 10_000_000_000_000;

/// Entry bound of a rotation matrix built from a well-formed quaternion.
pub const ROTATION_ENTRY_LIMIT: i128 = 5_000_000;

/// Entry bound of a view matrix built from a well-formed camera.
pub const VIEW_ENTRY_LIMIT: i128 = 20_000_000_000_000;

/// Near clip plane: 0.02 units.
pub const NEAR_PLANE: i128 = 20_000;

/// Far clip plane: 512 units.
pub const FAR_PLANE: i128 = 512_000_000;

/// Largest viewport side length, a device limit.
pub const MAX_VIEWPORT: u32 = 16_384;

/// An orientation quaternion in fixed-point components.
#[derive(Clone, Copy, Debug, PartialEq, Eq, Structural)]
pub struct Quat {
    pub w: i128,
    pub x: i128,
    pub y: i128,
    pub z: i128,
}

/// Components of a rotation quaternion stay within one unit.
pub open spec fn quat_wf(q: Quat) -> bool {
    &&& mag(q.w as int) <= SCALE
    &&& mag(q.x as int) <= SCALE
    &&& mag(q.y as int) <= SCALE
    &&& mag(q.z as int) <= SCALE
}

/// The identity rotation.
pub open spec fn quat_identity_spec() -> Quat {
    Quat { w: SCALE, x: 0, y: 0, z: 0 }
}

/// The identity rotation.
pub fn quat_identity() -> (q: Quat)
    ensures
        q == quat_identity_spec(),
        quat_wf(q),
{
    Quat { w: SCALE, x: 0, y: 0, z: 0 }
}

/// The camera pose and exposure parameters. Exposure fields are carried but
/// not consumed by the shading math.
#[derive(Clone, Copy, Debug, PartialEq, Eq, Structural)]
pub struct Camera {
    pub position: Vec3,
    pub rotation: Quat,
    pub fovy: i128,
    pub aperture: i128,
    pub shutter_speed: i128,
    pub iso: i128,
}

/// A camera the matrix pipeline can consume: bounded position, rotation
/// components within one unit, field of view inside the open (0, 180).
pub open spec fn camera_wf(c: Camera) -> bool {
    &&& vec3_mag_le(c.position, POSITION_LIMIT as int)
    &&& quat_wf(c.rotation)
    &&& 0 < c.fovy < DEG180
}

impl Camera {
    /// Build a camera from explicit parameters.
    pub fn new(
        fovy: i128,
        aperture: i128,
        shutter_speed: i128,
        iso: i128,
        position: Vec3,
        rotation: Quat,
    ) -> (c: Camera)
        ensures
            c.fovy == fovy,
            c.aperture == aperture,
            c.shutter_speed == shutter_speed,
            c.iso == iso,
            c.position == position,
            c.rotation == rotation,
    {
        Camera { fovy, aperture, shutter_speed, iso, position, rotation }
    }

    /// The default camera: 60 degree field of view, f/16, 1/100 s shutter,
    /// ISO 100, at the origin looking down the negative z axis.
    pub fn default() -> (c: Camera)
        ensures
            c.fovy == 60 * SCALE,
            c.aperture == 16 * SCALE,
            c.shutter_speed == SCALE / 100,
            c.iso == 100 * SCALE,
            c.position == (Vec3 { x: 0, y: 0, z: 0 }),
            c.rotation == quat_identity_spec(),
            camera_wf(c),
    {
        Camera {
            fovy: 60 * SCALE,
            aperture: 16 * SCALE,
            shutter_speed: SCALE / 100,
            iso: 100 * SCALE,
            position: Vec3 { x: 0, y: 0, z: 0 },
            rotation: quat_identity(),
        }
    }
}

/// Quaternion of the rotation by `pitch` about x and `yaw` about y, roll
/// zero, composed from the half-angle sines and cosines.
pub open spec fn quat_from_euler_spec(pitch: int, yaw: int) -> Quat {
    let s1 = sin_deg_spec(tdiv(pitch, 2));
    let c1 = cos_deg_spec(tdiv(pitch, 2));
    let s2 = sin_deg_spec(tdiv(yaw, 2));
    let c2 = cos_deg_spec(tdiv(yaw, 2));
    Quat {
        w: fxm(c1, c2) as i128,
        x: fxm(s1, c2) as i128,
        y: fxm(c1, s2) as i128,
        z: fxm(s1, s2) as i128,
    }
}

/// Rebuild the orientation quaternion from accumulated pitch and yaw.
pub fn quat_from_euler(pitch: i128, yaw: i128) -> (q: Quat)
    requires
        -DEG360 <= pitch <= DEG360,
        -DEG360 <= yaw <= DEG360,
    ensures
        q == quat_from_euler_spec(pitch as int, yaw as int),
        quat_wf(q),
{
    let h1: i128 = pitch / 2;
    let h2: i128 = yaw / 2;
    let s1: i128 = sin_deg(h1);
    let c1: i128 = cos_deg(h1);
    let s2: i128 = sin_deg(h2);
    let c2: i128 = cos_deg(h2);
    proof {
        let s = SCALE as int;
        lemma_fxm_mag(c1 as int, c2 as int, s, s);
        lemma_fxm_mag(s1 as int, c2 as int, s, s);
        lemma_fxm_mag(c1 as int, s2 as int, s, s);
        lemma_fxm_mag(s1 as int, s2 as int, s, s);
    }
    Quat {
        w: fx_mul(c1, c2),
        x: fx_mul(s1, c2),
        y: fx_mul(c1, s2),
        z: fx_mul(s1, s2),
    }
}

/// The rotation matrix of a quaternion.
pub open spec fn rot_mat_spec(q: Quat) -> Mat4 {
    let w = q.w as int;
    let x = q.x as int;
    let y = q.y as int;
    let z = q.z as int;
    Mat4 {
        m00: (SCALE - 2 * fxm(y, y) - 2 * fxm(z, z)) as i128,
        m01: (2 * fxm(x, y) - 2 * fxm(w, z)) as i128,
        m02: (2 * fxm(x, z) + 2 * fxm(w, y)) as i128,
        m03: 0,
        m10: (2 * fxm(x, y) + 2 * fxm(w, z)) as i128,
        m11: (SCALE - 2 * fxm(x, x) - 2 * fxm(z, z)) as i128,
        m12: (2 * fxm(y, z) - 2 * fxm(w, x)) as i128,
        m13: 0,
        m20: (2 * fxm(x, z) - 2 * fxm(w, y)) as i128,
        m21: (2 * fxm(y, z) + 2 * fxm(w, x)) as i128,
        m22: (SCALE - 2 * fxm(x, x) - 2 * fxm(y, y)) as i128,
        m23: 0,
        m30: 0,
        m31: 0,
        m32: 0,
        m33: SCALE,
    }
}

/// The rotation matrix of a quaternion.
pub fn rot_mat(q: Quat) -> (r: Mat4)
    requires
        quat_wf(q),
    ensures
        r == rot_mat_spec(q),
        mat_mag_le(r, ROTATION_ENTRY_LIMIT as int),
{
    proof {
        let s = SCALE as int;
        lemma_fxm_mag(q.x as int, q.x as int, s, s);
        lemma_fxm_mag(q.y as int, q.y as int, s, s);
        lemma_fxm_mag(q.z as int, q.z as int, s, s);
        lemma_fxm_mag(q.x as int, q.y as int, s, s);
        lemma_fxm_mag(q.x as int, q.z as int, s, s);
        lemma_fxm_mag(q.y as int, q.z as int, s, s);
        lemma_fxm_mag(q.w as int, q.x as int, s, s);
        lemma_fxm_mag(q.w as int, q.y as int, s, s);
        lemma_fxm_mag(q.w as int, q.z as int, s, s);
    }
    let xx: i128 = fx_mul(q.x, q.x);
    let yy: i128 = fx_mul(q.y, q.y);
    let zz: i128 = fx_mul(q.z, q.z);
    let xy: i128 = fx_mul(q.x, q.y);
    let xz: i128 = fx_mul(q.x, q.z);
    let yz: i128 = fx_mul(q.y, q.z);
    let wx: i128 = fx_mul(q.w, q.x);
    let wy: i128 = fx_mul(q.w, q.y);
    let wz: i128 = fx_mul(q.w, q.z);
    Mat4 {
        m00: SCALE - 2 * yy - 2 * zz,
        m01: 2 * xy - 2 * wz,
        m02: 2 * xz + 2 * wy,
        m03: 0,
        m10: 2 * xy + 2 * wz,
        m11: SCALE - 2 * xx - 2 * zz,
        m12: 2 * yz - 2 * wx,
        m13: 0,
        m20: 2 * xz - 2 * wy,
        m21: 2 * yz + 2 * wx,
        m22: SCALE - 2 * xx - 2 * yy,
        m23: 0,
        m30: 0,
        m31: 0,
        m32: 0,
        m33: SCALE,
    }
}

/// The view matrix: the rotation matrix times the translation by the
/// negated position, in that order.
pub open spec fn view_spec(c: Camera) -> Mat4 {
    mat_mul_spec(rot_mat_spec(c.rotation), translate_spec(vec3_neg_spec(c.position)))
}

impl Camera {
    /// The view matrix of this camera's pose.
    pub fn get_view(&self) -> (r: Mat4)
        requires
            camera_wf(*self),
        ensures
            r == view_spec(*self),
            mat_mag_le(r, VIEW_ENTRY_LIMIT as int),
    {
        let rm: Mat4 = rot_mat(self.rotation);
        let tm: Mat4 = translate(vec3_neg(self.position));
        proof {
            lemma_mat_mul_mag(rm, tm, ROTATION_ENTRY_LIMIT as int, POSITION_LIMIT as int);
        }
        mat_mul(&rm, &tm)
    }
}

/// With the identity orientation the view matrix is exactly the
/// translation by the negated position, its fixed-point determinant is
/// exactly one unit, and its inverse is exactly the translation back by
/// the position — the translation-times-conjugated-rotation form, here in
/// the case where the fixed-point arithmetic is exact. For general
/// rotations the truncating arithmetic does not keep that round trip
/// exact; [`lemma_yaw_view_determinant`] states what still holds of the
/// determinant.
#[verifier::rlimit(100)]
pub proof fn lemma_identity_view_inverse(c: Camera)
    requires
        camera_wf(c),
        c.rotation == quat_identity_spec(),
    ensures
        view_spec(c) == translate_spec(vec3_neg_spec(c.position)),
        det4_spec(view_spec(c)) == SCALE,
        is_inverse4(translate_spec(c.position), view_spec(c)),
{
    let tx = vec3_neg_spec(c.position).x as int;
    let ty = vec3_neg_spec(c.position).y as int;
    let tz = vec3_neg_spec(c.position).z as int;
    lemma_fxm_zero(0);
    lemma_fxm_zero(SCALE as int);
    lemma_fxm_zero(-(SCALE as int));
    lemma_fxm_zero(tx);
    lemma_fxm_zero(ty);
    lemma_fxm_zero(tz);
    lemma_fxm_zero(-tx);
    lemma_fxm_zero(-ty);
    lemma_fxm_zero(-tz);
    lemma_fxm_scale(0);
    lemma_fxm_scale(SCALE as int);
    lemma_fxm_scale(-(SCALE as int));
    lemma_fxm_scale(tx);
    lemma_fxm_scale(ty);
    lemma_fxm_scale(tz);
    lemma_fxm_scale(-tx);
    lemma_fxm_scale(-ty);
    lemma_fxm_scale(-tz);
    assert(rot_mat_spec(c.rotation) == identity_spec());
    let v = view_spec(c);
    let t = translate_spec(vec3_neg_spec(c.position));
    assert(v.m00 == t.m00 && v.m01 == t.m01 && v.m02 == t.m02 && v.m03 == t.m03);
    assert(v.m10 == t.m10 && v.m11 == t.m11 && v.m12 == t.m12 && v.m13 == t.m13);
    assert(v.m20 == t.m20 && v.m21 == t.m21 && v.m22 == t.m22 && v.m23 == t.m23);
    assert(v.m30 == t.m30 && v.m31 == t.m31 && v.m32 == t.m32 && v.m33 == t.m33);
    assert(minor00(t) == SCALE && minor01(t) == 0 && minor02(t) == 0 && minor03(t) == 0);
    assert(minor10(t) == 0 && minor11(t) == SCALE && minor12(t) == 0 && minor13(t) == 0);
    assert(minor20(t) == 0 && minor21(t) == 0 && minor22(t) == SCALE && minor23(t) == 0);
    assert(minor30(t) == tx && minor31(t) == -ty && minor32(t) == tz && minor33(t) == SCALE);
    lemma_fxm_zero(minor01(t));
    lemma_fxm_zero(minor02(t));
    lemma_fxm_zero(minor03(t));
    assert(det4_spec(t) == SCALE);
    assert(is_inverse4(translate_spec(c.position), t));
}

/// For every camera pose the view matrix is exactly the rotation matrix of
/// the orientation multiplied by the translation to the negated position:
/// rotation is applied after the world moves to camera-relative coordinates.
pub proof fn lemma_view_rotates_then_translates(c: Camera)
    ensures
        view_spec(c) == mat_mul_spec(
            rot_mat_spec(c.rotation),
            translate_spec(vec3_neg_spec(c.position)),
        ),
{
}

/// A yaw-only rotation leaves the y axis fixed: its matrix has a pure
/// y-rotation shape, with equal diagonal x/z entries and skew-symmetric
/// off-diagonal x/z entries.
pub proof fn lemma_yaw_only_rotation(q: Quat)
    requires
        quat_wf(q),
        q.x == 0,
        q.z == 0,
    ensures
        rot_mat_spec(q).m01 == 0,
        rot_mat_spec(q).m10 == 0,
        rot_mat_spec(q).m12 == 0,
        rot_mat_spec(q).m21 == 0,
        rot_mat_spec(q).m11 == SCALE,
        rot_mat_spec(q).m00 == rot_mat_spec(q).m22,
        rot_mat_spec(q).m02 == -rot_mat_spec(q).m20,
{
    let s = SCALE as int;
    lemma_fxm_mag(q.y as int, q.y as int, s, s);
    lemma_fxm_mag(q.w as int, q.y as int, s, s);
    assert(fxm(0, q.y as int) == 0);
    assert(fxm(0, 0) == 0);
    assert(fxm(q.x as int, q.x as int) == 0);
    assert(fxm(q.w as int, q.z as int) == 0);
    assert(fxm(q.x as int, q.y as int) == 0);
    assert(fxm(q.x as int, q.z as int) == 0);
    assert(fxm(q.y as int, q.z as int) == 0);
    assert(fxm(q.w as int, q.x as int) == 0);
}

/// For a yaw-only pose the fixed-point determinant of the view matrix is
/// exactly the sum of the squares of the two planar rotation entries,
/// independent of the position: the view matrix is non-singular whenever
/// either entry reaches a thousandth of a unit, which every orientation
/// away from the quantisation floor satisfies. This is the fixed-point
/// shape of the real-arithmetic fact that a rotate-then-translate matrix
/// is always invertible.
#[verifier::rlimit(100)]
pub proof fn lemma_yaw_view_determinant(c: Camera)
    requires
        camera_wf(c),
        c.rotation.x == 0,
        c.rotation.z == 0,
    ensures
        det4_spec(view_spec(c)) == fxm(rot_mat_spec(c.rotation).m00 as int,
            rot_mat_spec(c.rotation).m00 as int) + fxm(rot_mat_spec(c.rotation).m02 as int,
            rot_mat_spec(c.rotation).m02 as int),
        mag(rot_mat_spec(c.rotation).m00 as int) >= 1000 || mag(
            rot_mat_spec(c.rotation).m02 as int,
        ) >= 1000 ==> det4_spec(view_spec(c)) != 0,
{
    lemma_yaw_only_rotation(c.rotation);
    let s = SCALE as int;
    lemma_fxm_mag(c.rotation.y as int, c.rotation.y as int, s, s);
    lemma_fxm_mag(c.rotation.w as int, c.rotation.y as int, s, s);
    let rm = rot_mat_spec(c.rotation);
    let cp = rm.m00 as int;
    let sp = rm.m02 as int;
    let t = translate_spec(vec3_neg_spec(c.position));
    let tx = t.m03 as int;
    let ty = t.m13 as int;
    let tz = t.m23 as int;
    let v = view_spec(c);
    lemma_fxm_zero(0);
    lemma_fxm_zero(s);
    lemma_fxm_zero(cp);
    lemma_fxm_zero(sp);
    lemma_fxm_zero(-sp);
    lemma_fxm_zero(tx);
    lemma_fxm_zero(ty);
    lemma_fxm_zero(tz);
    lemma_fxm_scale(0);
    lemma_fxm_scale(s);
    lemma_fxm_scale(cp);
    lemma_fxm_scale(sp);
    lemma_fxm_scale(-sp);
    lemma_fxm_scale(tx);
    lemma_fxm_scale(ty);
    lemma_fxm_scale(tz);
    assert(rm.m20 as int == -sp && rm.m22 as int == cp);
    assert(v.m00 as int == cp && v.m01 == 0 && v.m02 as int == sp);
    assert(v.m10 == 0 && v.m11 == SCALE && v.m12 == 0 && v.m13 as int == ty);
    assert(v.m20 as int == -sp && v.m21 == 0 && v.m22 as int == cp);
    assert(v.m30 == 0 && v.m31 == 0 && v.m32 == 0 && v.m33 == SCALE);
    lemma_fxm_zero(v.m03 as int);
    lemma_fxm_zero(v.m23 as int);
    lemma_fxm_zero(minor01(v));
    assert(minor00(v) == cp);
    assert(minor02(v) == sp);
    assert(minor03(v) == 0);
    assert(det4_spec(v) == fxm(cp, cp) + fxm(sp, sp));
    lemma_fxm_square(cp);
    lemma_fxm_square(sp);
}

/// Half of the field-of-view angle.
pub open spec fn half_fov(fovy: int) -> int {
    tdiv(fovy, 2)
}

/// Focal scale: the cotangent of half the field of view.
pub open spec fn focal_spec(fovy: int) -> int {
    fxd(cos_deg_spec(half_fov(fovy)), sin_deg_spec(half_fov(fovy)))
}

/// First diagonal entry of the projection: focal scale over aspect ratio.
pub open spec fn proj_m00_spec(fovy: int, aspect: int) -> int {
    fxd(focal_spec(fovy), aspect)
}

/// Depth-mapping diagonal entry of the projection.
pub open spec fn proj_m22_spec(near: int, far: int) -> int {
    fxd(far + near, near - far)
}

/// Depth-mapping translation entry of the projection.
pub open spec fn proj_m23_spec(near: int, far: int) -> int {
    fxd(2 * fxm(far, near), near - far)
}

/// The fixed-point determinant of the projection, reduced to the product
/// of its three depth-relevant entries.
pub open spec fn proj_det_spec(fovy: int, aspect: int, near: int, far: int) -> int {
    fxm(proj_m00_spec(fovy, aspect), fxm(focal_spec(fovy), proj_m23_spec(near, far)))
}

/// The error a projection request produces, if any; `None` exactly when the
/// configuration is non-degenerate, every entry stays in range, and the
/// determinant does not truncate to zero — so every accepted projection is
/// non-singular.
pub open spec fn projection_error(fovy: int, aspect: int, near: int, far: int) -> Option<
    RenderError,
> {
    if fovy <= 0 || fovy >= DEG180 as int {
        Some(RenderError::InvalidFov)
    } else if aspect <= 0 {
        Some(RenderError::InvalidAspect)
    } else if near <= 0 || far <= 0 || near == far {
        Some(RenderError::InvalidPlanes)
    } else if sin_deg_spec(half_fov(fovy)) == 0 {
        Some(RenderError::InvalidFov)
    } else if mag(proj_m00_spec(fovy, aspect)) > PROJECTION_ENTRY_LIMIT as int || mag(
        focal_spec(fovy),
    ) > PROJECTION_ENTRY_LIMIT as int || mag(proj_m22_spec(near, far))
        > PROJECTION_ENTRY_LIMIT as int || mag(proj_m23_spec(near, far))
        > PROJECTION_ENTRY_LIMIT as int {
        Some(RenderError::OutOfRange)
    } else if proj_det_spec(fovy, aspect, near, far) == 0 {
        Some(RenderError::OutOfRange)
    } else {
        None
    }
}

/// A projection request whose near and far planes coincide is always
/// rejected: the singular configuration triggers the fatal path
/// deterministically, whatever the other parameters are.
pub proof fn lemma_projection_rejects_coincident_planes(fovy: int, aspect: int, near: int)
    ensures
        projection_error(fovy, aspect, near, near) is Some,
{
}

/// The perspective projection matrix.
pub open spec fn projection_spec(fovy: int, aspect: int, near: int, far: int) -> Mat4 {
    Mat4 {
        m00: proj_m00_spec(fovy, aspect) as i128,
        m01: 0,
        m02: 0,
        m03: 0,
        m10: 0,
        m11: focal_spec(fovy) as i128,
        m12: 0,
        m13: 0,
        m20: 0,
        m21: 0,
        m22: proj_m22_spec(near, far) as i128,
        m23: proj_m23_spec(near, far) as i128,
        m30: 0,
        m31: 0,
        m32: (-SCALE) as i128,
        m33: 0,
    }
}

/// The determinant of a matrix with the perspective-projection shape
/// reduces to the product of the two focal entries and the depth
/// translation entry.
pub proof fn lemma_projection_det(m: Mat4)
    requires
        m.m01 == 0,
        m.m02 == 0,
        m.m03 == 0,
        m.m10 == 0,
        m.m12 == 0,
        m.m13 == 0,
        m.m20 == 0,
        m.m21 == 0,
        m.m30 == 0,
        m.m31 == 0,
        m.m32 == -SCALE,
        m.m33 == 0,
    ensures
        det4_spec(m) == fxm(m.m00 as int, fxm(m.m11 as int, m.m23 as int)),
{
    lemma_fxm_zero(0);
    lemma_fxm_zero(m.m00 as int);
    lemma_fxm_zero(m.m11 as int);
    lemma_fxm_zero(m.m22 as int);
    lemma_fxm_zero(m.m23 as int);
    lemma_fxm_zero(-(SCALE as int));
    lemma_fxm_zero(minor01(m));
    lemma_fxm_zero(minor02(m));
    lemma_fxm_zero(minor03(m));
    lemma_fxm_neg_scale(m.m23 as int);
    assert(minor00(m) == fxm(m.m11 as int, m.m23 as int));
}

/// Build the perspective projection, rejecting every degenerate
/// configuration: the singular cases are detected deterministically, a
/// successful result carries the exact entry formulas, and an accepted
/// projection is never singular.
pub fn projection(fovy: i128, aspect: i128, near: i128, far: i128) -> (r: Result<
    Mat4,
    RenderError,
>)
    requires
        mag(fovy as int) <= CONFIG_LIMIT,
        mag(aspect as int) <= CONFIG_LIMIT,
        mag(near as int) <= CONFIG_LIMIT,
        mag(far as int) <= CONFIG_LIMIT,
    ensures
        r is Ok <==> projection_error(fovy as int, aspect as int, near as int, far as int)
            is None,
        r matches Err(e) ==> projection_error(fovy as int, aspect as int, near as int, far as int)
            == Some(e),
        r matches Ok(m) ==> m == projection_spec(fovy as int, aspect as int, near as int,
            far as int) && mat_mag_le(m, PROJECTION_ENTRY_LIMIT as int) && det4_spec(m) != 0,
{
    if fovy <= 0 || fovy >= DEG180 {
        return Err(RenderError::InvalidFov);
    }
    if aspect <= 0 {
        return Err(RenderError::InvalidAspect);
    }
    if near <= 0 || far <= 0 || near == far {
        return Err(RenderError::InvalidPlanes);
    }
    let h: i128 = fovy / 2;
    let sh: i128 = sin_deg(h);
    let ch: i128 = cos_deg(h);
    if sh == 0 {
        return Err(RenderError::InvalidFov);
    }
    proof {
        lemma_fxd_mag(ch as int, sh as int, SCALE as int);
    }
    let f: i128 = fx_div(ch, sh);
    proof {
        lemma_fxd_mag(f as int, aspect as int, SCALE as int * SCALE as int);
    }
    let m00: i128 = fx_div(f, aspect);
    let sum: i128 = far + near;
    let dif: i128 = near - far;
    proof {
        lemma_fxd_mag(sum as int, dif as int, 2 * CONFIG_LIMIT as int);
        lemma_fxm_mag(far as int, near as int, CONFIG_LIMIT as int, CONFIG_LIMIT as int);
    }
    let m22: i128 = fx_div(sum, dif);
    let t: i128 = fx_mul(far, near);
    proof {
        lemma_fxd_mag(2 * t as int, dif as int, 2_000_000_000_000_000_000int);
    }
    let m23: i128 = fx_div(2 * t, dif);
    if m00 > PROJECTION_ENTRY_LIMIT || m00 < -PROJECTION_ENTRY_LIMIT || f
        > PROJECTION_ENTRY_LIMIT || f < -PROJECTION_ENTRY_LIMIT || m22 > PROJECTION_ENTRY_LIMIT
        || m22 < -PROJECTION_ENTRY_LIMIT || m23 > PROJECTION_ENTRY_LIMIT || m23
        < -PROJECTION_ENTRY_LIMIT {
        return Err(RenderError::OutOfRange);
    }
    proof {
        lemma_fxm_mag(f as int, m23 as int, PROJECTION_ENTRY_LIMIT as int,
            PROJECTION_ENTRY_LIMIT as int);
    }
    let dscale: i128 = fx_mul(f, m23);
    proof {
        lemma_fxm_mag(m00 as int, dscale as int, PROJECTION_ENTRY_LIMIT as int,
            100_000_000_000_000_000_000int);
    }
    let det: i128 = fx_mul(m00, dscale);
    if det == 0 {
        return Err(RenderError::OutOfRange);
    }
    let result = Mat4 {
        m00,
        m01: 0,
        m02: 0,
        m03: 0,
        m10: 0,
        m11: f,
        m12: 0,
        m13: 0,
        m20: 0,
        m21: 0,
        m22,
        m23,
        m30: 0,
        m31: 0,
        m32: -SCALE,
        m33: 0,
    };
    proof {
        lemma_projection_det(result);
    }
    Ok(result)
}

/// The fixed-point aspect ratio of a viewport.
pub open spec fn aspect_spec(width: int, height: int) -> int {
    fxd(width * SCALE as int, height * SCALE as int)
}

impl Camera {
    /// The perspective projection of this camera for a viewport, with the
    /// fixed clip planes at 0.02 and 512 units.
    pub fn get_proj(&self, width: u32, height: u32) -> (r: Result<Mat4, RenderError>)
        requires
            camera_wf(*self),
            1 <= width <= MAX_VIEWPORT,
            1 <= height <= MAX_VIEWPORT,
        ensures
            r is Ok <==> projection_error(self.fovy as int, aspect_spec(width as int,
                height as int), NEAR_PLANE as int, FAR_PLANE as int) is None,
            r matches Err(e) ==> projection_error(self.fovy as int, aspect_spec(width as int,
                height as int), NEAR_PLANE as int, FAR_PLANE as int) == Some(e),
            r matches Ok(m) ==> m == projection_spec(self.fovy as int, aspect_spec(width as int,
                height as int), NEAR_PLANE as int, FAR_PLANE as int) && mat_mag_le(m,
                PROJECTION_ENTRY_LIMIT as int) && det4_spec(m) != 0,
    {
        let wfx: i128 = (width as i128) * SCALE;
        let hfx: i128 = (height as i128) * SCALE;
        proof {
            let ws = wfx as int * SCALE as int;
            lemma_div_pos_is_pos(ws, hfx as int);
            lemma_div_is_ordered_by_denominator(ws, SCALE as int, hfx as int);
            lemma_div_multiples_vanish(wfx as int, SCALE as int);
            assert(ws == SCALE as int * wfx as int);
        }
        let aspect: i128 = fx_div(wfx, hfx);
        projection(self.fovy, aspect, NEAR_PLANE, FAR_PLANE)
    }
}

} // verus!
