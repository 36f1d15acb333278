use sdf_renderer::camera::{
    Camera, Quat, quat_identity, quat_from_euler, rot_mat, projection, NEAR_PLANE, FAR_PLANE,
};
use sdf_renderer::error::RenderError;
use sdf_renderer::fixed::{SCALE, DEG90};
use sdf_renderer::mat::{Vec3, mat_mul, translate, vec3_neg, invert4};
use sdf_renderer::quad::{Vertex, VertexPosition, VertexUV, get_screen_rect};
use sdf_renderer::volume::{
    DeviceLimits, get_3d_texture, get_workgroup_count, get_workgroup_size,
    get_workgroup_invocations,
};

fn limits() -> DeviceLimits {
    DeviceLimits {
        max_texture_size: 2048,
        max_group_count_x: 65535,
        max_group_count_y: 65535,
        max_group_count_z: 65535,
        max_group_size_x: 1024,
        max_group_size_y: 1024,
        max_group_size_z: 64,
        max_invocations: 1024,
    }
}

#[test]
fn default_camera_matches_the_documented_configuration() {
    let c = Camera::default();
    assert_eq!(c.fovy, 60 * SCALE);
    assert_eq!(c.aperture, 16 * SCALE);
    assert_eq!(c.shutter_speed, SCALE / 100);
    assert_eq!(c.iso, 100 * SCALE);
    assert_eq!(c.position, Vec3 { x: 0, y: 0, z: 0 });
    assert_eq!(c.rotation, quat_identity());
}

#[test]
fn camera_new_stores_every_parameter() {
    let p = Vec3 { x: 1, y: 2, z: 3 };
    let q = quat_identity();
    let c = Camera::new(90 * SCALE, 8 * SCALE, 20_000, 400 * SCALE, p, q);
    assert_eq!(c.fovy, 90 * SCALE);
    assert_eq!(c.aperture, 8 * SCALE);
    assert_eq!(c.shutter_speed, 20_000);
    assert_eq!(c.iso, 400 * SCALE);
    assert_eq!(c.position, p);
    assert_eq!(c.rotation, q);
}

#[test]
fn view_with_identity_rotation_is_the_negated_translation() {
    let mut c = Camera::default();
    c.position = Vec3 { x: 5_000_000, y: -1_000_000, z: 2_000_000 };
    let view = c.get_view();
    assert_eq!(view, translate(vec3_neg(c.position)));
}

#[test]
fn view_at_yaw_ninety_is_rotation_times_translation() {
    let q = quat_from_euler(0, DEG90);
    assert_eq!(q, Quat { w: 705_882, x: 0, y: 705_882, z: 0 });
    let p = Vec3 { x: 1_000_000, y: 2_000_000, z: 3_000_000 };
    let mut c = Camera::default();
    c.position = p;
    c.rotation = q;
    let view = c.get_view();
    // The manually computed reference: rotation entries from the quaternion,
    // last column the rotated negated position.
    assert_eq!(view, mat_mul(&rot_mat(q), &translate(vec3_neg(p))));
    assert_eq!(view.m00, 3_462);
    assert_eq!(view.m02, 996_538);
    assert_eq!(view.m20, -996_538);
    assert_eq!(view.m22, 3_462);
    assert_eq!(view.m11, SCALE);
    assert_eq!(view.m01, 0);
    assert_eq!(view.m10, 0);
    assert_eq!(view.m03, -3_462 - 2_989_614);
    assert_eq!(view.m13, -2_000_000);
    assert_eq!(view.m23, 996_538 - 10_386);
    assert_eq!(view.m33, SCALE);
}

#[test]
fn projection_at_ninety_degrees_has_unit_focal_scale() {
    let m = projection(90 * SCALE, SCALE, NEAR_PLANE, FAR_PLANE).expect("non-degenerate");
    assert_eq!(m.m00, SCALE);
    assert_eq!(m.m11, SCALE);
    assert_eq!(m.m22, -1_000_078);
    assert_eq!(m.m23, -40_001);
    assert_eq!(m.m32, -SCALE);
    assert_eq!(m.m33, 0);
    assert_eq!(m.m01, 0);
    assert_eq!(m.m30, 0);
}

#[test]
fn projection_rejects_coincident_planes() {
    assert_eq!(
        projection(60 * SCALE, SCALE, 20_000, 20_000),
        Err(RenderError::InvalidPlanes)
    );
}

#[test]
fn projection_rejects_degenerate_fov_and_aspect() {
    assert_eq!(projection(0, SCALE, NEAR_PLANE, FAR_PLANE), Err(RenderError::InvalidFov));
    assert_eq!(
        projection(180 * SCALE, SCALE, NEAR_PLANE, FAR_PLANE),
        Err(RenderError::InvalidFov)
    );
    assert_eq!(
        projection(60 * SCALE, 0, NEAR_PLANE, FAR_PLANE),
        Err(RenderError::InvalidAspect)
    );
    assert_eq!(
        projection(60 * SCALE, SCALE, -20_000, FAR_PLANE),
        Err(RenderError::InvalidPlanes)
    );
}

#[test]
fn projection_rejects_fov_at_the_resolution_edge() {
    // Just below 180 degrees the focal scale truncates to zero; instead of
    // returning a singular matrix the request is rejected.
    assert_eq!(
        projection(179_999_900, SCALE, NEAR_PLANE, FAR_PLANE),
        Err(RenderError::OutOfRange)
    );
}

#[test]
fn default_pose_projection_view_is_invertible() {
    let c = Camera::default();
    let proj = c.get_proj(1280, 720).expect("default projection");
    let view = c.get_view();
    let pv = mat_mul(&proj, &view);
    assert!(invert4(&pv).is_some());
}

#[test]
fn volume_creation_zeroes_the_minimum_volume() {
    let v = get_3d_texture(&limits(), 0, 1, 1, 1).expect("1x1x1 fits");
    assert_eq!(v.width, 1);
    assert_eq!(v.height, 1);
    assert_eq!(v.depth, 1);
    assert_eq!(v.data.len(), 1);
    assert_eq!(v.voxel(0, 0, 0), 0);
    assert!(!v.filled);
}

#[test]
fn volume_creation_zeroes_a_large_volume() {
    let v = get_3d_texture(&limits(), 0, 512, 512, 512).expect("512 cube fits");
    assert_eq!(v.data.len(), 512 * 512 * 512);
    assert_eq!(v.voxel(0, 0, 0), 0);
    assert_eq!(v.voxel(511, 511, 511), 0);
    assert_eq!(v.voxel(256, 31, 480), 0);
}

#[test]
fn volume_creation_rejects_out_of_range_dimensions() {
    assert!(matches!(
        get_3d_texture(&limits(), 0, 0, 1, 1),
        Err(RenderError::InvalidTextureSize)
    ));
    assert!(matches!(
        get_3d_texture(&limits(), 0, 1, 4096, 1),
        Err(RenderError::InvalidTextureSize)
    ));
    assert!(matches!(
        get_3d_texture(&limits(), 0, 2048, 2048, 2048),
        Err(RenderError::InvalidTextureSize)
    ));
}

#[test]
fn workgroup_limit_getters_report_the_device_limits() {
    let l = limits();
    assert_eq!(get_workgroup_count(&l), (65535, 65535, 65535));
    assert_eq!(get_workgroup_size(&l), (1024, 1024, 64));
    assert_eq!(get_workgroup_invocations(&l), 1024);
}

#[test]
fn screen_rect_is_the_full_viewport_fan() {
    let verts = get_screen_rect();
    assert_eq!(verts.len(), 4);
    assert_eq!(
        verts[0],
        Vertex {
            position: VertexPosition { x: -SCALE, y: -SCALE, z: 0 },
            uv: VertexUV { u: 0, v: SCALE },
        }
    );
    assert_eq!(
        verts[1],
        Vertex {
            position: VertexPosition { x: SCALE, y: -SCALE, z: 0 },
            uv: VertexUV { u: SCALE, v: SCALE },
        }
    );
    assert_eq!(
        verts[2],
        Vertex {
            position: VertexPosition { x: SCALE, y: SCALE, z: 0 },
            uv: VertexUV { u: SCALE, v: 0 },
        }
    );
    assert_eq!(
        verts[3],
        Vertex {
            position: VertexPosition { x: -SCALE, y: SCALE, z: 0 },
            uv: VertexUV { u: 0, v: 0 },
        }
    );
}
