use sdf_renderer::camera::Camera;
use sdf_renderer::error::RenderError;
use sdf_renderer::fixed::SCALE;
use sdf_renderer::frame::{
    Event, PolledEvent, KeyState, LoopState, FrameInput, FrameFlow, frame, run_loop,
};
use sdf_renderer::gpu::{
    GpuDevice, GpuOp, ComputeBuildReport, GraphicsBuildReport, GraphicsProgram,
    get_compute_program, get_program, initialize, create_volume, dispatch, draw, clear, present,
    check_barrier_protocol,
};
use sdf_renderer::volume::DeviceLimits;

fn limits() -> DeviceLimits {
    DeviceLimits {
        max_texture_size: 512,
        max_group_count_x: 65535,
        max_group_count_y: 65535,
        max_group_count_z: 65535,
        max_group_size_x: 1024,
        max_group_size_y: 1024,
        max_group_size_z: 64,
        max_invocations: 1024,
    }
}

fn no_keys() -> KeyState {
    KeyState { forward: false, back: false, left: false, right: false }
}

fn graphics_program() -> GraphicsProgram {
    get_program(
        &GraphicsBuildReport {
            handle: 7,
            vertex_ok: true,
            fragment_ok: true,
            link_ok: true,
            sampler_location: 3,
            inv_pv_location: 4,
        },
    ).expect("graphics build")
}

#[test]
fn shader_build_failures_are_fatal_and_classified() {
    let compile_failed = ComputeBuildReport {
        handle: 1,
        compile_ok: false,
        link_ok: true,
        image_output_location: 0,
    };
    assert_eq!(get_compute_program(&compile_failed), Err(RenderError::ShaderCompile));
    let link_failed = ComputeBuildReport {
        handle: 1,
        compile_ok: true,
        link_ok: false,
        image_output_location: 0,
    };
    assert_eq!(get_compute_program(&link_failed), Err(RenderError::ProgramLink));
    let good = ComputeBuildReport {
        handle: 9,
        compile_ok: true,
        link_ok: true,
        image_output_location: 2,
    };
    let p = get_compute_program(&good).expect("compute build");
    assert_eq!(p.handle, 9);
    assert_eq!(p.image_output_location, 2);

    let bad_fragment = GraphicsBuildReport {
        handle: 3,
        vertex_ok: true,
        fragment_ok: false,
        link_ok: true,
        sampler_location: 0,
        inv_pv_location: 1,
    };
    assert_eq!(get_program(&bad_fragment), Err(RenderError::ShaderCompile));
}

#[test]
fn dispatch_records_the_mandated_sequence_ending_in_a_barrier() {
    let mut dev = GpuDevice::new();
    initialize(&mut dev);
    let mut vol = create_volume(&mut dev, &limits(), 64, 64, 64).expect("volume");
    let program = get_compute_program(
        &ComputeBuildReport { handle: 5, compile_ok: true, link_ok: true, image_output_location: 1 },
    ).expect("compute build");
    let before = dev.ops.len();
    dispatch(&mut dev, &limits(), &program, &mut vol, 8, 8, 8).expect("dispatch fits");
    assert!(vol.filled);
    assert_eq!(
        &dev.ops[before..],
        &[
            GpuOp::UseProgram { handle: 5 },
            GpuOp::ActiveTexture { unit: 0 },
            GpuOp::BindTexture3d { id: vol.id },
            GpuOp::UniformInt { location: 1, value: 0 },
            GpuOp::DispatchCompute { texture: vol.id, groups_x: 8, groups_y: 8, groups_z: 8 },
            GpuOp::MemoryBarrierImageAccess,
        ]
    );
    assert!(check_barrier_protocol(&dev.ops));
}

#[test]
fn dispatch_rejects_work_groups_beyond_the_device_limits() {
    let mut dev = GpuDevice::new();
    let mut vol = create_volume(&mut dev, &limits(), 64, 64, 64).expect("volume");
    let program = get_compute_program(
        &ComputeBuildReport { handle: 5, compile_ok: true, link_ok: true, image_output_location: 1 },
    ).expect("compute build");
    let before = dev.ops.clone();
    assert_eq!(
        dispatch(&mut dev, &limits(), &program, &mut vol, 0, 8, 8),
        Err(RenderError::DispatchTooLarge)
    );
    assert_eq!(
        dispatch(&mut dev, &limits(), &program, &mut vol, 8, 70000, 8),
        Err(RenderError::DispatchTooLarge)
    );
    assert_eq!(dev.ops, before);
    assert!(!vol.filled);
}

#[test]
fn omitting_the_barrier_is_flagged_as_a_protocol_violation() {
    let missing = vec![
        GpuOp::DispatchCompute { texture: 1, groups_x: 1, groups_y: 1, groups_z: 1 },
        GpuOp::DrawQuad { texture: 1 },
    ];
    assert!(!check_barrier_protocol(&missing));
    let with_barrier = vec![
        GpuOp::DispatchCompute { texture: 1, groups_x: 1, groups_y: 1, groups_z: 1 },
        GpuOp::MemoryBarrierImageAccess,
        GpuOp::DrawQuad { texture: 1 },
    ];
    assert!(check_barrier_protocol(&with_barrier));
    let other_texture = vec![
        GpuOp::DispatchCompute { texture: 1, groups_x: 1, groups_y: 1, groups_z: 1 },
        GpuOp::DrawQuad { texture: 2 },
    ];
    assert!(check_barrier_protocol(&other_texture));
}

#[test]
fn overlay_claimed_events_never_reach_the_camera_handling() {
    let mut s = LoopState::new(Camera::default());
    s.move_mouse = true;
    let before = s;
    s.process_event(Event::MouseMotion { xrel: 50, yrel: -20 }, true);
    assert_eq!(s, before);
    s.process_event(Event::Quit, true);
    assert_eq!(s, before);
    s.process_event(Event::MouseButtonUp, true);
    assert_eq!(s, before);
}

#[test]
fn unclaimed_events_steer_the_camera_state() {
    let mut s = LoopState::new(Camera::default());
    s.process_event(Event::MouseButtonDown, false);
    assert!(s.move_mouse);
    s.process_event(Event::MouseMotion { xrel: 50, yrel: -20 }, false);
    assert_eq!(s.cam_rot_y, 5_000_000);
    assert_eq!(s.cam_rot_x, 358_000_000);
    s.process_event(Event::MouseButtonUp, false);
    assert!(!s.move_mouse);
    s.process_event(Event::MouseMotion { xrel: 50, yrel: -20 }, false);
    assert_eq!(s.cam_rot_y, 5_000_000);
    s.process_event(Event::Quit, false);
    assert!(!s.running);
}

#[test]
fn held_forward_key_for_one_second_moves_exactly_the_speed_constant() {
    let mut s = LoopState::new(Camera::default());
    let keys = KeyState { forward: true, back: false, left: false, right: false };
    for _ in 0..10 {
        s.update_movement(keys, 100_000);
    }
    assert_eq!(s.camera.position.z, -35 * SCALE);
    assert_eq!(s.camera.position.x, 0);
    assert_eq!(s.camera.position.y, 0);
}

fn render_setup() -> (GpuDevice, sdf_renderer::volume::VolumeTexture, GraphicsProgram) {
    let mut dev = GpuDevice::new();
    initialize(&mut dev);
    let mut vol = create_volume(&mut dev, &limits(), 64, 64, 64).expect("volume");
    let compute = get_compute_program(
        &ComputeBuildReport { handle: 5, compile_ok: true, link_ok: true, image_output_location: 1 },
    ).expect("compute build");
    dispatch(&mut dev, &limits(), &compute, &mut vol, 8, 8, 8).expect("dispatch");
    (dev, vol, graphics_program())
}

fn plain_input(events: Vec<PolledEvent>) -> FrameInput {
    FrameInput {
        target_available: true,
        events,
        keys: no_keys(),
        delta: 16_000,
        width: 1280,
        height: 720,
    }
}

#[test]
fn a_rendered_frame_records_clear_draw_present_in_order() {
    let (mut dev, vol, program) = render_setup();
    let mut s = LoopState::new(Camera::default());
    let before = dev.ops.len();
    let flow = frame(&mut s, &mut dev, &program, &vol, &plain_input(vec![])).expect("frame");
    assert!(matches!(flow, FrameFlow::Continue { .. }));
    let appended = &dev.ops[before..];
    assert_eq!(appended[0], GpuOp::Clear { red: 127, green: 103, blue: 181, alpha: 255 });
    assert_eq!(appended[1], GpuOp::UseProgram { handle: 7 });
    assert_eq!(appended[appended.len() - 2], GpuOp::DrawQuad { texture: vol.id });
    assert_eq!(appended[appended.len() - 1], GpuOp::Present);
    assert!(check_barrier_protocol(&dev.ops));
}

#[test]
fn a_quit_event_stops_the_loop_without_presenting() {
    let (mut dev, vol, program) = render_setup();
    let mut s = LoopState::new(Camera::default());
    let before = dev.ops.clone();
    let input = plain_input(vec![
        PolledEvent { event: Event::MouseButtonDown, claimed_by_overlay: false },
        PolledEvent { event: Event::Quit, claimed_by_overlay: false },
        PolledEvent { event: Event::MouseButtonUp, claimed_by_overlay: false },
    ]);
    let flow = frame(&mut s, &mut dev, &program, &vol, &input).expect("frame");
    assert_eq!(flow, FrameFlow::Quit);
    assert!(!s.running);
    assert_eq!(dev.ops, before);
    // The event after the quit was never processed.
    assert!(s.move_mouse);
}

#[test]
fn a_claimed_quit_event_does_not_stop_the_loop() {
    let (mut dev, vol, program) = render_setup();
    let mut s = LoopState::new(Camera::default());
    let input = plain_input(vec![
        PolledEvent { event: Event::Quit, claimed_by_overlay: true },
    ]);
    let flow = frame(&mut s, &mut dev, &program, &vol, &input).expect("frame");
    assert!(matches!(flow, FrameFlow::Continue { .. }));
    assert!(s.running);
}

#[test]
fn an_unavailable_render_target_is_fatal() {
    let (mut dev, vol, program) = render_setup();
    let mut s = LoopState::new(Camera::default());
    let mut input = plain_input(vec![]);
    input.target_available = false;
    assert_eq!(
        frame(&mut s, &mut dev, &program, &vol, &input),
        Err(RenderError::NoRenderTarget)
    );
}

#[test]
fn the_loop_presents_only_frames_before_the_quit() {
    let (mut dev, vol, program) = render_setup();
    let mut s = LoopState::new(Camera::default());
    let presents_before =
        dev.ops.iter().filter(|op| matches!(op, GpuOp::Present)).count();
    let frames = vec![
        plain_input(vec![]),
        plain_input(vec![]),
        plain_input(vec![PolledEvent { event: Event::Quit, claimed_by_overlay: false }]),
        plain_input(vec![]),
    ];
    let rendered = run_loop(&mut s, &mut dev, &program, &vol, &frames).expect("loop");
    assert_eq!(rendered, 2);
    assert!(!s.running);
    let presents_after =
        dev.ops.iter().filter(|op| matches!(op, GpuOp::Present)).count();
    assert_eq!(presents_after, presents_before + 2);
    assert!(check_barrier_protocol(&dev.ops));
}

#[test]
fn the_loop_stops_at_the_first_fatal_frame() {
    let (mut dev, vol, program) = render_setup();
    let mut s = LoopState::new(Camera::default());
    let mut bad = plain_input(vec![]);
    bad.target_available = false;
    let frames = vec![plain_input(vec![]), bad, plain_input(vec![])];
    let r = run_loop(&mut s, &mut dev, &program, &vol, &frames);
    assert_eq!(r, Err(RenderError::NoRenderTarget));
    let presents = dev.ops.iter().filter(|op| matches!(op, GpuOp::Present)).count();
    // Exactly the one clean frame before the failure was presented.
    assert_eq!(presents, 1);
}

#[test]
fn manual_clear_draw_present_keep_the_protocol() {
    let (mut dev, vol, program) = render_setup();
    clear(&mut dev, 127, 103, 181, 255);
    let inverse = sdf_renderer::mat::identity();
    draw(&mut dev, &program, &vol, &inverse);
    present(&mut dev);
    assert!(check_barrier_protocol(&dev.ops));
    assert_eq!(dev.ops[dev.ops.len() - 1], GpuOp::Present);
}
