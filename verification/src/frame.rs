//! The frame loop: event filtering, camera movement, and the strict
//! per-frame phase order.
//!
//! Each tick drains the pending events — an event the overlay claims never
//! reaches the camera handling — then samples the held keys to move the
//! camera yaw-relative, rebuilds the orientation from accumulated pitch
//! and yaw, clears, inverts the projection-view matrix (a singular matrix
//! is fatal), draws, and presents. A quit event ends the loop at once: no
//! frame is presented after it is observed.

use vstd::prelude::*;
use crate::fixed::{
    fxm, fx_mul, sin_deg, cos_deg, sin_deg_spec, cos_deg_spec, wrap_deg, wrap_deg_spec,
    lemma_trig_quadrants, lemma_fxm_scale, SCALE, DEG90, DEG360,
};
use vstd::arithmetic::div_mod::lemma_div_multiples_vanish;
use crate::mat::{
    Vec3, Mat4, mat_mul, mat_mul_spec, mat_mag_le, mat_within, invert4, is_inverse4, det4_spec,
    vec3_mag_le, lemma_fxm_mag, lemma_mat_mul_mag, INVERT_INPUT_LIMIT,
};
use crate::camera::{
    Camera, camera_wf, quat_from_euler, quat_from_euler_spec, view_spec, projection_error,
    projection_spec, aspect_spec, POSITION_LIMIT, PROJECTION_ENTRY_LIMIT, VIEW_ENTRY_LIMIT,
    NEAR_PLANE, FAR_PLANE, MAX_VIEWPORT,
};
use crate::gpu::{
    GpuDevice, GpuOp, GraphicsProgram, device_wf, draw_ops_spec, clear, draw, present,
};
use crate::volume::VolumeTexture;
use crate::error::RenderError;

verus! {

/// Movement speed, in units per second.
pub const SPEED: i128 = 35_000_000;

/// Largest frame delta accepted, one hour.
pub const DELTA_LIMIT: i128 = 3_600_000_000;

/// Mouse-look sensitivity: a tenth of a degree per count.
pub const MOUSE_SENSITIVITY: i128 = 100_000;

/// Position bound within which a frame of movement cannot leave
/// [`POSITION_LIMIT`].
pub const POSITION_MOVE_LIMIT: i128 = 400_000_000_000;

/// Fixed background colour, red channel.
pub const CLEAR_RED: u8 = 127;

/// Fixed background colour, green channel.
pub const CLEAR_GREEN: u8 = 103;

/// Fixed background colour, blue channel.
pub const CLEAR_BLUE: u8 = 181;

/// A discrete input event.
#[derive(Clone, Copy, Debug, PartialEq, Eq, Structural)]
pub enum Event {
    Quit,
    MouseMotion { xrel: i32, yrel: i32 },
    MouseButtonDown,
    MouseButtonUp,
    Other,
}

/// An event as polled, together with the overlay's claim on it.
#[derive(Clone, Copy, Debug, PartialEq, Eq, Structural)]
pub struct PolledEvent {
    pub event: Event,
    pub claimed_by_overlay: bool,
}

/// The continuously sampled key state.
#[derive(Clone, Copy, Debug, PartialEq, Eq, Structural)]
pub struct KeyState {
    pub forward: bool,
    pub back: bool,
    pub left: bool,
    pub right: bool,
}

/// The frame loop's mutable state.
#[derive(Clone, Copy, Debug, PartialEq, Eq, Structural)]
pub struct LoopState {
    pub camera: Camera,
    /// Accumulated pitch, in fixed-point degrees, wrapped into one turn.
    pub cam_rot_x: i128,
    /// Accumulated yaw, in fixed-point degrees, wrapped into one turn.
    pub cam_rot_y: i128,
    /// Look mode: mouse motion steers the camera while a button is held.
    pub move_mouse: bool,
    /// False once a quit event has been observed.
    pub running: bool,
}

/// A loop state the pipeline can consume.
pub open spec fn state_wf(s: LoopState) -> bool {
    &&& camera_wf(s.camera)
    &&& 0 <= s.cam_rot_x < DEG360
    &&& 0 <= s.cam_rot_y < DEG360
}

impl LoopState {
    /// The loop state at startup.
    pub fn new(camera: Camera) -> (s: LoopState)
        ensures
            s.camera == camera,
            s.cam_rot_x == 0,
            s.cam_rot_y == 0,
            !s.move_mouse,
            s.running,
            camera_wf(camera) ==> state_wf(s),
    {
        LoopState { camera, cam_rot_x: 0, cam_rot_y: 0, move_mouse: false, running: true }
    }
}

/// The state after one unclaimed event: quit stops the loop, mouse motion
/// steers pitch and yaw while look mode is on, and the mouse buttons
/// toggle look mode.
pub open spec fn event_step_spec(s: LoopState, ev: Event) -> LoopState {
    match ev {
        Event::Quit => LoopState { running: false, ..s },
        Event::MouseMotion { xrel, yrel } => {
            if s.move_mouse {
                LoopState {
                    cam_rot_y: wrap_deg_spec(
                        s.cam_rot_y + xrel as int * MOUSE_SENSITIVITY as int,
                    ) as i128,
                    cam_rot_x: wrap_deg_spec(
                        s.cam_rot_x + yrel as int * MOUSE_SENSITIVITY as int,
                    ) as i128,
                    ..s
                }
            } else {
                s
            }
        },
        Event::MouseButtonDown => LoopState { move_mouse: true, ..s },
        Event::MouseButtonUp => LoopState { move_mouse: false, ..s },
        Event::Other => s,
    }
}

impl LoopState {
    /// Feed one polled event through the overlay filter: an event the
    /// overlay claims never reaches the camera handling and leaves the
    /// state exactly as it was.
    pub fn process_event(&mut self, ev: Event, claimed_by_overlay: bool)
        requires
            state_wf(*old(self)),
        ensures
            claimed_by_overlay ==> *final(self) == *old(self),
            !claimed_by_overlay ==> *final(self) == event_step_spec(*old(self), ev),
            state_wf(*final(self)),
    {
        if claimed_by_overlay {
            return ;
        }
        match ev {
            Event::Quit => {
                self.running = false;
            },
            Event::MouseMotion { xrel, yrel } => {
                if self.move_mouse {
                    self.cam_rot_y = wrap_deg(
                        self.cam_rot_y + (xrel as i128) * MOUSE_SENSITIVITY,
                    );
                    self.cam_rot_x = wrap_deg(
                        self.cam_rot_x + (yrel as i128) * MOUSE_SENSITIVITY,
                    );
                }
            },
            Event::MouseButtonDown => {
                self.move_mouse = true;
            },
            Event::MouseButtonUp => {
                self.move_mouse = false;
            },
            Event::Other => {},
        }
    }
}

/// The remaining events hold an unclaimed quit at or after position `k`.
pub open spec fn has_quit_from(evs: Seq<PolledEvent>, k: int) -> bool {
    exists|i: int|
        k <= i < evs.len() && !(#[trigger] evs[i]).claimed_by_overlay && evs[i].event is Quit
}

/// The state after draining events from position `k` on, stopping as soon
/// as the loop is no longer running.
pub open spec fn drain_from(s: LoopState, evs: Seq<PolledEvent>, k: int) -> LoopState
    decreases evs.len() - k,
{
    if !s.running || k < 0 || k >= evs.len() {
        s
    } else {
        let s1 = if evs[k].claimed_by_overlay {
            s
        } else {
            event_step_spec(s, evs[k].event)
        };
        drain_from(s1, evs, k + 1)
    }
}

/// Draining stops the loop exactly when an unclaimed quit event is among
/// the drained events.
pub proof fn lemma_drain_running(s: LoopState, evs: Seq<PolledEvent>, k: int)
    requires
        s.running,
        0 <= k <= evs.len(),
    ensures
        drain_from(s, evs, k).running <==> !has_quit_from(evs, k),
    decreases evs.len() - k,
{
    if k == evs.len() {
        assert(drain_from(s, evs, k) == s);
        assert(!has_quit_from(evs, k));
    } else {
        let s1 = if evs[k].claimed_by_overlay {
            s
        } else {
            event_step_spec(s, evs[k].event)
        };
        assert(drain_from(s, evs, k) == drain_from(s1, evs, k + 1));
        if s1.running {
            lemma_drain_running(s1, evs, k + 1);
            if has_quit_from(evs, k + 1) {
                let i = choose|i: int|
                    k + 1 <= i < evs.len() && !(#[trigger] evs[i]).claimed_by_overlay && evs[i].event
                        is Quit;
                assert(has_quit_from(evs, k));
            }
            if has_quit_from(evs, k) {
                let i = choose|i: int|
                    k <= i < evs.len() && !(#[trigger] evs[i]).claimed_by_overlay && evs[i].event
                        is Quit;
                assert(i != k);
                assert(has_quit_from(evs, k + 1));
            }
        } else {
            assert(drain_from(s1, evs, k + 1) == s1);
            assert(!evs[k].claimed_by_overlay && evs[k].event is Quit);
            assert(has_quit_from(evs, k));
        }
    }
}

/// Drained state keeps well-formedness.
pub proof fn lemma_drain_wf(s: LoopState, evs: Seq<PolledEvent>, k: int)
    requires
        state_wf(s),
        0 <= k <= evs.len(),
    ensures
        state_wf(drain_from(s, evs, k)),
        drain_from(s, evs, k).camera.position == s.camera.position,
        drain_from(s, evs, k).camera == s.camera,
    decreases evs.len() - k,
{
    if s.running && k < evs.len() {
        let s1 = if evs[k].claimed_by_overlay {
            s
        } else {
            event_step_spec(s, evs[k].event)
        };
        lemma_drain_wf(s1, evs, k + 1);
    }
}

/// One key's displacement: the movement angle's cosine on x and sine on
/// (negated) z, scaled by the stride.
pub open spec fn apply_key(p: Vec3, angle: int, u: int) -> Vec3 {
    Vec3 {
        x: (p.x + fxm(cos_deg_spec(angle), u)) as i128,
        y: p.y,
        z: (p.z - fxm(sin_deg_spec(angle), u)) as i128,
    }
}

/// The position after one sampling of the held keys: strafing moves along
/// the yaw-rotated x axis, forward and back along the yaw-rotated z axis,
/// each scaled by the elapsed time and the speed constant.
pub open spec fn move_spec(s: LoopState, keys: KeyState, delta: int) -> LoopState {
    let yaw = s.cam_rot_y as int;
    let p0 = s.camera.position;
    let p1 = if keys.left {
        apply_key(p0, -yaw, fxm(delta, -(SPEED as int)))
    } else {
        p0
    };
    let p2 = if keys.right {
        apply_key(p1, -yaw, fxm(delta, SPEED as int))
    } else {
        p1
    };
    let p3 = if keys.back {
        apply_key(p2, DEG90 as int - yaw, fxm(delta, -(SPEED as int)))
    } else {
        p2
    };
    let p4 = if keys.forward {
        apply_key(p3, DEG90 as int - yaw, fxm(delta, SPEED as int))
    } else {
        p3
    };
    LoopState { camera: Camera { position: p4, ..s.camera }, ..s }
}

impl LoopState {
    /// Sample the held keys and move the camera yaw-relative.
    #[verifier::rlimit(80)]
    pub fn update_movement(&mut self, keys: KeyState, delta: i128)
        requires
            state_wf(*old(self)),
            0 <= delta <= DELTA_LIMIT,
            vec3_mag_le(old(self).camera.position, POSITION_MOVE_LIMIT as int),
        ensures
            *final(self) == move_spec(*old(self), keys, delta as int),
            state_wf(*final(self)),
    {
        let yaw: i128 = self.cam_rot_y;
        if keys.left {
            proof {
                lemma_fxm_mag(delta as int, -(SPEED as int), DELTA_LIMIT as int, SPEED as int);
            }
            let u: i128 = fx_mul(delta, -SPEED);
            let c: i128 = cos_deg(-yaw);
            let sn: i128 = sin_deg(-yaw);
            proof {
                lemma_fxm_mag(c as int, u as int, SCALE as int, 126_000_000_000int);
                lemma_fxm_mag(sn as int, u as int, SCALE as int, 126_000_000_000int);
            }
            self.camera.position.x = self.camera.position.x + fx_mul(c, u);
            self.camera.position.z = self.camera.position.z - fx_mul(sn, u);
        }
        if keys.right {
            proof {
                lemma_fxm_mag(delta as int, SPEED as int, DELTA_LIMIT as int, SPEED as int);
            }
            let u: i128 = fx_mul(delta, SPEED);
            let c: i128 = cos_deg(-yaw);
            let sn: i128 = sin_deg(-yaw);
            proof {
                lemma_fxm_mag(c as int, u as int, SCALE as int, 126_000_000_000int);
                lemma_fxm_mag(sn as int, u as int, SCALE as int, 126_000_000_000int);
            }
            self.camera.position.x = self.camera.position.x + fx_mul(c, u);
            self.camera.position.z = self.camera.position.z - fx_mul(sn, u);
        }
        if keys.back {
            proof {
                lemma_fxm_mag(delta as int, -(SPEED as int), DELTA_LIMIT as int, SPEED as int);
            }
            let u: i128 = fx_mul(delta, -SPEED);
            let c: i128 = cos_deg(DEG90 - yaw);
            let sn: i128 = sin_deg(DEG90 - yaw);
            proof {
                lemma_fxm_mag(c as int, u as int, SCALE as int, 126_000_000_000int);
                lemma_fxm_mag(sn as int, u as int, SCALE as int, 126_000_000_000int);
            }
            self.camera.position.x = self.camera.position.x + fx_mul(c, u);
            self.camera.position.z = self.camera.position.z - fx_mul(sn, u);
        }
        if keys.forward {
            proof {
                lemma_fxm_mag(delta as int, SPEED as int, DELTA_LIMIT as int, SPEED as int);
            }
            let u: i128 = fx_mul(delta, SPEED);
            let c: i128 = cos_deg(DEG90 - yaw);
            let sn: i128 = sin_deg(DEG90 - yaw);
            proof {
                lemma_fxm_mag(c as int, u as int, SCALE as int, 126_000_000_000int);
                lemma_fxm_mag(sn as int, u as int, SCALE as int, 126_000_000_000int);
            }
            self.camera.position.x = self.camera.position.x + fx_mul(c, u);
            self.camera.position.z = self.camera.position.z - fx_mul(sn, u);
        }
    }

    /// Rebuild the orientation quaternion from the accumulated pitch and
    /// yaw, fresh each frame rather than incrementally composed.
    pub fn update_rotation(&mut self)
        requires
            state_wf(*old(self)),
        ensures
            *final(self) == (LoopState {
                camera: Camera {
                    rotation: quat_from_euler_spec(old(self).cam_rot_x as int,
                        old(self).cam_rot_y as int),
                    ..old(self).camera
                },
                ..*old(self)
            }),
            state_wf(*final(self)),
    {
        self.camera.rotation = quat_from_euler(self.cam_rot_x, self.cam_rot_y);
    }
}

/// The state after movement and the fresh orientation rebuild.
pub open spec fn sim_spec(sd: LoopState, keys: KeyState, delta: int) -> LoopState {
    let sm = move_spec(sd, keys, delta);
    LoopState {
        camera: Camera {
            rotation: quat_from_euler_spec(sm.cam_rot_x as int, sm.cam_rot_y as int),
            ..sm.camera
        },
        ..sm
    }
}

/// The projection-view product a frame inverts.
pub open spec fn pv_spec(sm: LoopState, width: int, height: int) -> Mat4 {
    mat_mul_spec(
        projection_spec(sm.camera.fovy as int, aspect_spec(width, height), NEAR_PLANE as int,
            FAR_PLANE as int),
        view_spec(sm.camera),
    )
}

/// The fatal error a running frame produces, if any: a camera out of the
/// movement range, a degenerate projection, a projection-view product out
/// of inversion range, or a singular projection-view matrix.
pub open spec fn frame_error_spec(
    sd: LoopState, keys: KeyState, delta: int, width: int, height: int,
) -> Option<RenderError> {
    if !vec3_mag_le(sd.camera.position, POSITION_MOVE_LIMIT as int) {
        Some(RenderError::CameraOutOfRange)
    } else {
        let sm = sim_spec(sd, keys, delta);
        let pe = projection_error(sm.camera.fovy as int, aspect_spec(width, height),
            NEAR_PLANE as int, FAR_PLANE as int);
        if pe is Some {
            pe
        } else if !mat_mag_le(pv_spec(sm, width, height), INVERT_INPUT_LIMIT as int) {
            Some(RenderError::OutOfRange)
        } else if det4_spec(pv_spec(sm, width, height)) == 0 {
            Some(RenderError::SingularMatrix)
        } else {
            None
        }
    }
}

/// The commands of one rendered frame, in their strict order: clear, the
/// graphics pass, present.
pub open spec fn frame_ops_spec(p: GraphicsProgram, tex: u32, inv: Mat4) -> Seq<GpuOp> {
    seq![GpuOp::Clear { red: CLEAR_RED, green: CLEAR_GREEN, blue: CLEAR_BLUE, alpha: 255 }]
        + draw_ops_spec(p, tex, inv) + seq![GpuOp::Present]
}

/// How one frame ended: another frame follows, carrying the inverse
/// projection-view matrix that was uploaded, or the loop stops on a quit.
#[derive(Clone, Copy, Debug, PartialEq, Eq, Structural)]
pub enum FrameFlow {
    Continue { inverse: Mat4 },
    Quit,
}

/// Everything one frame consumes: whether a presentable target was
/// acquired, the drained events with their overlay claims, the sampled key
/// state, the measured delta time, and the viewport.
pub struct FrameInput {
    pub target_available: bool,
    pub events: Vec<PolledEvent>,
    pub keys: KeyState,
    pub delta: i128,
    pub width: u32,
    pub height: u32,
}

/// The input bounds a frame requires of its embedder.
pub open spec fn frame_input_ok(input: FrameInput) -> bool {
    &&& 0 <= input.delta <= DELTA_LIMIT
    &&& 1 <= input.width <= MAX_VIEWPORT
    &&& 1 <= input.height <= MAX_VIEWPORT
}

/// One tick of the frame loop, phases in strict order: acquire the target
/// (fatal if unavailable), drain events through the overlay filter
/// (stopping at an unclaimed quit, after which nothing is recorded), move
/// the camera from the held keys, rebuild the orientation, clear, invert
/// the projection-view matrix (fatal if singular), draw the volume, and
/// present. On any fatal error no command of this frame is recorded.
pub fn frame(
    state: &mut LoopState,
    dev: &mut GpuDevice,
    program: &GraphicsProgram,
    volume: &VolumeTexture,
    input: &FrameInput,
) -> (r: Result<FrameFlow, RenderError>)
    requires
        state_wf(*old(state)),
        old(state).running,
        device_wf(*old(dev)),
        volume.filled,
        frame_input_ok(*input),
    ensures
        state_wf(*final(state)),
        device_wf(*final(dev)),
        !input.target_available ==> r == Err::<FrameFlow, RenderError>(
            RenderError::NoRenderTarget,
        ) && *final(state) == *old(state) && *final(dev) == *old(dev),
        input.target_available ==> ({
            let sd = drain_from(*old(state), input.events@, 0);
            &&& (!sd.running ==> r == Ok::<FrameFlow, RenderError>(FrameFlow::Quit)
                && *final(state) == sd && *final(dev) == *old(dev))
            &&& (sd.running ==> ({
                let fe = frame_error_spec(sd, input.keys, input.delta as int, input.width as int,
                    input.height as int);
                &&& (r is Err <==> fe is Some)
                &&& (r matches Err(e) ==> fe == Some(e) && *final(dev) == *old(dev))
                &&& (r is Ok ==> ({
                    let sm = sim_spec(sd, input.keys, input.delta as int);
                    &&& *final(state) == sm
                    &&& (r matches Ok(f) ==> f matches FrameFlow::Continue { inverse }
                        && is_inverse4(inverse, pv_spec(sm, input.width as int,
                        input.height as int)) && final(dev).ops@ == old(dev).ops@
                        + frame_ops_spec(*program, volume.id, inverse))
                }))
            }))
        }),
{
    if !input.target_available {
        return Err(RenderError::NoRenderTarget);
    }
    let ghost s0 = *state;
    let ghost evs = input.events@;
    let mut idx: usize = 0;
    while idx < input.events.len() && state.running
        invariant
            state_wf(*state),
            0 <= idx <= evs.len(),
            evs == input.events@,
            drain_from(*state, evs, idx as int) == drain_from(s0, evs, 0),
        decreases evs.len() - idx,
    {
        let pe: PolledEvent = input.events[idx];
        proof {
            assert(drain_from(*state, evs, idx as int) == drain_from(
                if pe.claimed_by_overlay {
                    *state
                } else {
                    event_step_spec(*state, pe.event)
                },
                evs,
                idx as int + 1,
            ));
        }
        state.process_event(pe.event, pe.claimed_by_overlay);
        idx = idx + 1;
    }
    proof {
        assert(drain_from(*state, evs, idx as int) == *state);
    }
    let ghost sd = drain_from(s0, evs, 0);
    if !state.running {
        return Ok(FrameFlow::Quit);
    }
    let p: Vec3 = state.camera.position;
    if p.x > POSITION_MOVE_LIMIT || p.x < -POSITION_MOVE_LIMIT || p.y > POSITION_MOVE_LIMIT || p.y
        < -POSITION_MOVE_LIMIT || p.z > POSITION_MOVE_LIMIT || p.z < -POSITION_MOVE_LIMIT {
        return Err(RenderError::CameraOutOfRange);
    }
    state.update_movement(input.keys, input.delta);
    state.update_rotation();
    proof {
        assert(*state == sim_spec(sd, input.keys, input.delta as int));
    }
    let proj: Mat4 = match state.camera.get_proj(input.width, input.height) {
        Err(e) => {
            return Err(e);
        },
        Ok(m) => m,
    };
    let view: Mat4 = state.camera.get_view();
    proof {
        lemma_mat_mul_mag(proj, view, PROJECTION_ENTRY_LIMIT as int, VIEW_ENTRY_LIMIT as int);
    }
    let pv: Mat4 = mat_mul(&proj, &view);
    if !mat_within(&pv, INVERT_INPUT_LIMIT) {
        return Err(RenderError::OutOfRange);
    }
    let inv: Mat4 = match invert4(&pv) {
        None => {
            return Err(RenderError::SingularMatrix);
        },
        Some(v) => v,
    };
    clear(dev, CLEAR_RED, CLEAR_GREEN, CLEAR_BLUE, 255);
    draw(dev, program, volume, &inv);
    present(dev);
    proof {
        assert(final(dev).ops@ =~= old(dev).ops@ + frame_ops_spec(*program, volume.id, inv));
    }
    Ok(FrameFlow::Continue { inverse: inv })
}

/// How many presents a command sequence holds.
pub open spec fn count_presents(ops: Seq<GpuOp>) -> int
    decreases ops.len(),
{
    if ops.len() == 0 {
        0
    } else {
        count_presents(ops.drop_last()) + if ops.last() is Present {
            1int
        } else {
            0int
        }
    }
}

/// Present counting distributes over concatenation.
pub proof fn lemma_count_presents_concat(a: Seq<GpuOp>, b: Seq<GpuOp>)
    ensures
        count_presents(a + b) == count_presents(a) + count_presents(b),
    decreases b.len(),
{
    if b.len() == 0 {
        assert(a + b =~= a);
    } else {
        assert((a + b).drop_last() =~= a + b.drop_last());
        assert((a + b).last() == b.last());
        lemma_count_presents_concat(a, b.drop_last());
    }
}

/// A sequence without a present counts zero.
pub proof fn lemma_count_presents_none(s: Seq<GpuOp>)
    requires
        forall|j: int| 0 <= j < s.len() ==> !((#[trigger] s[j]) is Present),
    ensures
        count_presents(s) == 0,
    decreases s.len(),
{
    if s.len() > 0 {
        assert(forall|j: int|
            0 <= j < s.drop_last().len() ==> !((#[trigger] s.drop_last()[j]) is Present));
        lemma_count_presents_none(s.drop_last());
    }
}

/// One frame records exactly one present.
pub proof fn lemma_frame_ops_one_present(p: GraphicsProgram, tex: u32, inv: Mat4)
    ensures
        count_presents(frame_ops_spec(p, tex, inv)) == 1,
{
    let head = seq![
        GpuOp::Clear { red: CLEAR_RED, green: CLEAR_GREEN, blue: CLEAR_BLUE, alpha: 255 },
    ] + draw_ops_spec(p, tex, inv);
    assert(forall|j: int| 0 <= j < head.len() ==> !((#[trigger] head[j]) is Present)) by {
        assert forall|j: int| 0 <= j < head.len() implies !((#[trigger] head[j]) is Present) by {
            if j >= 1 {
                assert(head[j] == draw_ops_spec(p, tex, inv)[j - 1]);
            }
        };
    };
    lemma_count_presents_none(head);
    let tail = seq![GpuOp::Present];
    assert(tail.drop_last() =~= Seq::<GpuOp>::empty());
    assert(count_presents(Seq::<GpuOp>::empty()) == 0);
    assert(tail.last() == GpuOp::Present);
    assert(count_presents(tail) == count_presents(tail.drop_last()) + 1);
    lemma_count_presents_concat(head, tail);
    assert(frame_ops_spec(p, tex, inv) =~= head + tail);
}

/// The fatal error one scripted frame produces on the running state `p`,
/// if any, in the order the tick checks them: an unavailable target, then
/// — unless the drained events quit first — the simulated frame's own
/// error.
pub open spec fn script_step_error(p: LoopState, input: FrameInput) -> Option<RenderError> {
    if !input.target_available {
        Some(RenderError::NoRenderTarget)
    } else {
        let sd = drain_from(p, input.events@, 0);
        if !sd.running {
            None
        } else {
            frame_error_spec(sd, input.keys, input.delta as int, input.width as int,
                input.height as int)
        }
    }
}

/// The scripted frame acquires its target and observes an unclaimed quit.
pub open spec fn script_step_quits(p: LoopState, input: FrameInput) -> bool {
    input.target_available && !drain_from(p, input.events@, 0).running
}

/// The loop state after the first `k` frames of a script on which no
/// earlier frame erred or quit: each frame drains its events and then
/// simulates movement and the rotation rebuild.
pub open spec fn script_state(s: LoopState, frames: Seq<FrameInput>, k: int) -> LoopState
    decreases k,
{
    if k <= 0 {
        s
    } else {
        let p = script_state(s, frames, k - 1);
        sim_spec(drain_from(p, frames[k - 1].events@, 0), frames[k - 1].keys,
            frames[k - 1].delta as int)
    }
}

/// Run the frame loop over a script of frame inputs. Returns the number of
/// frames fully rendered: exactly one present is recorded per rendered
/// frame, every rendered frame precedes the first quit, and a quit stops
/// the loop with nothing of its frame recorded. The result is a function
/// of the script: the run fails exactly when, on the evolved state, some
/// frame before the first quit produces a fatal error — and then with the
/// first such error; an error-free script yields the frame count up to the
/// first quit, or the whole script length.
pub fn run_loop(
    state: &mut LoopState,
    dev: &mut GpuDevice,
    program: &GraphicsProgram,
    volume: &VolumeTexture,
    frames: &Vec<FrameInput>,
) -> (r: Result<usize, RenderError>)
    requires
        state_wf(*old(state)),
        old(state).running,
        device_wf(*old(dev)),
        volume.filled,
        forall|k: int| 0 <= k < frames@.len() ==> frame_input_ok(#[trigger] frames@[k]),
    ensures
        state_wf(*final(state)),
        device_wf(*final(dev)),
        r matches Ok(n) ==> {
            &&& n <= frames@.len()
            &&& forall|k: int|
                0 <= k < n ==> !script_step_quits(#[trigger] script_state(*old(state), frames@,
                    k), frames@[k]) && script_step_error(script_state(*old(state), frames@, k),
                    frames@[k]) is None
            &&& n < frames@.len() ==> script_step_quits(script_state(*old(state), frames@,
                n as int), frames@[n as int]) && !final(state).running && *final(state)
                == drain_from(script_state(*old(state), frames@, n as int),
                frames@[n as int].events@, 0)
            &&& n == frames@.len() ==> *final(state) == script_state(*old(state), frames@,
                n as int)
            &&& forall|k: int| 0 <= k < n ==> !has_quit_from((#[trigger] frames@[k]).events@, 0)
            &&& n < frames@.len() ==> has_quit_from(frames@[n as int].events@, 0)
            &&& count_presents(final(dev).ops@) == count_presents(old(dev).ops@) + n
        },
        r matches Err(e) ==> (exists|m: int|
            {
                &&& 0 <= m < frames@.len()
                &&& forall|k: int|
                    0 <= k < m ==> !script_step_quits(#[trigger] script_state(*old(state),
                        frames@, k), frames@[k]) && script_step_error(script_state(*old(state),
                        frames@, k), frames@[k]) is None
                &&& script_step_error(#[trigger] script_state(*old(state), frames@, m),
                    frames@[m]) == Some(e)
                &&& count_presents(final(dev).ops@) == count_presents(old(dev).ops@) + m
            }),
{
    let mut k: usize = 0;
    let n: usize = frames.len();
    while k < n
        invariant
            n == frames@.len(),
            0 <= k <= n,
            state_wf(*state),
            state.running,
            *state == script_state(*old(state), frames@, k as int),
            device_wf(*dev),
            volume.filled,
            forall|j: int| 0 <= j < frames@.len() ==> frame_input_ok(#[trigger] frames@[j]),
            forall|j: int|
                0 <= j < k ==> !script_step_quits(#[trigger] script_state(*old(state), frames@,
                    j), frames@[j]) && script_step_error(script_state(*old(state), frames@, j),
                    frames@[j]) is None,
            forall|j: int| 0 <= j < k ==> !has_quit_from((#[trigger] frames@[j]).events@, 0),
            count_presents(dev.ops@) == count_presents(old(dev).ops@) + k,
        decreases n - k,
    {
        let ghost s_before = *state;
        let ghost ops_before = dev.ops@;
        let ghost input = frames@[k as int];
        let outcome = frame(state, dev, program, volume, &frames[k]);
        match outcome {
            Err(e) => {
                proof {
                    if input.target_available {
                        let sd = drain_from(s_before, input.events@, 0);
                        assert(sd.running);
                        assert(script_step_error(s_before, input) == frame_error_spec(sd,
                            input.keys, input.delta as int, input.width as int,
                            input.height as int));
                    }
                    assert(script_step_error(script_state(*old(state), frames@, k as int),
                        frames@[k as int]) == Some(e));
                }
                return Err(e);
            },
            Ok(FrameFlow::Quit) => {
                proof {
                    assert(input.target_available);
                    lemma_drain_running(s_before, input.events@, 0);
                    assert(script_step_quits(script_state(*old(state), frames@, k as int),
                        frames@[k as int]));
                }
                return Ok(k);
            },
            Ok(FrameFlow::Continue { inverse }) => {
                proof {
                    assert(input.target_available);
                    let sd = drain_from(s_before, input.events@, 0);
                    assert(sd.running);
                    lemma_drain_running(s_before, input.events@, 0);
                    assert(!script_step_quits(s_before, input));
                    assert(script_step_error(s_before, input) is None);
                    assert(*state == script_state(*old(state), frames@, k as int + 1));
                    lemma_frame_ops_one_present(*program, volume.id, inverse);
                    lemma_count_presents_concat(ops_before, frame_ops_spec(*program, volume.id,
                        inverse));
                }
                k = k + 1;
            },
        }
    }
    Ok(k)
}

/// Only the forward key is held.
pub open spec fn forward_only(keys: KeyState) -> bool {
    keys.forward && !keys.back && !keys.left && !keys.right
}

/// With yaw zero and only the forward key held, one movement step leaves x
/// and y alone and moves z backward by exactly the speed constant scaled
/// by the elapsed time.
pub proof fn lemma_move_forward_step(s: LoopState, keys: KeyState, delta: int)
    requires
        s.cam_rot_y == 0,
        forward_only(keys),
        0 <= delta <= DELTA_LIMIT as int,
    ensures
        move_spec(s, keys, delta) == (LoopState {
            camera: Camera {
                position: Vec3 {
                    x: s.camera.position.x,
                    y: s.camera.position.y,
                    z: (s.camera.position.z - 35 * delta) as i128,
                },
                ..s.camera
            },
            ..s
        }),
{
    lemma_trig_quadrants();
    let u = fxm(delta, SPEED as int);
    assert(u == 35 * delta) by {
        assert(delta * (SPEED as int) == (SCALE as int) * (35 * delta)) by (nonlinear_arith)
            requires
                SPEED == 35_000_000 && SCALE == 1_000_000,
        ;
        lemma_div_multiples_vanish(35 * delta, SCALE as int);
    };
    assert(fxm(cos_deg_spec(DEG90 as int), u) == 0);
    lemma_fxm_scale(u);
    assert(fxm(sin_deg_spec(DEG90 as int), u) == u);
    assert((s.camera.position.x + 0) as i128 == s.camera.position.x);
}

/// Sum of a sequence of deltas.
pub open spec fn sum_deltas(deltas: Seq<int>) -> int
    decreases deltas.len(),
{
    if deltas.len() == 0 {
        0
    } else {
        deltas[0] + sum_deltas(deltas.drop_first())
    }
}

/// Every delta is an admissible frame time.
pub open spec fn deltas_ok(deltas: Seq<int>) -> bool {
    forall|i: int| 0 <= i < deltas.len() ==> 0 <= #[trigger] deltas[i] <= DELTA_LIMIT as int
}

/// The state after repeated movement steps with the same held keys.
pub open spec fn run_held(s: LoopState, keys: KeyState, deltas: Seq<int>) -> LoopState
    decreases deltas.len(),
{
    if deltas.len() == 0 {
        s
    } else {
        run_held(move_spec(s, keys, deltas[0]), keys, deltas.drop_first())
    }
}

/// A sum of admissible deltas is non-negative.
pub proof fn lemma_sum_deltas_nonneg(deltas: Seq<int>)
    requires
        deltas_ok(deltas),
    ensures
        sum_deltas(deltas) >= 0,
    decreases deltas.len(),
{
    if deltas.len() > 0 {
        assert(deltas_ok(deltas.drop_first()));
        lemma_sum_deltas_nonneg(deltas.drop_first());
    }
}

/// Holding only the forward key at yaw zero moves the camera along the
/// negative z axis by exactly the speed constant times the total elapsed
/// time, however that time is partitioned into frames: simulating a held
/// forward key for one second at 35 units per second changes z by exactly
/// -35.
pub proof fn lemma_held_forward(s: LoopState, keys: KeyState, deltas: Seq<int>)
    requires
        s.cam_rot_y == 0,
        forward_only(keys),
        deltas_ok(deltas),
        crate::fixed::mag(s.camera.position.z as int) + 35 * sum_deltas(deltas)
            <= POSITION_LIMIT as int,
    ensures
        run_held(s, keys, deltas).camera.position.z == s.camera.position.z - 35 * sum_deltas(
            deltas,
        ),
        run_held(s, keys, deltas).camera.position.x == s.camera.position.x,
        run_held(s, keys, deltas).camera.position.y == s.camera.position.y,
    decreases deltas.len(),
{
    if deltas.len() > 0 {
        let d0 = deltas[0];
        let rest = deltas.drop_first();
        assert(deltas_ok(rest));
        lemma_sum_deltas_nonneg(rest);
        lemma_move_forward_step(s, keys, d0);
        let s1 = move_spec(s, keys, d0);
        assert(s1.camera.position.z == s.camera.position.z - 35 * d0);
        assert(s1.cam_rot_y == 0);
        lemma_held_forward(s1, keys, rest);
    }
}

} // verus!
