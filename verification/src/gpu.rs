//! GPU command recording and the barrier-ordering protocol.
//!
//! All device work the renderer decides on is recorded as an explicit
//! command sequence. The one cross-stage hazard is GPU-side: a compute
//! dispatch writes the volume texture asynchronously, so a
//! shader-image-access memory barrier must stand between every dispatch
//! that writes a texture and every draw that samples it. [`protocol_ok`]
//! states that ordering discipline; the recorder preserves it by
//! construction, and [`check_barrier_protocol`] decides it for arbitrary
//! recorded sequences, flagging a missing barrier as a violation.

use vstd::prelude::*;
use crate::mat::Mat4;
use crate::volume::{DeviceLimits, VolumeTexture, volume_dims_ok, volume_wf, get_3d_texture};
use crate::error::RenderError;

verus! {

/// One recorded GPU command.
#[derive(Clone, Copy, Debug, PartialEq, Eq, Structural)]
pub enum GpuOp {
    /// Enable 3D texturing; issued once at startup.
    EnableTexture3d,
    /// Allocate a 3D texture object under the given stream identifier.
    CreateTexture3d { id: u32 },
    /// Bind a 3D texture to the 3D texture target.
    BindTexture3d { id: u32 },
    /// Upload all-zero storage of the given dimensions to the bound texture.
    UploadZero3d { id: u32, width: i32, height: i32, depth: i32 },
    /// Linear minification and magnification filtering.
    SetFilterLinear { id: u32 },
    /// Clamp-to-edge wrapping on all three axes.
    SetWrapClampToEdge { id: u32 },
    /// Bind the texture to an image unit for compute read/write.
    BindImageUnit { unit: u32, id: u32 },
    /// Make the given program current.
    UseProgram { handle: u32 },
    /// Select the active texture unit.
    ActiveTexture { unit: u32 },
    /// Set an integer uniform.
    UniformInt { location: i32, value: i32 },
    /// Set a 4x4 matrix uniform.
    UniformMat4 { location: i32, matrix: Mat4 },
    /// Dispatch a 3D compute grid writing the given texture.
    DispatchCompute { texture: u32, groups_x: u32, groups_y: u32, groups_z: u32 },
    /// Shader-image-access memory barrier.
    MemoryBarrierImageAccess,
    /// Clear colour and depth targets to the given colour.
    Clear { red: u8, green: u8, blue: u8, alpha: u8 },
    /// Draw the screen quad sampling the given texture.
    DrawQuad { texture: u32 },
    /// Swap buffers, presenting the frame.
    Present,
}

/// The command is a compute dispatch.
pub open spec fn is_dispatch(op: GpuOp) -> bool {
    op is DispatchCompute
}

/// The command is the shader-image-access barrier.
pub open spec fn is_barrier(op: GpuOp) -> bool {
    op is MemoryBarrierImageAccess
}

/// The command is a dispatch writing texture `t`.
pub open spec fn writes_texture(op: GpuOp, t: u32) -> bool {
    op matches GpuOp::DispatchCompute { texture, .. } && texture == t
}

/// The command is a draw sampling texture `t`.
pub open spec fn samples_texture(op: GpuOp, t: u32) -> bool {
    op matches GpuOp::DrawQuad { texture } && texture == t
}

/// A barrier stands strictly between positions `j` and `i`.
pub open spec fn barrier_between(ops: Seq<GpuOp>, j: int, i: int) -> bool {
    exists|k: int| j < k < i && #[trigger] is_barrier(ops[k])
}

/// The ordering discipline over the first `n` commands: every draw that
/// samples a texture is separated from every earlier dispatch writing that
/// texture by a memory barrier.
pub open spec fn prefix_ok(ops: Seq<GpuOp>, n: int) -> bool {
    forall|j: int, i: int, t: u32|
        0 <= j < i < n && #[trigger] writes_texture(ops[j], t) && #[trigger] samples_texture(
            ops[i],
            t,
        ) ==> barrier_between(ops, j, i)
}

/// The ordering discipline over a whole command sequence.
pub open spec fn protocol_ok(ops: Seq<GpuOp>) -> bool {
    prefix_ok(ops, ops.len() as int)
}

/// Every dispatch in the sequence is already followed by a barrier, so
/// later draws are unconditionally safe.
pub open spec fn dispatches_barriered(ops: Seq<GpuOp>) -> bool {
    forall|j: int|
        0 <= j < ops.len() && #[trigger] is_dispatch(ops[j]) ==> barrier_between(
            ops,
            j,
            ops.len() as int,
        )
}

/// Texture `t` has a dispatch among the first `i` commands with no barrier
/// after it before position `i`.
pub open spec fn unbarriered_dispatch(ops: Seq<GpuOp>, i: int, t: u32) -> bool {
    exists|j: int|
        0 <= j < i && #[trigger] writes_texture(ops[j], t) && !barrier_between(ops, j, i)
}

/// Appending commands keeps the protocol, provided the appended commands
/// respect it among themselves and every appended dispatch is barriered
/// before the end of the appended block.
pub proof fn lemma_extend_protocol(ops: Seq<GpuOp>, tail: Seq<GpuOp>)
    requires
        protocol_ok(ops),
        dispatches_barriered(ops),
        protocol_ok(tail),
        dispatches_barriered(tail),
    ensures
        protocol_ok(ops + tail),
        dispatches_barriered(ops + tail),
{
    let s = ops + tail;
    let n = ops.len() as int;
    let m = tail.len() as int;
    assert forall|j: int, i: int, t: u32|
        0 <= j < i < n + m && #[trigger] writes_texture(s[j], t) && #[trigger] samples_texture(
            s[i],
            t,
        ) implies barrier_between(s, j, i) by {
        if i < n {
            assert(writes_texture(ops[j], t));
            assert(samples_texture(ops[i], t));
            let k = choose|k: int| j < k < i && #[trigger] is_barrier(ops[k]);
            assert(s[k] == ops[k]);
            assert(is_barrier(s[k]));
        } else if j >= n {
            assert(writes_texture(tail[j - n], t));
            assert(samples_texture(tail[i - n], t));
            let k = choose|k: int| j - n < k < i - n && #[trigger] is_barrier(tail[k]);
            assert(s[k + n] == tail[k]);
            assert(j < k + n < i && is_barrier(s[k + n]));
        } else {
            assert(writes_texture(ops[j], t));
            assert(is_dispatch(ops[j]));
            let k = choose|k: int| j < k < n && #[trigger] is_barrier(ops[k]);
            assert(s[k] == ops[k]);
            assert(j < k < i && is_barrier(s[k]));
        }
    };
    assert forall|j: int| 0 <= j < n + m && #[trigger] is_dispatch(s[j]) implies barrier_between(
        s,
        j,
        n + m,
    ) by {
        if j < n {
            assert(is_dispatch(ops[j]));
            let k = choose|k: int| j < k < n && #[trigger] is_barrier(ops[k]);
            assert(s[k] == ops[k]);
            assert(j < k < n + m && is_barrier(s[k]));
        } else {
            assert(is_dispatch(tail[j - n]));
            let k = choose|k: int| j - n < k < m && #[trigger] is_barrier(tail[k]);
            assert(s[k + n] == tail[k]);
            assert(j < k + n < n + m && is_barrier(s[k + n]));
        }
    };
}

/// A block with neither dispatches nor draws respects the protocol.
pub proof fn lemma_quiet_block(tail: Seq<GpuOp>)
    requires
        forall|j: int| 0 <= j < tail.len() ==> !is_dispatch(#[trigger] tail[j]) && !(tail[j]
            is DrawQuad),
    ensures
        protocol_ok(tail),
        dispatches_barriered(tail),
{
    assert forall|j: int, i: int, t: u32|
        0 <= j < i < tail.len() && #[trigger] writes_texture(tail[j], t)
            && #[trigger] samples_texture(tail[i], t) implies barrier_between(tail, j, i) by {
        assert(is_dispatch(tail[j]));
    };
}

/// The command recorder: what the renderer decided to issue, in order.
pub struct GpuDevice {
    pub ops: Vec<GpuOp>,
    pub next_texture_id: u32,
}

/// The recorded stream always respects the barrier protocol, and every
/// recorded dispatch has its mandatory barrier.
pub open spec fn device_wf(d: GpuDevice) -> bool {
    &&& protocol_ok(d.ops@)
    &&& dispatches_barriered(d.ops@)
}

impl GpuDevice {
    /// An empty recorder.
    pub fn new() -> (d: GpuDevice)
        ensures
            d.ops@ == Seq::<GpuOp>::empty(),
            d.next_texture_id == 0,
            device_wf(d),
    {
        let d = GpuDevice { ops: Vec::new(), next_texture_id: 0 };
        proof {
            lemma_quiet_block(d.ops@);
        }
        d
    }
}

/// A linked compute program with its image-unit uniform location, resolved
/// once at link time.
#[derive(Clone, Copy, Debug, PartialEq, Eq, Structural)]
pub struct ComputeProgram {
    pub handle: u32,
    pub image_output_location: i32,
}

/// What the driver reported while building the compute program.
#[derive(Clone, Copy, Debug, PartialEq, Eq, Structural)]
pub struct ComputeBuildReport {
    pub handle: u32,
    pub compile_ok: bool,
    pub link_ok: bool,
    pub image_output_location: i32,
}

/// A linked graphics program with its uniform locations, resolved once at
/// link time and immutable afterwards.
#[derive(Clone, Copy, Debug, PartialEq, Eq, Structural)]
pub struct GraphicsProgram {
    pub handle: u32,
    pub sampler_location: i32,
    pub inv_pv_location: i32,
}

/// The graphics program's uniform binding table: where the inverse
/// projection-view matrix is uploaded each frame.
#[derive(Clone, Copy, Debug, PartialEq, Eq, Structural)]
pub struct ShaderInterface {
    pub inv_projection_view: i32,
}

/// What the driver reported while building the graphics program.
#[derive(Clone, Copy, Debug, PartialEq, Eq, Structural)]
pub struct GraphicsBuildReport {
    pub handle: u32,
    pub vertex_ok: bool,
    pub fragment_ok: bool,
    pub link_ok: bool,
    pub sampler_location: i32,
    pub inv_pv_location: i32,
}

impl GraphicsProgram {
    /// The uniform binding table resolved at link time.
    pub fn interface(&self) -> (r: ShaderInterface)
        ensures
            r.inv_projection_view == self.inv_pv_location,
    {
        ShaderInterface { inv_projection_view: self.inv_pv_location }
    }
}

/// Accept a compute program build exactly when both the compile and the
/// link succeeded; any failure is fatal, with no partial program state.
pub fn get_compute_program(report: &ComputeBuildReport) -> (r: Result<
    ComputeProgram,
    RenderError,
>)
    ensures
        r is Ok <==> report.compile_ok && report.link_ok,
        r matches Ok(p) ==> p.handle == report.handle && p.image_output_location
            == report.image_output_location,
        r == Err::<ComputeProgram, RenderError>(RenderError::ShaderCompile)
            <==> !report.compile_ok,
        r == Err::<ComputeProgram, RenderError>(RenderError::ProgramLink) <==> report.compile_ok
            && !report.link_ok,
{
    if !report.compile_ok {
        Err(RenderError::ShaderCompile)
    } else if !report.link_ok {
        Err(RenderError::ProgramLink)
    } else {
        Ok(
            ComputeProgram {
                handle: report.handle,
                image_output_location: report.image_output_location,
            },
        )
    }
}

/// Accept a graphics program build exactly when both shader stages and the
/// link succeeded; any failure is fatal.
pub fn get_program(report: &GraphicsBuildReport) -> (r: Result<GraphicsProgram, RenderError>)
    ensures
        r is Ok <==> report.vertex_ok && report.fragment_ok && report.link_ok,
        r matches Ok(p) ==> p.handle == report.handle && p.sampler_location
            == report.sampler_location && p.inv_pv_location == report.inv_pv_location,
        r == Err::<GraphicsProgram, RenderError>(RenderError::ShaderCompile)
            <==> !report.vertex_ok || !report.fragment_ok,
        r == Err::<GraphicsProgram, RenderError>(RenderError::ProgramLink) <==> report.vertex_ok
            && report.fragment_ok && !report.link_ok,
{
    if !report.vertex_ok || !report.fragment_ok {
        Err(RenderError::ShaderCompile)
    } else if !report.link_ok {
        Err(RenderError::ProgramLink)
    } else {
        Ok(
            GraphicsProgram {
                handle: report.handle,
                sampler_location: report.sampler_location,
                inv_pv_location: report.inv_pv_location,
            },
        )
    }
}

/// The commands that accompany creating a volume texture: allocate, bind,
/// upload zeroed storage, set linear filtering and clamp-to-edge wrap, and
/// expose the texture on image unit 0.
pub open spec fn volume_ops_spec(id: u32, w: i32, h: i32, d: i32) -> Seq<GpuOp> {
    seq![
        GpuOp::CreateTexture3d { id },
        GpuOp::BindTexture3d { id },
        GpuOp::UploadZero3d { id, width: w, height: h, depth: d },
        GpuOp::SetFilterLinear { id },
        GpuOp::SetWrapClampToEdge { id },
        GpuOp::BindImageUnit { unit: 0, id },
    ]
}

/// Create a volume texture: validates the dimensions, zeroes the voxel
/// store, and records the allocation, upload, filter, wrap and image-unit
/// binding commands.
pub fn create_volume(dev: &mut GpuDevice, limits: &DeviceLimits, w: i32, h: i32, d: i32) -> (r:
    Result<VolumeTexture, RenderError>)
    requires
        device_wf(*old(dev)),
        old(dev).next_texture_id < u32::MAX,
    ensures
        device_wf(*final(dev)),
        r is Ok <==> volume_dims_ok(*limits, w as int, h as int, d as int),
        r matches Err(e) ==> e == RenderError::InvalidTextureSize && *final(dev) == *old(dev),
        r matches Ok(v) ==> {
            &&& v.id == old(dev).next_texture_id
            &&& v.width == w && v.height == h && v.depth == d
            &&& v.data@.len() == w as int * h as int * d as int
            &&& forall|i: int| 0 <= i < v.data@.len() ==> v.data@[i] == 0
            &&& !v.filled
            &&& volume_wf(v)
            &&& final(dev).ops@ == old(dev).ops@ + volume_ops_spec(v.id, w, h, d)
            &&& final(dev).next_texture_id == old(dev).next_texture_id + 1
        },
{
    let id: u32 = dev.next_texture_id;
    let created = get_3d_texture(limits, id, w, h, d);
    match created {
        Err(e) => Err(e),
        Ok(v) => {
            let ghost tail = volume_ops_spec(id, w, h, d);
            proof {
                lemma_quiet_block(tail);
                lemma_extend_protocol(dev.ops@, tail);
            }
            dev.next_texture_id = id + 1;
            dev.ops.push(GpuOp::CreateTexture3d { id });
            dev.ops.push(GpuOp::BindTexture3d { id });
            dev.ops.push(GpuOp::UploadZero3d { id, width: w, height: h, depth: d });
            dev.ops.push(GpuOp::SetFilterLinear { id });
            dev.ops.push(GpuOp::SetWrapClampToEdge { id });
            dev.ops.push(GpuOp::BindImageUnit { unit: 0, id });
            proof {
                assert(final(dev).ops@ =~= old(dev).ops@ + tail);
            }
            Ok(v)
        },
    }
}

/// The requested work-group counts are positive and within the device's
/// global work-group count limits.
pub open spec fn groups_ok(limits: DeviceLimits, gx: u32, gy: u32, gz: u32) -> bool {
    &&& 1 <= gx <= limits.max_group_count_x
    &&& 1 <= gy <= limits.max_group_count_y
    &&& 1 <= gz <= limits.max_group_count_z
}

/// The commands of one compute pass over a volume: make the program
/// current, bind the volume on texture unit 0, point the image-output
/// uniform at it, dispatch the 3D grid, and issue the mandatory
/// shader-image-access barrier.
pub open spec fn dispatch_ops_spec(p: ComputeProgram, tex: u32, gx: u32, gy: u32, gz: u32) -> Seq<
    GpuOp,
> {
    seq![
        GpuOp::UseProgram { handle: p.handle },
        GpuOp::ActiveTexture { unit: 0 },
        GpuOp::BindTexture3d { id: tex },
        GpuOp::UniformInt { location: p.image_output_location, value: 0 },
        GpuOp::DispatchCompute { texture: tex, groups_x: gx, groups_y: gy, groups_z: gz },
        GpuOp::MemoryBarrierImageAccess,
    ]
}

/// Fill the volume with a compute pass. The work-group counts are checked
/// against the device limits and the pass always ends with the memory
/// barrier, so the volume is safe to sample afterwards: on success the
/// volume is marked filled and the recorded stream still satisfies the
/// barrier protocol.
pub fn dispatch(
    dev: &mut GpuDevice,
    limits: &DeviceLimits,
    program: &ComputeProgram,
    volume: &mut VolumeTexture,
    gx: u32,
    gy: u32,
    gz: u32,
) -> (r: Result<(), RenderError>)
    requires
        device_wf(*old(dev)),
    ensures
        device_wf(*final(dev)),
        r is Ok <==> groups_ok(*limits, gx, gy, gz),
        r matches Err(e) ==> e == RenderError::DispatchTooLarge && *final(dev) == *old(dev)
            && *final(volume) == *old(volume),
        r is Ok ==> {
            &&& final(volume).filled
            &&& final(volume).id == old(volume).id
            &&& final(volume).width == old(volume).width
            &&& final(volume).height == old(volume).height
            &&& final(volume).depth == old(volume).depth
            &&& final(volume).data@ == old(volume).data@
            &&& final(dev).ops@ == old(dev).ops@ + dispatch_ops_spec(*program, old(volume).id,
                gx, gy, gz)
            &&& final(dev).next_texture_id == old(dev).next_texture_id
        },
{
    if gx < 1 || gy < 1 || gz < 1 || gx as i64 > limits.max_group_count_x as i64 || gy as i64
        > limits.max_group_count_y as i64 || gz as i64 > limits.max_group_count_z as i64 {
        return Err(RenderError::DispatchTooLarge);
    }
    let tex: u32 = volume.id;
    let ghost tail = dispatch_ops_spec(*program, tex, gx, gy, gz);
    proof {
        assert(is_barrier(tail[5]));
        assert forall|j: int, i: int, t: u32|
            0 <= j < i < tail.len() && #[trigger] writes_texture(tail[j], t)
                && #[trigger] samples_texture(tail[i], t) implies barrier_between(
            tail,
            j,
            i,
        ) by {
            assert(is_dispatch(tail[j]));
            assert(j == 4);
        };
        assert forall|j: int| 0 <= j < tail.len() && #[trigger] is_dispatch(tail[j])
            implies barrier_between(tail, j, tail.len() as int) by {
            assert(j == 4);
            assert(4 < 5 < tail.len() && is_barrier(tail[5]));
        };
        lemma_extend_protocol(dev.ops@, tail);
    }
    dev.ops.push(GpuOp::UseProgram { handle: program.handle });
    dev.ops.push(GpuOp::ActiveTexture { unit: 0 });
    dev.ops.push(GpuOp::BindTexture3d { id: tex });
    dev.ops.push(GpuOp::UniformInt { location: program.image_output_location, value: 0 });
    dev.ops.push(
        GpuOp::DispatchCompute { texture: tex, groups_x: gx, groups_y: gy, groups_z: gz },
    );
    dev.ops.push(GpuOp::MemoryBarrierImageAccess);
    volume.filled = true;
    proof {
        assert(final(dev).ops@ =~= old(dev).ops@ + tail);
    }
    Ok(())
}

/// The commands of one graphics pass: make the program current, point the
/// sampler uniform at texture unit 0, bind the volume there, update the
/// inverse projection-view uniform, and draw the screen quad.
pub open spec fn draw_ops_spec(p: GraphicsProgram, tex: u32, inv_pv: Mat4) -> Seq<GpuOp> {
    seq![
        GpuOp::UseProgram { handle: p.handle },
        GpuOp::UniformInt { location: p.sampler_location, value: 0 },
        GpuOp::ActiveTexture { unit: 0 },
        GpuOp::BindTexture3d { id: tex },
        GpuOp::UniformMat4 { location: p.inv_pv_location, matrix: inv_pv },
        GpuOp::DrawQuad { texture: tex },
    ]
}

/// Draw the screen quad sampling the volume. The volume must have been
/// filled — dispatched and barrier-completed — before any draw samples it;
/// the recorded stream keeps the barrier protocol.
pub fn draw(dev: &mut GpuDevice, program: &GraphicsProgram, volume: &VolumeTexture, inv_pv: &Mat4)
    requires
        device_wf(*old(dev)),
        volume.filled,
    ensures
        device_wf(*final(dev)),
        final(dev).ops@ == old(dev).ops@ + draw_ops_spec(*program, volume.id, *inv_pv),
        final(dev).next_texture_id == old(dev).next_texture_id,
{
    let ghost tail = draw_ops_spec(*program, volume.id, *inv_pv);
    proof {
        assert forall|j: int, i: int, t: u32|
            0 <= j < i < tail.len() && #[trigger] writes_texture(tail[j], t)
                && #[trigger] samples_texture(tail[i], t) implies barrier_between(
            tail,
            j,
            i,
        ) by {
            assert(is_dispatch(tail[j]));
        };
        assert forall|j: int| 0 <= j < tail.len() && #[trigger] is_dispatch(tail[j])
            implies barrier_between(tail, j, tail.len() as int) by {
            assert(!is_dispatch(tail[j]));
        };
        lemma_extend_protocol(dev.ops@, tail);
    }
    dev.ops.push(GpuOp::UseProgram { handle: program.handle });
    dev.ops.push(GpuOp::UniformInt { location: program.sampler_location, value: 0 });
    dev.ops.push(GpuOp::ActiveTexture { unit: 0 });
    dev.ops.push(GpuOp::BindTexture3d { id: volume.id });
    dev.ops.push(GpuOp::UniformMat4 { location: program.inv_pv_location, matrix: *inv_pv });
    dev.ops.push(GpuOp::DrawQuad { texture: volume.id });
    proof {
        assert(final(dev).ops@ =~= old(dev).ops@ + tail);
    }
}

/// Clear colour and depth to the fixed background colour.
pub fn clear(dev: &mut GpuDevice, red: u8, green: u8, blue: u8, alpha: u8)
    requires
        device_wf(*old(dev)),
    ensures
        device_wf(*final(dev)),
        final(dev).ops@ == old(dev).ops@ + seq![GpuOp::Clear { red, green, blue, alpha }],
        final(dev).next_texture_id == old(dev).next_texture_id,
{
    let ghost tail = seq![GpuOp::Clear { red, green, blue, alpha }];
    proof {
        lemma_quiet_block(tail);
        lemma_extend_protocol(dev.ops@, tail);
    }
    dev.ops.push(GpuOp::Clear { red, green, blue, alpha });
    proof {
        assert(final(dev).ops@ =~= old(dev).ops@ + tail);
    }
}

/// Swap buffers, presenting the finished frame.
pub fn present(dev: &mut GpuDevice)
    requires
        device_wf(*old(dev)),
    ensures
        device_wf(*final(dev)),
        final(dev).ops@ == old(dev).ops@ + seq![GpuOp::Present],
        final(dev).next_texture_id == old(dev).next_texture_id,
{
    let ghost tail = seq![GpuOp::Present];
    proof {
        lemma_quiet_block(tail);
        lemma_extend_protocol(dev.ops@, tail);
    }
    dev.ops.push(GpuOp::Present);
    proof {
        assert(final(dev).ops@ =~= old(dev).ops@ + tail);
    }
}

/// Whether the vector holds the value.
fn contains_u32(v: &Vec<u32>, x: u32) -> (b: bool)
    ensures
        b == v@.contains(x),
{
    let mut i: usize = 0;
    while i < v.len()
        invariant
            0 <= i <= v@.len(),
            forall|k: int| 0 <= k < i ==> v@[k] != x,
        decreases v@.len() - i,
    {
        if v[i] == x {
            return true;
        }
        i = i + 1;
    }
    false
}

/// Decide the barrier protocol for a recorded command sequence: the result
/// is true exactly when every draw is separated from every earlier
/// dispatch of its texture by a memory barrier. A sequence that omits the
/// barrier between a dispatch and a draw is flagged as a violation.
pub fn check_barrier_protocol(ops: &Vec<GpuOp>) -> (b: bool)
    ensures
        b == protocol_ok(ops@),
{
    let n: usize = ops.len();
    let mut pending: Vec<u32> = Vec::new();
    let mut ok: bool = true;
    let mut i: usize = 0;
    while i < n
        invariant
            0 <= i <= n,
            n == ops@.len(),
            ok == prefix_ok(ops@, i as int),
            forall|t: u32| #[trigger] pending@.contains(t) <==> unbarriered_dispatch(ops@,
                i as int, t),
        decreases n - i,
    {
        let op: GpuOp = ops[i];
        match op {
            GpuOp::DispatchCompute { texture, .. } => {
                let ghost pending0 = pending@;
                pending.push(texture);
                proof {
                    assert(!is_barrier(ops@[i as int]));
                    assert(writes_texture(ops@[i as int], texture));
                    assert forall|t: u32| #[trigger] pending@.contains(t)
                        implies unbarriered_dispatch(ops@, i as int + 1, t) by {
                        if t == texture {
                            assert(writes_texture(ops@[i as int], t));
                            assert(!barrier_between(ops@, i as int, i as int + 1));
                        } else {
                            let idx = choose|idx: int|
                                0 <= idx < pending@.len() && pending@[idx] == t;
                            assert(idx < pending0.len());
                            assert(pending0.contains(t));
                            assert(unbarriered_dispatch(ops@, i as int, t));
                            let j = choose|j: int|
                                0 <= j < i as int && #[trigger] writes_texture(ops@[j], t)
                                    && !barrier_between(ops@, j, i as int);
                            assert(!barrier_between(ops@, j, i as int + 1)) by {
                                if barrier_between(ops@, j, i as int + 1) {
                                    let k = choose|k: int|
                                        j < k < i as int + 1 && #[trigger] is_barrier(ops@[k]);
                                    assert(k != i as int);
                                    assert(barrier_between(ops@, j, i as int));
                                }
                            };
                        }
                    };
                    assert forall|t: u32| unbarriered_dispatch(ops@, i as int + 1, t)
                        implies #[trigger] pending@.contains(t) by {
                        let j = choose|j: int|
                            0 <= j < i as int + 1 && #[trigger] writes_texture(ops@[j], t)
                                && !barrier_between(ops@, j, i as int + 1);
                        if j == i as int {
                            assert(t == texture);
                            assert(pending@[pending@.len() - 1] == texture);
                        } else {
                            assert(!barrier_between(ops@, j, i as int));
                            assert(unbarriered_dispatch(ops@, i as int, t));
                            assert(pending0.contains(t));
                            let idx = choose|idx: int|
                                0 <= idx < pending0.len() && pending0[idx] == t;
                            assert(pending@[idx] == t);
                        }
                    };
                    lemma_prefix_step_no_draw(ops@, i as int);
                }
            },
            GpuOp::MemoryBarrierImageAccess => {
                pending = Vec::new();
                proof {
                    assert(is_barrier(ops@[i as int]));
                    assert forall|t: u32| !(#[trigger] unbarriered_dispatch(ops@, i as int + 1,
                        t)) by {
                        if unbarriered_dispatch(ops@, i as int + 1, t) {
                            let j = choose|j: int|
                                0 <= j < i as int + 1 && #[trigger] writes_texture(ops@[j], t)
                                    && !barrier_between(ops@, j, i as int + 1);
                            assert(j != i as int);
                            assert(j < i as int && is_barrier(ops@[i as int]));
                            assert(barrier_between(ops@, j, i as int + 1));
                        }
                    };
                    lemma_prefix_step_no_draw(ops@, i as int);
                }
            },
            GpuOp::DrawQuad { texture } => {
                let hit: bool = contains_u32(&pending, texture);
                if hit {
                    ok = false;
                }
                proof {
                    lemma_pending_stable_step(ops@, i as int);
                    lemma_prefix_step_draw(ops@, i as int, texture, pending@.contains(texture));
                    if !pending@.contains(texture) && prefix_ok(ops@, i as int) {
                    }
                }
            },
            _ => {
                proof {
                    lemma_pending_stable_step(ops@, i as int);
                    lemma_prefix_step_no_draw(ops@, i as int);
                }
            },
        }
        i = i + 1;
    }
    ok
}

/// Stepping past a command that is neither a dispatch nor a barrier keeps
/// the set of unbarriered dispatches.
proof fn lemma_pending_stable_step(ops: Seq<GpuOp>, i: int)
    requires
        0 <= i < ops.len(),
        !is_dispatch(ops[i]),
        !is_barrier(ops[i]),
    ensures
        forall|t: u32| unbarriered_dispatch(ops, i + 1, t) <==> unbarriered_dispatch(ops, i, t),
{
    assert forall|t: u32| unbarriered_dispatch(ops, i + 1, t) implies unbarriered_dispatch(
        ops,
        i,
        t,
    ) by {
        let j = choose|j: int|
            0 <= j < i + 1 && #[trigger] writes_texture(ops[j], t) && !barrier_between(
                ops,
                j,
                i + 1,
            );
        assert(j != i);
        assert(!barrier_between(ops, j, i));
    };
    assert forall|t: u32| unbarriered_dispatch(ops, i, t) implies unbarriered_dispatch(
        ops,
        i + 1,
        t,
    ) by {
        let j = choose|j: int|
            0 <= j < i && #[trigger] writes_texture(ops[j], t) && !barrier_between(ops, j, i);
        assert(!barrier_between(ops, j, i + 1)) by {
            if barrier_between(ops, j, i + 1) {
                let k = choose|k: int| j < k < i + 1 && #[trigger] is_barrier(ops[k]);
                assert(k != i);
                assert(barrier_between(ops, j, i));
            }
        };
    };
}

/// Stepping past a non-draw command keeps the protocol status of the
/// prefix.
proof fn lemma_prefix_step_no_draw(ops: Seq<GpuOp>, i: int)
    requires
        0 <= i < ops.len(),
        !(ops[i] is DrawQuad),
    ensures
        prefix_ok(ops, i + 1) == prefix_ok(ops, i),
{
    if prefix_ok(ops, i) {
        assert forall|j: int, i2: int, t: u32|
            0 <= j < i2 < i + 1 && #[trigger] writes_texture(ops[j], t)
                && #[trigger] samples_texture(ops[i2], t) implies barrier_between(
            ops,
            j,
            i2,
        ) by {
            assert(i2 != i);
        };
    } else {
        assert(!prefix_ok(ops, i + 1));
    }
}

/// Stepping past a draw: the prefix stays valid exactly when it was valid
/// and the drawn texture has no unbarriered dispatch.
proof fn lemma_prefix_step_draw(ops: Seq<GpuOp>, i: int, texture: u32, pending_hit: bool)
    requires
        0 <= i < ops.len(),
        ops[i] == (GpuOp::DrawQuad { texture }),
        pending_hit == unbarriered_dispatch(ops, i, texture),
    ensures
        prefix_ok(ops, i + 1) == (prefix_ok(ops, i) && !pending_hit),
{
    if prefix_ok(ops, i) && !pending_hit {
        assert forall|j: int, i2: int, t: u32|
            0 <= j < i2 < i + 1 && #[trigger] writes_texture(ops[j], t)
                && #[trigger] samples_texture(ops[i2], t) implies barrier_between(
            ops,
            j,
            i2,
        ) by {
            if i2 == i {
                assert(t == texture);
                assert(!unbarriered_dispatch(ops, i, texture));
                assert(barrier_between(ops, j, i));
            }
        };
    }
    if prefix_ok(ops, i + 1) {
        assert forall|j: int, i2: int, t: u32|
            0 <= j < i2 < i && #[trigger] writes_texture(ops[j], t) && #[trigger] samples_texture(
                ops[i2],
                t,
            ) implies barrier_between(ops, j, i2) by {};
        if pending_hit {
            let j = choose|j: int|
                0 <= j < i && #[trigger] writes_texture(ops[j], texture) && !barrier_between(
                    ops,
                    j,
                    i,
                );
            assert(samples_texture(ops[i], texture));
            assert(barrier_between(ops, j, i));
        }
    }
}

/// One-time context setup: enable 3D texturing.
pub fn initialize(dev: &mut GpuDevice)
    requires
        device_wf(*old(dev)),
    ensures
        device_wf(*final(dev)),
        final(dev).ops@ == old(dev).ops@ + seq![GpuOp::EnableTexture3d],
        final(dev).next_texture_id == old(dev).next_texture_id,
{
    let ghost tail = seq![GpuOp::EnableTexture3d];
    proof {
        lemma_quiet_block(tail);
        lemma_extend_protocol(dev.ops@, tail);
    }
    dev.ops.push(GpuOp::EnableTexture3d);
    proof {
        assert(final(dev).ops@ =~= old(dev).ops@ + tail);
    }
}

} // verus!
