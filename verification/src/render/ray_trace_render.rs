use vstd::prelude::*;

use vstd::arithmetic::div_mod::lemma_fundamental_div_mod;

use crate::render::packer::SCENE_RECORD_BYTES;
use crate::render::packer::dropped_count;
use crate::render::packer::pack;
use crate::render::packer::pack_spec;
use crate::world::scene::Scene;

verus! {

/// Side length of one square compute workgroup. The host's dispatch grid
/// and the kernel's declared workgroup size must both use this constant;
/// they form a layout contract like the packed record's.
pub const WORKGROUP_SIZE: u32 = 8;

/// The composite pass draws this many procedurally generated vertices:
/// two triangles that together cover the whole viewport.
pub const FULLSCREEN_VERTEX_COUNT: u32 = 6;

/// The two device passes of one frame, in the order they are recorded.
#[derive(Clone, Copy, Debug, PartialEq, Eq, Structural)]
pub enum PassKind {
    /// The compute dispatch that writes every pixel of the off-screen target.
    RayTrace,
    /// The fullscreen pass that samples the off-screen target onto the surface.
    Composite,
}

/// The pass order of every frame: the ray trace writes the off-screen
/// target before the composite reads it.
pub open spec fn frame_pass_order() -> Seq<PassKind> {
    seq![PassKind::RayTrace, PassKind::Composite]
}

/// Law: in the recorded pass order, every composite pass comes after every
/// ray-trace pass, so within one command sequence the composite stage only
/// reads what this frame's dispatch wrote.
pub proof fn lemma_composite_after_ray_trace(passes: Seq<PassKind>)
    requires
        passes == frame_pass_order(),
    ensures
        passes.len() == 2,
        passes[0] is RayTrace,
        passes[1] is Composite,
        forall|i: int, j: int|
            0 <= i < passes.len() && 0 <= j < passes.len() && passes[i] is RayTrace
                && passes[j] is Composite ==> i < j,
{
}

/// How a resize request changes the output resolution: a request with a
/// zero dimension (a minimized or degenerate window) changes nothing,
/// any other request replaces the resolution.
pub open spec fn resize_spec(size: (u32, u32), width: u32, height: u32) -> (u32, u32) {
    if width > 0 && height > 0 {
        (width, height)
    } else {
        size
    }
}

/// Law: resizing to the same dimensions twice in a row gives the same
/// resolution as resizing once.
pub proof fn lemma_resize_idempotent(size: (u32, u32), width: u32, height: u32)
    ensures
        resize_spec(resize_spec(size, width, height), width, height) == resize_spec(
            size,
            width,
            height,
        ),
{
}

/// Law: a degenerate resize is a no-op — the prior resolution stands.
pub proof fn lemma_resize_degenerate(size: (u32, u32), width: u32, height: u32)
    requires
        width == 0 || height == 0,
    ensures
        resize_spec(size, width, height) == size,
{
}

/// Workgroups along one axis: the fewest whole workgroups that cover `dim`
/// pixels.
pub fn workgroup_count(dim: u32) -> (r: u32)
    ensures
        r * WORKGROUP_SIZE >= dim,
        dim > 0 ==> (r - 1) * WORKGROUP_SIZE < dim,
        dim == 0 ==> r == 0,
{
    proof {
        lemma_fundamental_div_mod(dim as int, WORKGROUP_SIZE as int);
    }
    dim / WORKGROUP_SIZE + if dim % WORKGROUP_SIZE != 0 {
        1
    } else {
        0
    }
}

/// Everything the device work of one frame consumes, computed host-side:
/// the packed scene record to upload, the truncation report, the dispatch
/// grid, the fullscreen draw size, and the pass order.
pub struct FramePlan {
    /// The bytes to upload into the scene buffer before dispatch.
    pub scene_bytes: Vec<u8>,
    /// How many spheres the capacity policy dropped from this frame.
    pub dropped_spheres: usize,
    /// Workgroups to dispatch along x.
    pub workgroups_x: u32,
    /// Workgroups to dispatch along y.
    pub workgroups_y: u32,
    /// Vertices the composite pass draws.
    pub fullscreen_vertices: u32,
    /// The passes of the frame, in recording order.
    pub passes: Vec<PassKind>,
}

/// The renderer core: the current output resolution and the per-frame
/// decisions made from it. The device, surface and window handles that act
/// on these decisions live with the host application.
pub struct RayTraceRender {
    /// Current output width in pixels.
    pub width: u32,
    /// Current output height in pixels.
    pub height: u32,
}

impl RayTraceRender {
    /// A well-formed renderer has a non-degenerate resolution.
    pub open spec fn wf(&self) -> bool {
        self.width > 0 && self.height > 0
    }

    /// The current output resolution.
    pub open spec fn size_spec(&self) -> (u32, u32) {
        (self.width, self.height)
    }

    /// Builds the core at the initial surface size.
    pub fn new(width: u32, height: u32) -> (r: RayTraceRender)
        requires
            width > 0,
            height > 0,
        ensures
            r.wf(),
            r.size_spec() == (width, height),
    {
        RayTraceRender { width, height }
    }

    /// Adopts a new output resolution, ignoring degenerate requests, as
    /// `resize_spec` says. After a real change the caller must reconfigure
    /// the surface and recreate the off-screen target before rendering.
    pub fn resize(&mut self, width: u32, height: u32)
        requires
            old(self).wf(),
        ensures
            final(self).wf(),
            final(self).size_spec() == resize_spec(old(self).size_spec(), width, height),
    {
        if width > 0 && height > 0 {
            self.width = width;
            self.height = height;
        }
    }

    /// The resolution the caller's resize and input logic should use.
    pub fn current_size(&self) -> (r: (u32, u32))
        ensures
            r == self.size_spec(),
    {
        (self.width, self.height)
    }

    /// Reserved hook for animating scene state between frames; it changes
    /// nothing in this core.
    pub fn update(&mut self)
        ensures
            *final(self) == *old(self),
    {
    }

    /// Lays out one frame: packs the scene, sizes the dispatch grid to
    /// cover every pixel of the current resolution, and fixes the pass
    /// order. Performing the plan — upload, dispatch, draw, present — is
    /// the host application's part.
    pub fn plan_frame(&self, scene: &Scene) -> (plan: FramePlan)
        requires
            self.wf(),
        ensures
            plan.scene_bytes@ == pack_spec(scene.camera, scene.spheres@),
            plan.scene_bytes@.len() == SCENE_RECORD_BYTES,
            plan.dropped_spheres == dropped_count(scene.spheres@.len()),
            plan.workgroups_x * WORKGROUP_SIZE >= self.size_spec().0,
            (plan.workgroups_x - 1) * WORKGROUP_SIZE < self.size_spec().0,
            plan.workgroups_y * WORKGROUP_SIZE >= self.size_spec().1,
            (plan.workgroups_y - 1) * WORKGROUP_SIZE < self.size_spec().1,
            plan.fullscreen_vertices == FULLSCREEN_VERTEX_COUNT,
            plan.passes@ == frame_pass_order(),
    {
        let (scene_bytes, dropped_spheres) = pack(scene);
        let workgroups_x = workgroup_count(self.width);
        let workgroups_y = workgroup_count(self.height);
        let mut passes: Vec<PassKind> = Vec::new();
        passes.push(PassKind::RayTrace);
        passes.push(PassKind::Composite);
        proof {
            assert(passes@ =~= frame_pass_order());
        }
        FramePlan {
            scene_bytes,
            dropped_spheres,
            workgroups_x,
            workgroups_y,
            fullscreen_vertices: FULLSCREEN_VERTEX_COUNT,
            passes,
        }
    }
}

} // verus!
