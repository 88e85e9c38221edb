//! Render-graph objects: the render pass, the framebuffers (one per
//! swapchain image) and the graphics pipeline, all described by the plain
//! values they are derived from.
//!
//! The render pass depends only on the swapchain's color format, so it
//! survives a resize; the framebuffers bind the render pass to the
//! swapchain's images and record the swapchain generation they were built
//! against, so recreation invalidates them all at once; the pipeline
//! depends on the render pass and on the two shader modules, and with a
//! dynamic viewport it is never rebuilt.

use vstd::prelude::*;

use crate::swapchain::Swapchain;

verus! {

/// What happens to the color attachment when the render pass begins.
#[derive(Clone, Copy, Debug, PartialEq, Eq, Structural)]
pub enum LoadOp {
    Clear,
    Keep,
}

/// What happens to the color attachment when the render pass ends.
#[derive(Clone, Copy, Debug, PartialEq, Eq, Structural)]
pub enum StoreOp {
    Store,
    Discard,
}

/// A render pass over a single color attachment: cleared at load, stored at
/// the end, no depth or stencil attachment.
#[derive(Clone, Copy, Debug, PartialEq, Eq, Structural)]
pub struct RenderPass {
    pub color_format: u32,
    pub load_op: LoadOp,
    pub store_op: StoreOp,
    pub has_depth_stencil: bool,
}

/// A framebuffer binds the render pass to one swapchain image. It records
/// the image index, the image's dimensions, and the generation of the
/// swapchain it was built against.
#[derive(Clone, Copy, Debug, PartialEq, Eq, Structural)]
pub struct FrameBuffer {
    pub color_format: u32,
    pub image_index: u32,
    pub width: u32,
    pub height: u32,
    pub generation: u64,
}

/// The stage a shader module was compiled for.
#[derive(Clone, Copy, Debug, PartialEq, Eq, Structural)]
pub enum ShaderStage {
    Vertex,
    Fragment,
}

/// A compiled shader module, as handed in by the bytecode collaborator: an
/// opaque handle plus the stage it serves.
#[derive(Clone, Copy, Debug, PartialEq, Eq, Structural)]
pub struct ShaderModule {
    pub id: u64,
    pub stage: ShaderStage,
}

/// Primitive topologies of the fixed-function stage.
#[derive(Clone, Copy, Debug, PartialEq, Eq, Structural)]
pub enum Topology {
    PointList,
    LineList,
    TriangleList,
}

/// The graphics pipeline: one vertex and one fragment shader, triangle-list
/// topology, a dynamic viewport, no depth test. Because the viewport is
/// dynamic, the pipeline outlives swapchain recreations.
#[derive(Clone, Copy, Debug, PartialEq, Eq, Structural)]
pub struct RenderPipeline {
    pub color_format: u32,
    pub vertex_shader: u64,
    pub fragment_shader: u64,
    pub topology: Topology,
    pub dynamic_viewport: bool,
    pub depth_test: bool,
}

/// A vertex buffer, reduced to what frame scheduling depends on: how many
/// vertices it holds. The vertex data itself lives with the platform.
#[derive(Clone, Copy, Debug, PartialEq, Eq, Structural)]
pub struct VertexBuffer {
    pub vertex_count: usize,
}

/// The render pass derived from a color format.
pub open spec fn spec_render_pass(color_format: u32) -> RenderPass {
    RenderPass {
        color_format,
        load_op: LoadOp::Clear,
        store_op: StoreOp::Store,
        has_depth_stencil: false,
    }
}

/// The framebuffer bound to image `i` of a swapchain.
pub open spec fn spec_frame_buffer(sc: Swapchain, i: int) -> FrameBuffer {
    FrameBuffer {
        color_format: sc.format,
        image_index: i as u32,
        width: sc.width,
        height: sc.height,
        generation: sc.generation,
    }
}

/// The full framebuffer list of a swapchain: one per image, in image order.
pub open spec fn spec_frame_buffers(sc: Swapchain) -> Seq<FrameBuffer> {
    Seq::new(sc.image_count as nat, |i: int| spec_frame_buffer(sc, i))
}

/// The framebuffer list `fbs` is the current one for swapchain `sc`: built
/// against its generation, one per image, matching its dimensions.
pub open spec fn frame_buffers_current(fbs: Seq<FrameBuffer>, sc: Swapchain) -> bool {
    fbs == spec_frame_buffers(sc)
}

/// The pipeline derived from a render pass and two shader handles.
pub open spec fn spec_pipeline(rp: RenderPass, vs: u64, fs: u64) -> RenderPipeline {
    RenderPipeline {
        color_format: rp.color_format,
        vertex_shader: vs,
        fragment_shader: fs,
        topology: Topology::TriangleList,
        dynamic_viewport: true,
        depth_test: false,
    }
}

/// Creates the render pass for the given color format: a single subpass
/// over a single color attachment, cleared at load and stored at the end,
/// with no depth or stencil attachment.
pub fn create_render_pass(color_format: u32) -> (rp: RenderPass)
    ensures
        rp == spec_render_pass(color_format),
{
    RenderPass {
        color_format,
        load_op: LoadOp::Clear,
        store_op: StoreOp::Store,
        has_depth_stencil: false,
    }
}

/// Creates the framebuffer list for a swapchain: exactly one framebuffer
/// per swapchain image, each binding the render pass to that image at the
/// swapchain's dimensions and generation. The render pass must match the
/// swapchain's format.
pub fn create_frame_buffers(rp: &RenderPass, sc: &Swapchain) -> (fbs: Vec<FrameBuffer>)
    requires
        rp.color_format == sc.format,
    ensures
        fbs@ == spec_frame_buffers(*sc),
        fbs@.len() == sc.image_count,
{
    let mut fbs: Vec<FrameBuffer> = Vec::new();
    let mut i: u32 = 0;
    while i < sc.image_count
        invariant
            0 <= i <= sc.image_count,
            rp.color_format == sc.format,
            fbs@.len() == i,
            forall|j: int| 0 <= j < i ==> fbs@[j] == spec_frame_buffer(*sc, j),
        decreases sc.image_count - i,
    {
        fbs.push(
            FrameBuffer {
                color_format: rp.color_format,
                image_index: i,
                width: sc.width,
                height: sc.height,
                generation: sc.generation,
            },
        );
        i = i + 1;
    }
    proof {
        assert(fbs@ =~= spec_frame_buffers(*sc));
    }
    fbs
}

/// Creates the graphics pipeline from the render pass and the two shader
/// modules: fixed triangle-list topology, one dynamic viewport, no depth
/// test.
pub fn create_pipeline(rp: &RenderPass, vs: &ShaderModule, fs: &ShaderModule) -> (p: RenderPipeline)
    requires
        vs.stage == ShaderStage::Vertex,
        fs.stage == ShaderStage::Fragment,
    ensures
        p == spec_pipeline(*rp, vs.id, fs.id),
{
    RenderPipeline {
        color_format: rp.color_format,
        vertex_shader: vs.id,
        fragment_shader: fs.id,
        topology: Topology::TriangleList,
        dynamic_viewport: true,
        depth_test: false,
    }
}

/// For every swapchain, the framebuffer list built right after swapchain
/// creation has exactly as many framebuffers as the swapchain has images,
/// and each one matches the swapchain's dimensions and generation.
pub proof fn lemma_frame_buffers_cover_images(sc: Swapchain)
    ensures
        spec_frame_buffers(sc).len() == sc.image_count,
        forall|i: int|
            0 <= i < sc.image_count ==> {
                &&& (#[trigger] spec_frame_buffers(sc)[i]).width == sc.width
                &&& spec_frame_buffers(sc)[i].height == sc.height
                &&& spec_frame_buffers(sc)[i].generation == sc.generation
                &&& spec_frame_buffers(sc)[i].image_index == i
            },
{
}

/// Creating a swapchain and immediately building its framebuffer list
/// yields exactly one framebuffer per swapchain image, whatever the
/// surface's dimensions.
pub proof fn lemma_create_then_frame_buffers_cover(
    caps: crate::swapchain::SurfaceCaps,
    surface: crate::swapchain::SurfaceState,
)
    ensures
        spec_frame_buffers(crate::swapchain::spec_create(caps, surface)).len()
            == crate::swapchain::spec_create(caps, surface).image_count,
{
}

/// Framebuffers built against one swapchain are never current for a
/// recreated one: recreation advances the generation, which every
/// framebuffer records.
pub proof fn lemma_recreation_invalidates_frame_buffers(
    fbs: Seq<FrameBuffer>,
    sc: Swapchain,
    new_sc: Swapchain,
)
    requires
        frame_buffers_current(fbs, sc),
        new_sc.generation != sc.generation,
        new_sc.image_count > 0,
    ensures
        !frame_buffers_current(fbs, new_sc),
{
    if frame_buffers_current(fbs, new_sc) {
        assert(fbs.len() == sc.image_count) by {
            assert(spec_frame_buffers(sc).len() == sc.image_count as nat);
        }
        assert(fbs.len() == new_sc.image_count) by {
            assert(spec_frame_buffers(new_sc).len() == new_sc.image_count as nat);
        }
        assert(fbs[0] == spec_frame_buffer(sc, 0));
        assert(fbs[0] == spec_frame_buffer(new_sc, 0));
        assert(fbs[0].generation == sc.generation);
        assert(fbs[0].generation == new_sc.generation);
    }
}

} // verus!
