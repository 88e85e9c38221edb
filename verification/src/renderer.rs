//! The renderer context: one owner for the swapchain description, the
//! frame scheduler and the dynamic viewport, with the operations the
//! engine drives each tick. The platform shell performs the GPU calls and
//! feeds their reports in; every decision and every invariant — above all
//! that frames only ever run against the current swapchain and its
//! framebuffers — is made and proved here.

use vstd::prelude::*;

use crate::frame::{
    AcquireOutcome, AcquireResult, ClearColor, FrameFuture, FrameScheduler, PresentOutcome,
    PresentResult,
};
use crate::render_graph::{
    create_frame_buffers, create_pipeline, create_render_pass, frame_buffers_current,
    spec_frame_buffers, spec_pipeline, spec_render_pass, FrameBuffer, RenderPass, RenderPipeline,
    ShaderModule, ShaderStage, VertexBuffer,
};
use crate::swapchain::{
    create, recreate, spec_create, spec_recreate, RecreateOutcome, SurfaceCaps, SurfaceState,
    Swapchain, SwapchainError,
};

verus! {

/// Outcome of one frame's draw: drawn and presented; skipped over a
/// masked, below-limit device fault; in need of swapchain recreation; or
/// fatal (an unexpected acquisition fault, or presentation faults past the
/// escalation limit).
#[derive(Clone, Copy, Debug, PartialEq, Eq, Structural)]
pub enum DrawOutcome {
    Drawn,
    Skipped,
    NeedsRecreate,
    Fatal(u32),
}

/// The renderer: the swapchain it currently runs on, the frame scheduler,
/// and the viewport set when framebuffers are (re)built.
pub struct Renderer {
    pub swapchain: Option<Swapchain>,
    pub scheduler: FrameScheduler,
    pub viewport: Option<(u32, u32)>,
}

impl Renderer {
    /// The scheduler is always synchronized with the swapchain the
    /// renderer holds.
    pub open spec fn wf(&self) -> bool {
        self.swapchain matches Some(sc) ==> self.scheduler.swapchain_generation == sc.generation
    }

    /// Creates the renderer for a live, non-degenerate surface: negotiates
    /// the swapchain and starts the frame scheduler idle, with no GPU
    /// future yet.
    pub fn new(caps: &SurfaceCaps, surface: &SurfaceState) -> (r: Result<Renderer, SwapchainError>)
        requires
            caps.wf(),
        ensures
            !surface.alive ==> r == Err::<Renderer, SwapchainError>(SwapchainError::WindowGone),
            surface.alive && surface.degenerate() ==> r == Err::<Renderer, SwapchainError>(
                SwapchainError::UnsupportedDimensions,
            ),
            surface.alive && !surface.degenerate() ==> (r matches Ok(rd) && {
                &&& rd.swapchain == Some(spec_create(*caps, *surface))
                &&& rd.scheduler.state is Idle
                &&& rd.scheduler.future is None
                &&& rd.scheduler.frames_submitted == 0
                &&& rd.scheduler.consecutive_faults == 0
                &&& rd.viewport is None
                &&& rd.wf()
            }),
    {
        match create(caps, surface) {
            Ok(sc) => Ok(
                Renderer {
                    swapchain: Some(sc),
                    scheduler: FrameScheduler::new(sc.generation),
                    viewport: None,
                },
            ),
            Err(e) => Err(e),
        }
    }

    /// Recreates the swapchain against the window's current dimensions and
    /// resynchronizes the scheduler. A degenerate window yields the soft
    /// `UnsupportedDimensions` outcome and changes nothing, so the caller
    /// skips this frame and retries next tick; a vanished window yields
    /// `WindowGone` and changes nothing. On success the old swapchain is
    /// dropped (its outstanding GPU work finishes naturally) and every
    /// object built against it is no longer current.
    pub fn recreate_swapchain(&mut self, surface: &SurfaceState) -> (r: RecreateOutcome)
        requires
            old(self).wf(),
            old(self).swapchain matches Some(sc) && sc.generation < u64::MAX,
            old(self).scheduler.state is Idle || old(self).scheduler.state is SwapchainStale,
        ensures
            final(self).wf(),
            !surface.alive ==> r == RecreateOutcome::WindowGone && *final(self) == *old(self),
            surface.alive && surface.degenerate() ==> r == RecreateOutcome::UnsupportedDimensions
                && *final(self) == *old(self),
            old(self).swapchain matches Some(sc) ==> (surface.alive && !surface.degenerate()
                ==> {
                &&& r == RecreateOutcome::Recreated(spec_recreate(sc, *surface))
                &&& final(self).swapchain == Some(spec_recreate(sc, *surface))
                &&& final(self).scheduler.state is Idle
                &&& final(self).scheduler.future == old(self).scheduler.future
                &&& final(self).scheduler.frames_submitted == old(self).scheduler.frames_submitted
                &&& final(self).scheduler.consecutive_faults == old(
                    self,
                ).scheduler.consecutive_faults
                &&& final(self).viewport == old(self).viewport
            }),
    {
        let sc = self.swapchain.unwrap();
        match recreate(&sc, surface) {
            RecreateOutcome::Recreated(new_sc) => {
                self.swapchain = Some(new_sc);
                self.scheduler.complete_recreation(&new_sc);
                RecreateOutcome::Recreated(new_sc)
            },
            RecreateOutcome::UnsupportedDimensions => RecreateOutcome::UnsupportedDimensions,
            RecreateOutcome::WindowGone => RecreateOutcome::WindowGone,
        }
    }

    /// Wraps vertex data for drawing; the data itself stays with the
    /// platform, the core tracks the count the draw command will cover.
    pub fn create_vertex_buffer(&self, vertex_count: usize) -> (vb: VertexBuffer)
        ensures
            vb.vertex_count == vertex_count,
    {
        VertexBuffer { vertex_count }
    }

    /// The render pass for the current swapchain's color format.
    pub fn create_simple_render_pass(&self) -> (rp: RenderPass)
        requires
            self.swapchain is Some,
        ensures
            self.swapchain matches Some(sc) ==> rp == spec_render_pass(sc.format),
    {
        let sc = self.swapchain.unwrap();
        create_render_pass(sc.format)
    }

    /// Builds the framebuffer list for the current swapchain — one per
    /// image — and sets the dynamic viewport to the images' dimensions.
    pub fn create_frame_buffers(&mut self, rp: &RenderPass) -> (fbs: Vec<FrameBuffer>)
        requires
            old(self).swapchain matches Some(sc) && rp.color_format == sc.format,
        ensures
            final(self).swapchain == old(self).swapchain,
            final(self).scheduler == old(self).scheduler,
            old(self).swapchain matches Some(sc) ==> {
                &&& fbs@ == spec_frame_buffers(sc)
                &&& fbs@.len() == sc.image_count
                &&& frame_buffers_current(fbs@, sc)
                &&& final(self).viewport == Some((sc.width, sc.height))
            },
    {
        let sc = self.swapchain.unwrap();
        self.viewport = Some((sc.width, sc.height));
        create_frame_buffers(rp, &sc)
    }

    /// The graphics pipeline over the given render pass and shader pair.
    pub fn create_simple_render_pipeline(
        &self,
        rp: &RenderPass,
        vs: &ShaderModule,
        fs: &ShaderModule,
    ) -> (p: RenderPipeline)
        requires
            vs.stage == ShaderStage::Vertex,
            fs.stage == ShaderStage::Fragment,
        ensures
            p == spec_pipeline(*rp, vs.id, fs.id),
    {
        create_pipeline(rp, vs, fs)
    }

    /// Begins the frame: first frame installs a trivially satisfied GPU
    /// future, later frames reclaim what the in-flight one has finished.
    pub fn begin_frame(&mut self)
        requires
            old(self).scheduler.state is Idle,
        ensures
            final(self).swapchain == old(self).swapchain,
            final(self).viewport == old(self).viewport,
            final(self).scheduler.state is FrameBegun,
            old(self).scheduler.future is None ==> final(self).scheduler.future == Some(
                FrameFuture::Ready,
            ),
            old(self).scheduler.future is Some ==> final(self).scheduler.future == old(
                self,
            ).scheduler.future,
            final(self).scheduler.swapchain_generation == old(self).scheduler.swapchain_generation,
            final(self).scheduler.consecutive_faults == old(self).scheduler.consecutive_faults,
            final(self).scheduler.frames_submitted == old(self).scheduler.frames_submitted,
            old(self).wf() ==> final(self).wf(),
    {
        self.scheduler.begin_frame();
    }

    /// One frame's work after `begin_frame`, deciding on the platform's
    /// acquisition and presentation reports in turn: acquire an image,
    /// record the clear-draw-end command buffer against its framebuffer,
    /// submit, and present.
    ///
    /// A stale report from either side yields `NeedsRecreate` — an
    /// expected signal, never an error — and leaves the scheduler in
    /// `SwapchainStale`, so no further frame can begin before
    /// `recreate_swapchain`. An acquisition fault is immediately fatal; a
    /// presentation fault is masked as `Skipped` until
    /// `UNEXPECTED_FAULT_LIMIT` faults happen in a row, at which point it
    /// is fatal too.
    pub fn draw_data(
        &mut self,
        pipeline: &RenderPipeline,
        clear: ClearColor,
        vertices: &VertexBuffer,
        frame_buffers: &Vec<FrameBuffer>,
        acquire: AcquireResult,
        present: PresentResult,
    ) -> (o: DrawOutcome)
        requires
            old(self).wf(),
            old(self).scheduler.state is FrameBegun,
            old(self).swapchain matches Some(sc) && {
                &&& frame_buffers_current(frame_buffers@, sc)
                &&& (acquire matches AcquireResult::Image(i) ==> i < sc.image_count)
                &&& pipeline.color_format == sc.format
            },
            old(self).scheduler.frames_submitted < u64::MAX,
        ensures
            final(self).wf(),
            final(self).swapchain == old(self).swapchain,
            final(self).viewport == old(self).viewport,
            final(self).scheduler.swapchain_generation == old(self).scheduler.swapchain_generation,
            acquire is OutOfDate ==> {
                &&& o == DrawOutcome::NeedsRecreate
                &&& final(self).scheduler.state is SwapchainStale
                &&& final(self).scheduler.frames_submitted == old(self).scheduler.frames_submitted
            },
            acquire matches AcquireResult::DeviceFault(c) ==> o == DrawOutcome::Fatal(c)
                && *final(self) == *old(self),
            acquire is Image && present is Completed ==> {
                &&& o == DrawOutcome::Drawn
                &&& final(self).scheduler.state is Idle
                &&& final(self).scheduler.consecutive_faults == 0
                &&& final(self).scheduler.future == Some(
                    FrameFuture::InFlight(old(self).scheduler.frames_submitted),
                )
                &&& final(self).scheduler.frames_submitted == old(self).scheduler.frames_submitted
                    + 1
            },
            acquire is Image && present is OutOfDate ==> {
                &&& o == DrawOutcome::NeedsRecreate
                &&& final(self).scheduler.state is SwapchainStale
                &&& final(self).scheduler.future == Some(FrameFuture::Ready)
            },
            present matches PresentResult::DeviceFault(c) ==> (acquire is Image ==> {
                &&& final(self).scheduler.state is Idle
                &&& final(self).scheduler.future == Some(FrameFuture::Ready)
                &&& (o == DrawOutcome::Fatal(c) <==> old(self).scheduler.consecutive_faults + 1
                    >= crate::frame::UNEXPECTED_FAULT_LIMIT)
                &&& (o == DrawOutcome::Skipped <==> old(self).scheduler.consecutive_faults + 1
                    < crate::frame::UNEXPECTED_FAULT_LIMIT)
            }),
    {
        let sc = self.swapchain.unwrap();
        proof {
            assert(frame_buffers@.len() == sc.image_count);
        }
        match self.scheduler.acquire_image(&sc, acquire) {
            AcquireOutcome::Acquired(_) => {},
            AcquireOutcome::Stale => {
                return DrawOutcome::NeedsRecreate;
            },
            AcquireOutcome::Fatal(c) => {
                return DrawOutcome::Fatal(c);
            },
        }
        let cb = self.scheduler.record_commands(&sc, frame_buffers, pipeline, vertices, clear);
        self.scheduler.submit(&cb);
        match self.scheduler.present(present) {
            PresentOutcome::Completed => {
                self.scheduler.complete_frame();
                DrawOutcome::Drawn
            },
            PresentOutcome::Stale => DrawOutcome::NeedsRecreate,
            PresentOutcome::Skipped => {
                self.scheduler.complete_frame();
                DrawOutcome::Skipped
            },
            PresentOutcome::Fatal(c) => {
                self.scheduler.complete_frame();
                DrawOutcome::Fatal(c)
            },
        }
    }
}

} // verus!
