//! The engine context: one explicit struct owning the renderer, the
//! render-graph objects, the scene and the frame statistics, with the
//! decisions the event loop drives each tick — event coalescing, swapchain
//! rebuilding, and the per-frame draw.
//!
//! The platform shell polls the window, reads the clock and performs the
//! GPU work; it hands events, timestamps and reports in as plain values.
//! The standing invariant is the render loop's: the framebuffer list
//! always belongs to the swapchain the renderer currently holds, so no
//! frame can ever present into a framebuffer of a dropped swapchain.

use vstd::prelude::*;

use crate::assets::SceneAsset;
use crate::config::WindowConfig;
use crate::frame::{AcquireResult, ClearColor, PresentResult};
use crate::render_graph::{
    frame_buffers_current, spec_frame_buffers, spec_pipeline, spec_render_pass, FrameBuffer,
    RenderPass, RenderPipeline, ShaderModule, ShaderStage,
};
use crate::renderer::{DrawOutcome, Renderer};
use crate::scene::Scene;
use crate::stats::EngineStats;
use crate::swapchain::{
    spec_create, spec_recreate, RecreateOutcome, SurfaceCaps, SurfaceState, Swapchain,
    SwapchainError,
};

verus! {

/// The rendering backends the engine can be built on.
#[derive(Clone, Copy, Debug, PartialEq, Eq, Structural)]
pub enum RendererType {
    Vulkan,
}

/// The window notifications the engine reacts to, one batch per tick.
#[derive(Clone, Copy, Debug, PartialEq, Eq, Structural)]
pub enum WindowEvent {
    CloseRequested,
    Resized(u32, u32),
    Other,
}

/// The triangle the prototype scene draws.
pub const TRIANGLE_VERTEX_COUNT: usize = 3;

/// Whether a batch of events asks the engine to quit.
pub open spec fn any_close(events: Seq<WindowEvent>) -> bool {
    exists|i: int| 0 <= i < events.len() && events[i] is CloseRequested
}

/// Whether a batch of events reports a resize.
pub open spec fn any_resize(events: Seq<WindowEvent>) -> bool {
    exists|i: int| 0 <= i < events.len() && events[i] is Resized
}

/// The engine: the renderer and everything the frame loop mutates.
pub struct Engine {
    pub app_id: String,
    /// The geometry requested at startup; the surface reports actuals.
    pub window_config: WindowConfig,
    pub quit: bool,
    pub renderer: Renderer,
    pub render_pass: Option<RenderPass>,
    pub frame_buffers: Vec<FrameBuffer>,
    pub render_pipeline: Option<RenderPipeline>,
    /// Resize events and staleness reports are coalesced into this one
    /// flag; recreation happens at the next tick boundary, not mid-frame.
    pub recreate_swapchain: bool,
    pub scene: Scene,
    pub stats: EngineStats,
}

impl Engine {
    /// The swapchain the engine currently runs on.
    pub open spec fn spec_swapchain(&self) -> Swapchain {
        self.renderer.swapchain->0
    }

    /// The engine's standing invariant: the renderer is synchronized with
    /// its swapchain, and every render-graph object on hand was derived
    /// from that same swapchain — the framebuffer list matches its image
    /// count, dimensions and generation, and render pass and pipeline
    /// target its format.
    pub open spec fn wf(&self) -> bool {
        &&& self.renderer.wf()
        &&& self.renderer.swapchain is Some
        &&& (self.render_pass matches Some(rp) ==> rp.color_format == self.spec_swapchain().format)
        &&& (self.frame_buffers@.len() > 0 ==> frame_buffers_current(
            self.frame_buffers@,
            self.spec_swapchain(),
        ))
        &&& (self.render_pipeline matches Some(p) ==> p.color_format
            == self.spec_swapchain().format)
    }

    /// Initializes the engine for the chosen backend: negotiates the
    /// swapchain against the surface and starts with no render-graph
    /// objects, an empty scene, and fresh statistics. Fails with
    /// `WindowGone` or `UnsupportedDimensions` exactly as swapchain
    /// creation does; both abort startup.
    pub fn new(
        app_id: String,
        renderer_type: RendererType,
        window_config: &WindowConfig,
        caps: &SurfaceCaps,
        surface: &SurfaceState,
        now_ms: u64,
    ) -> (r: Result<Engine, SwapchainError>)
        requires
            caps.wf(),
        ensures
            !surface.alive ==> r == Err::<Engine, SwapchainError>(SwapchainError::WindowGone),
            surface.alive && surface.degenerate() ==> r == Err::<Engine, SwapchainError>(
                SwapchainError::UnsupportedDimensions,
            ),
            surface.alive && !surface.degenerate() ==> (r matches Ok(e) && {
                &&& e.wf()
                &&& e.app_id@ == app_id@
                &&& e.window_config == *window_config
                &&& !e.quit
                &&& !e.recreate_swapchain
                &&& e.renderer.swapchain == Some(spec_create(*caps, *surface))
                &&& e.renderer.scheduler.state is Idle
                &&& e.render_pass is None
                &&& e.frame_buffers@.len() == 0
                &&& e.render_pipeline is None
                &&& e.scene.entities@.len() == 0
                &&& e.scene.vertex_buffer is None
                &&& e.stats == (EngineStats {
                    frame_count: 0,
                    start_time_ms: now_ms,
                    last_frame_start_ms: now_ms,
                    last_fps_dump_ms: now_ms,
                })
            }),
    {
        let renderer = match renderer_type {
            RendererType::Vulkan => Renderer::new(caps, surface),
        };
        match renderer {
            Ok(renderer) => Ok(
                Engine {
                    app_id,
                    window_config: *window_config,
                    quit: false,
                    renderer,
                    render_pass: None,
                    frame_buffers: Vec::new(),
                    render_pipeline: None,
                    recreate_swapchain: false,
                    scene: Scene::default(),
                    stats: EngineStats::new(now_ms),
                },
            ),
            Err(e) => Err(e),
        }
    }

    /// Loads a scene and builds the render-graph objects for it: the
    /// entities from the asset's actors, the triangle vertex buffer, the
    /// render pass for the swapchain's format, the pipeline over the two
    /// shader modules, and one framebuffer per swapchain image.
    pub fn load_scene(&mut self, asset: &SceneAsset, vs: &ShaderModule, fs: &ShaderModule)
        requires
            old(self).wf(),
            vs.stage == ShaderStage::Vertex,
            fs.stage == ShaderStage::Fragment,
        ensures
            final(self).wf(),
            final(self).render_pass == Some(spec_render_pass(old(self).spec_swapchain().format)),
            final(self).render_pipeline == Some(
                spec_pipeline(
                    spec_render_pass(old(self).spec_swapchain().format),
                    vs.id,
                    fs.id,
                ),
            ),
            final(self).frame_buffers@ == spec_frame_buffers(old(self).spec_swapchain()),
            final(self).frame_buffers@.len() == old(self).spec_swapchain().image_count,
            final(self).scene.vertex_buffer matches Some(vb) && vb.vertex_count
                == TRIANGLE_VERTEX_COUNT,
            final(self).scene.entities@.len() == old(self).scene.entities@.len()
                + asset.actors@.len(),
            final(self).renderer.swapchain == old(self).renderer.swapchain,
            final(self).renderer.scheduler == old(self).renderer.scheduler,
            final(self).quit == old(self).quit,
            final(self).recreate_swapchain == old(self).recreate_swapchain,
            final(self).stats == old(self).stats,
    {
        self.scene.load(asset);
        let vb = self.renderer.create_vertex_buffer(TRIANGLE_VERTEX_COUNT);
        self.scene.vertex_buffer = Some(vb);
        let rp = self.renderer.create_simple_render_pass();
        let pipeline = self.renderer.create_simple_render_pipeline(&rp, vs, fs);
        let fbs = self.renderer.create_frame_buffers(&rp);
        self.render_pass = Some(rp);
        self.render_pipeline = Some(pipeline);
        self.frame_buffers = fbs;
    }

    /// Coalesces a tick's worth of window events into the two flags the
    /// loop acts on: any close request asks the engine to quit, any number
    /// of resize events becomes a single pending swapchain recreation.
    /// Neither flag is ever cleared here, so a recreation demanded by an
    /// earlier staleness report survives an eventless tick.
    pub fn handle_events(&mut self, events: &Vec<WindowEvent>)
        ensures
            final(self).quit == (old(self).quit || any_close(events@)),
            final(self).recreate_swapchain == (old(self).recreate_swapchain || any_resize(
                events@,
            )),
            final(self).renderer == old(self).renderer,
            final(self).render_pass == old(self).render_pass,
            final(self).frame_buffers == old(self).frame_buffers,
            final(self).render_pipeline == old(self).render_pipeline,
            final(self).scene == old(self).scene,
            final(self).stats == old(self).stats,
            final(self).app_id == old(self).app_id,
            final(self).window_config == old(self).window_config,
    {
        let mut quit = false;
        let mut resize = false;
        let mut i: usize = 0;
        while i < events.len()
            invariant
                0 <= i <= events@.len(),
                quit == any_close(events@.take(i as int)),
                resize == any_resize(events@.take(i as int)),
            decreases events@.len() - i,
        {
            match events[i] {
                WindowEvent::CloseRequested => {
                    quit = true;
                },
                WindowEvent::Resized(_, _) => {
                    resize = true;
                },
                WindowEvent::Other => {},
            }
            proof {
                assert(events@.take(i + 1 as int).drop_last() =~= events@.take(i as int));
                assert(events@.take(i + 1 as int).last() == events@[i as int]);
            }
            i = i + 1;
        }
        proof {
            assert(events@.take(events@.len() as int) =~= events@);
        }
        self.quit = self.quit || quit;
        self.recreate_swapchain = self.recreate_swapchain || resize;
    }

    /// Recreates the swapchain at a tick boundary and rebuilds the
    /// framebuffers against it; the render pass and pipeline survive, the
    /// format being unchanged. The soft `UnsupportedDimensions` outcome
    /// (minimized window) changes nothing and leaves the pending flag set,
    /// so the loop skips this frame and retries; `WindowGone` is fatal.
    pub fn rebuild_swapchain(&mut self, surface: &SurfaceState) -> (r: RecreateOutcome)
        requires
            old(self).wf(),
            old(self).render_pass is Some,
            old(self).spec_swapchain().generation < u64::MAX,
            old(self).renderer.scheduler.state is Idle || old(self).renderer.scheduler.state is SwapchainStale,
        ensures
            final(self).wf(),
            !surface.alive ==> r == RecreateOutcome::WindowGone && *final(self) == *old(self),
            surface.alive && surface.degenerate() ==> r == RecreateOutcome::UnsupportedDimensions
                && *final(self) == *old(self),
            surface.alive && !surface.degenerate() ==> {
                &&& r == RecreateOutcome::Recreated(
                    spec_recreate(old(self).spec_swapchain(), *surface),
                )
                &&& final(self).renderer.swapchain == Some(
                    spec_recreate(old(self).spec_swapchain(), *surface),
                )
                &&& final(self).renderer.scheduler.state is Idle
                &&& final(self).frame_buffers@ == spec_frame_buffers(
                    spec_recreate(old(self).spec_swapchain(), *surface),
                )
                &&& !final(self).recreate_swapchain
                &&& final(self).render_pass == old(self).render_pass
                &&& final(self).render_pipeline == old(self).render_pipeline
                &&& final(self).quit == old(self).quit
                &&& final(self).scene == old(self).scene
                &&& final(self).stats == old(self).stats
            },
    {
        match self.renderer.recreate_swapchain(surface) {
            RecreateOutcome::Recreated(new_sc) => {
                let rp = self.render_pass.unwrap();
                self.frame_buffers = self.renderer.create_frame_buffers(&rp);
                self.recreate_swapchain = false;
                RecreateOutcome::Recreated(new_sc)
            },
            RecreateOutcome::UnsupportedDimensions => RecreateOutcome::UnsupportedDimensions,
            RecreateOutcome::WindowGone => RecreateOutcome::WindowGone,
        }
    }

    /// Begins a frame: marks its start time and opens the scheduler's
    /// frame.
    pub fn begin_frame(&mut self, now_ms: u64)
        requires
            old(self).renderer.scheduler.state is Idle,
        ensures
            final(self).renderer.scheduler.state is FrameBegun,
            final(self).renderer.swapchain == old(self).renderer.swapchain,
            final(self).stats.last_frame_start_ms == now_ms,
            final(self).stats.frame_count == old(self).stats.frame_count,
            final(self).stats.start_time_ms == old(self).stats.start_time_ms,
            final(self).stats.last_fps_dump_ms == old(self).stats.last_fps_dump_ms,
            final(self).renderer.scheduler.swapchain_generation == old(self).renderer.scheduler.swapchain_generation,
            final(self).renderer.scheduler.frames_submitted == old(self).renderer.scheduler.frames_submitted,
            final(self).renderer.scheduler.consecutive_faults == old(self).renderer.scheduler.consecutive_faults,
            final(self).renderer.viewport == old(self).renderer.viewport,
            final(self).render_pass == old(self).render_pass,
            final(self).frame_buffers == old(self).frame_buffers,
            final(self).render_pipeline == old(self).render_pipeline,
            final(self).quit == old(self).quit,
            final(self).recreate_swapchain == old(self).recreate_swapchain,
            final(self).scene == old(self).scene,
            old(self).wf() ==> final(self).wf(),
    {
        self.stats.record_frame_start(now_ms);
        self.renderer.begin_frame();
    }

    /// Draws the scene for this frame, deciding on the platform's
    /// acquisition and presentation reports. A stale report from either
    /// side sets the pending-recreation flag — the expected reaction to a
    /// resize race, never an error — and the scheduler blocks further
    /// frames until `rebuild_swapchain` completes.
    pub fn render_scene(
        &mut self,
        clear: ClearColor,
        acquire: AcquireResult,
        present: PresentResult,
    ) -> (o: DrawOutcome)
        requires
            old(self).wf(),
            old(self).renderer.scheduler.state is FrameBegun,
            old(self).render_pipeline is Some,
            old(self).scene.vertex_buffer is Some,
            old(self).frame_buffers@.len() > 0,
            acquire matches AcquireResult::Image(i) ==> i < old(self).spec_swapchain().image_count,
            old(self).renderer.scheduler.frames_submitted < u64::MAX,
        ensures
            final(self).wf(),
            final(self).renderer.swapchain == old(self).renderer.swapchain,
            final(self).frame_buffers == old(self).frame_buffers,
            final(self).render_pass == old(self).render_pass,
            final(self).render_pipeline == old(self).render_pipeline,
            final(self).quit == old(self).quit,
            final(self).scene == old(self).scene,
            final(self).stats == old(self).stats,
            o == DrawOutcome::NeedsRecreate ==> final(self).recreate_swapchain && final(self).renderer.scheduler.state is SwapchainStale,
            o != DrawOutcome::NeedsRecreate ==> final(self).recreate_swapchain == old(self).recreate_swapchain,
            acquire is Image && present is Completed ==> o == DrawOutcome::Drawn && final(self).renderer.scheduler.state is Idle,
            acquire is OutOfDate || (acquire is Image && present is OutOfDate) ==> o
                == DrawOutcome::NeedsRecreate,
            acquire matches AcquireResult::DeviceFault(c) ==> o == DrawOutcome::Fatal(c),
            present matches PresentResult::DeviceFault(c) ==> (acquire is Image ==> {
                &&& final(self).renderer.scheduler.state is Idle
                &&& (o == DrawOutcome::Fatal(c) <==> old(self).renderer.scheduler.consecutive_faults
                    + 1 >= crate::frame::UNEXPECTED_FAULT_LIMIT)
                &&& (o == DrawOutcome::Skipped <==> old(self).renderer.scheduler.consecutive_faults + 1
                    < crate::frame::UNEXPECTED_FAULT_LIMIT)
            }),
    {
        let pipeline = self.render_pipeline.unwrap();
        let vb = self.scene.vertex_buffer.unwrap();
        let o = self.renderer.draw_data(&pipeline, clear, &vb, &self.frame_buffers, acquire, present);
        if let DrawOutcome::NeedsRecreate = o {
            self.recreate_swapchain = true;
        }
        o
    }

    /// The loop may exit only between frames: a close request is honored
    /// once the frame in flight has fully completed, never mid-submission.
    pub fn should_exit(&self) -> (r: bool)
        ensures
            r == (self.quit && self.renderer.scheduler.state is Idle),
    {
        self.quit && matches!(self.renderer.scheduler.state, crate::frame::FrameState::Idle)
    }
}

} // verus!
