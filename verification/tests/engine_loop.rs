use engine::assets::{ActorAsset, SceneAsset};
use engine::engine::{Engine, RendererType, WindowEvent, TRIANGLE_VERTEX_COUNT};
use engine::frame::{AcquireResult, ClearColor, FrameState, PresentResult};
use engine::render_graph::{ShaderModule, ShaderStage};
use engine::renderer::DrawOutcome;
use engine::stats::{EngineStats, STATS_DUMP_INTERVAL_MS};
use engine::swapchain::{RecreateOutcome, SurfaceCaps, SurfaceState, SwapchainError};

const CLEAR_BLUE: ClearColor = ClearColor { r: 0, g: 0, b: 0x3f80_0000, a: 0x3f80_0000 };

fn caps() -> SurfaceCaps {
    SurfaceCaps { formats: vec![37, 44], min_image_count: 2, supports_mailbox: false }
}

fn surface(width: u32, height: u32) -> SurfaceState {
    SurfaceState { alive: true, width, height }
}

fn demo_asset() -> SceneAsset {
    SceneAsset {
        id: "demo".to_string(),
        actors: vec![
            ActorAsset {
                id: "camera".to_string(),
                prefab: None,
                components: vec![engine::assets::ComponentKind::Camera],
                children: vec![],
            },
            ActorAsset {
                id: "triangle".to_string(),
                prefab: Some("shapes/triangle".to_string()),
                components: vec![engine::assets::ComponentKind::Mesh],
                children: vec![],
            },
        ],
    }
}

fn shaders() -> (ShaderModule, ShaderModule) {
    (
        ShaderModule { id: 10, stage: ShaderStage::Vertex },
        ShaderModule { id: 11, stage: ShaderStage::Fragment },
    )
}

fn ready_engine() -> Engine {
    let config = engine::config::WindowConfig { width: 1024, height: 768, fullscreen: false };
    let mut e = Engine::new(
        "viewer".to_string(),
        RendererType::Vulkan,
        &config,
        &caps(),
        &surface(1024, 768),
        0,
    )
    .unwrap();
    let (vs, fs) = shaders();
    e.load_scene(&demo_asset(), &vs, &fs);
    e
}

#[test]
fn one_frame_on_a_1024_by_768_surface_presents() {
    let mut e = ready_engine();
    let sc = e.renderer.swapchain.unwrap();
    // At least the surface's minimum of two images, and a framebuffer each.
    assert!(sc.image_count >= 2);
    assert_eq!(e.frame_buffers.len(), sc.image_count as usize);
    assert_eq!(e.render_pass.unwrap().color_format, sc.format);
    assert_eq!(
        e.scene.vertex_buffer.unwrap().vertex_count,
        TRIANGLE_VERTEX_COUNT
    );
    assert_eq!(e.scene.entities.len(), 2);
    assert_eq!(e.scene.entities[0].get_id(), "camera");

    e.begin_frame(16);
    let o = e.render_scene(CLEAR_BLUE, AcquireResult::Image(0), PresentResult::Completed);
    assert_eq!(o, DrawOutcome::Drawn);
    assert_eq!(e.renderer.scheduler.state, FrameState::Idle);
    assert!(!e.recreate_swapchain);
}

#[test]
fn engine_refuses_a_dead_window() {
    let config = engine::config::WindowConfig { width: 1024, height: 768, fullscreen: false };
    let gone = SurfaceState { alive: false, width: 1024, height: 768 };
    let r = Engine::new("viewer".to_string(), RendererType::Vulkan, &config, &caps(), &gone, 0);
    assert!(matches!(r, Err(SwapchainError::WindowGone)));
}

#[test]
fn engine_refuses_a_degenerate_window() {
    let config = engine::config::WindowConfig { width: 0, height: 0, fullscreen: false };
    let r = Engine::new(
        "viewer".to_string(),
        RendererType::Vulkan,
        &config,
        &caps(),
        &surface(0, 768),
        0,
    );
    assert!(matches!(r, Err(SwapchainError::UnsupportedDimensions)));
}

#[test]
fn events_coalesce_into_the_two_flags() {
    let mut e = ready_engine();
    e.handle_events(&vec![
        WindowEvent::Other,
        WindowEvent::Resized(800, 600),
        WindowEvent::Resized(640, 480),
        WindowEvent::Other,
    ]);
    assert!(e.recreate_swapchain);
    assert!(!e.quit);
    // An eventless tick clears nothing.
    e.handle_events(&vec![]);
    assert!(e.recreate_swapchain);
    e.handle_events(&vec![WindowEvent::CloseRequested]);
    assert!(e.quit);
    assert!(e.recreate_swapchain);
}

#[test]
fn shrinking_to_zero_is_soft_and_the_loop_keeps_polling() {
    let mut e = ready_engine();
    e.handle_events(&vec![WindowEvent::Resized(0, 0)]);
    assert!(e.recreate_swapchain);
    let r = e.rebuild_swapchain(&surface(0, 0));
    assert_eq!(r, RecreateOutcome::UnsupportedDimensions);
    // Nothing changed; the pending flag survives and a later tick succeeds.
    assert!(e.recreate_swapchain);
    assert_eq!(e.renderer.swapchain.unwrap().generation, 0);
    let r = e.rebuild_swapchain(&surface(800, 600));
    assert!(matches!(r, RecreateOutcome::Recreated(_)));
    assert!(!e.recreate_swapchain);
    let sc = e.renderer.swapchain.unwrap();
    assert_eq!((sc.width, sc.height), (800, 600));
    assert_eq!(sc.generation, 1);
    assert_eq!(e.frame_buffers.len(), sc.image_count as usize);
    assert!(e.frame_buffers.iter().all(|fb| fb.generation == 1));
}

#[test]
fn a_stale_present_forces_recreation_before_the_next_frame() {
    let mut e = ready_engine();
    e.begin_frame(16);
    let o = e.render_scene(CLEAR_BLUE, AcquireResult::Image(0), PresentResult::OutOfDate);
    assert_eq!(o, DrawOutcome::NeedsRecreate);
    assert!(e.recreate_swapchain);
    // The scheduler sits in SwapchainStale: no new frame may begin, and the
    // framebuffers on hand still belong to the old generation.
    assert_eq!(e.renderer.scheduler.state, FrameState::SwapchainStale);
    let old_generation = e.renderer.swapchain.unwrap().generation;

    let r = e.rebuild_swapchain(&surface(1024, 768));
    assert!(matches!(r, RecreateOutcome::Recreated(_)));
    let sc = e.renderer.swapchain.unwrap();
    assert_eq!(sc.generation, old_generation + 1);
    assert!(e.frame_buffers.iter().all(|fb| fb.generation == sc.generation));
    assert_eq!(e.renderer.scheduler.state, FrameState::Idle);

    // The next cycle runs against the recreated swapchain.
    e.begin_frame(32);
    let o = e.render_scene(CLEAR_BLUE, AcquireResult::Image(1), PresentResult::Completed);
    assert_eq!(o, DrawOutcome::Drawn);
}

#[test]
fn a_stale_acquire_is_not_an_error_either() {
    let mut e = ready_engine();
    e.begin_frame(16);
    let o = e.render_scene(CLEAR_BLUE, AcquireResult::OutOfDate, PresentResult::Completed);
    assert_eq!(o, DrawOutcome::NeedsRecreate);
    assert!(e.recreate_swapchain);
    assert_eq!(e.renderer.scheduler.state, FrameState::SwapchainStale);
}

#[test]
fn an_acquire_fault_is_fatal() {
    let mut e = ready_engine();
    e.begin_frame(16);
    let o = e.render_scene(CLEAR_BLUE, AcquireResult::DeviceFault(5), PresentResult::Completed);
    assert_eq!(o, DrawOutcome::Fatal(5));
    assert!(!e.recreate_swapchain);
}

#[test]
fn the_engine_exits_only_between_frames() {
    let mut e = ready_engine();
    e.handle_events(&vec![WindowEvent::CloseRequested]);
    assert!(e.should_exit());
    e.begin_frame(16);
    // Mid-frame the close request waits.
    assert!(!e.should_exit());
    e.render_scene(CLEAR_BLUE, AcquireResult::Image(0), PresentResult::Completed);
    assert!(e.should_exit());
}

#[test]
fn scene_unload_drops_the_entities() {
    let mut e = ready_engine();
    assert_eq!(e.scene.entities.len(), 2);
    e.scene.unload();
    assert_eq!(e.scene.entities.len(), 0);
    assert!(e.scene.vertex_buffer.is_some());
}

#[test]
fn loading_builds_the_whole_render_graph() {
    let e = ready_engine();
    let sc = e.renderer.swapchain.unwrap();
    let rp = e.render_pass.unwrap();
    let p = e.render_pipeline.unwrap();
    assert_eq!(rp.color_format, sc.format);
    assert_eq!(p.color_format, sc.format);
    assert_eq!(p.vertex_shader, 10);
    assert_eq!(p.fragment_shader, 11);
    assert!(p.dynamic_viewport);
    assert!(!p.depth_test);
    assert_eq!(e.renderer.viewport, Some((sc.width, sc.height)));
}

#[test]
fn loading_another_scene_appends_its_actors() {
    let mut e = ready_engine();
    let (vs, fs) = shaders();
    e.load_scene(&demo_asset(), &vs, &fs);
    assert_eq!(e.scene.entities.len(), 4);
    assert_eq!(e.scene.entities[2].get_id(), "camera");
    assert_eq!(e.scene.entities[3].get_id(), "triangle");
}

#[test]
fn stats_report_once_per_interval() {
    let mut stats = EngineStats::new(1_000);
    stats.record_frame_start(1_016);
    assert_eq!(stats.frame_time(1_032), 16);
    stats.count_frame();
    assert_eq!(stats.frame_count, 1);
    assert!(stats.log_frame_stats(1_032).is_none());
    let report = stats
        .log_frame_stats(1_000 + STATS_DUMP_INTERVAL_MS)
        .expect("a report is due after the interval");
    assert_eq!(report.frame_count, 1);
    assert_eq!(report.frame_time_ms, STATS_DUMP_INTERVAL_MS - 16);
    assert_eq!(report.elapsed_ms, STATS_DUMP_INTERVAL_MS);
    // Reported just now: the next tick is silent again.
    assert!(stats.log_frame_stats(1_001 + STATS_DUMP_INTERVAL_MS).is_none());
}
