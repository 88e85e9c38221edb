use engine::frame::{
    AcquireOutcome, AcquireResult, ClearColor, FrameFuture, FrameScheduler, FrameState,
    PresentOutcome, PresentResult, RenderCommand, UNEXPECTED_FAULT_LIMIT,
};
use engine::render_graph::{
    create_frame_buffers, create_pipeline, create_render_pass, ShaderModule, ShaderStage,
    VertexBuffer,
};
use engine::swapchain::{create, SurfaceCaps, SurfaceState};

const CLEAR_BLUE: ClearColor = ClearColor { r: 0, g: 0, b: 0x3f80_0000, a: 0x3f80_0000 };

fn setup() -> (engine::swapchain::Swapchain, Vec<engine::render_graph::FrameBuffer>, engine::render_graph::RenderPipeline)
{
    let caps = SurfaceCaps { formats: vec![37], min_image_count: 2, supports_mailbox: true };
    let surface = SurfaceState { alive: true, width: 1024, height: 768 };
    let sc = create(&caps, &surface).unwrap();
    let rp = create_render_pass(sc.format);
    let fbs = create_frame_buffers(&rp, &sc);
    let vs = ShaderModule { id: 1, stage: ShaderStage::Vertex };
    let fs = ShaderModule { id: 2, stage: ShaderStage::Fragment };
    let pipeline = create_pipeline(&rp, &vs, &fs);
    (sc, fbs, pipeline)
}

#[test]
fn a_frame_walks_the_cycle_in_order() {
    let (sc, fbs, pipeline) = setup();
    let mut s = FrameScheduler::new(sc.generation);
    assert_eq!(s.state, FrameState::Idle);
    assert_eq!(s.future, None);

    s.begin_frame();
    assert_eq!(s.state, FrameState::FrameBegun);
    assert_eq!(s.future, Some(FrameFuture::Ready));

    let o = s.acquire_image(&sc, AcquireResult::Image(1));
    assert_eq!(o, AcquireOutcome::Acquired(1));
    assert_eq!(s.state, FrameState::ImageAcquired);
    assert_eq!(s.acquired_image, Some(1));

    let vb = VertexBuffer { vertex_count: 3 };
    let cb = s.record_commands(&sc, &fbs, &pipeline, &vb, CLEAR_BLUE);
    assert_eq!(s.state, FrameState::CommandsRecorded);
    assert_eq!(cb.image_index, 1);
    assert_eq!(cb.generation, sc.generation);
    assert_eq!(
        cb.commands,
        vec![
            RenderCommand::BeginRenderPass(CLEAR_BLUE),
            RenderCommand::Draw { vertex_count: 3 },
            RenderCommand::EndRenderPass,
        ]
    );

    s.submit(&cb);
    assert_eq!(s.state, FrameState::Submitted);
    assert_eq!(s.future, Some(FrameFuture::InFlight(0)));
    assert_eq!(s.frames_submitted, 1);

    let o = s.present(PresentResult::Completed);
    assert_eq!(o, PresentOutcome::Completed);
    assert_eq!(s.state, FrameState::Presented);

    s.complete_frame();
    assert_eq!(s.state, FrameState::Idle);
    assert_eq!(s.acquired_image, None);
}

#[test]
fn later_frames_keep_the_in_flight_future() {
    let (sc, fbs, pipeline) = setup();
    let mut s = FrameScheduler::new(sc.generation);
    let vb = VertexBuffer { vertex_count: 3 };
    for frame in 0..3u64 {
        s.begin_frame();
        s.acquire_image(&sc, AcquireResult::Image((frame % 3) as u32));
        let cb = s.record_commands(&sc, &fbs, &pipeline, &vb, CLEAR_BLUE);
        s.submit(&cb);
        assert_eq!(s.future, Some(FrameFuture::InFlight(frame)));
        s.present(PresentResult::Completed);
        s.complete_frame();
    }
    assert_eq!(s.frames_submitted, 3);
}

#[test]
fn stale_acquire_diverts_and_blocks_until_recreation() {
    let (sc, _fbs, _pipeline) = setup();
    let mut s = FrameScheduler::new(sc.generation);
    s.begin_frame();
    let o = s.acquire_image(&sc, AcquireResult::OutOfDate);
    assert_eq!(o, AcquireOutcome::Stale);
    assert_eq!(s.state, FrameState::SwapchainStale);
    // No frame may begin from here; only a completed recreation returns to Idle.
    assert_ne!(s.state, FrameState::Idle);
    let new_sc = engine::swapchain::Swapchain { generation: sc.generation + 1, ..sc };
    s.complete_recreation(&new_sc);
    assert_eq!(s.state, FrameState::Idle);
    assert_eq!(s.swapchain_generation, new_sc.generation);
}

#[test]
fn stale_present_resets_the_future_and_diverts() {
    let (sc, fbs, pipeline) = setup();
    let mut s = FrameScheduler::new(sc.generation);
    let vb = VertexBuffer { vertex_count: 3 };
    s.begin_frame();
    s.acquire_image(&sc, AcquireResult::Image(0));
    let cb = s.record_commands(&sc, &fbs, &pipeline, &vb, CLEAR_BLUE);
    s.submit(&cb);
    let o = s.present(PresentResult::OutOfDate);
    assert_eq!(o, PresentOutcome::Stale);
    assert_eq!(s.state, FrameState::SwapchainStale);
    assert_eq!(s.future, Some(FrameFuture::Ready));
}

#[test]
fn acquire_fault_is_fatal_and_changes_nothing() {
    let (sc, _fbs, _pipeline) = setup();
    let mut s = FrameScheduler::new(sc.generation);
    s.begin_frame();
    let o = s.acquire_image(&sc, AcquireResult::DeviceFault(9));
    assert_eq!(o, AcquireOutcome::Fatal(9));
    assert_eq!(s.state, FrameState::FrameBegun);
}

fn run_faulted_frame(s: &mut FrameScheduler, sc: &engine::swapchain::Swapchain,
    fbs: &Vec<engine::render_graph::FrameBuffer>,
    pipeline: &engine::render_graph::RenderPipeline,
    result: PresentResult) -> PresentOutcome
{
    let vb = VertexBuffer { vertex_count: 3 };
    s.begin_frame();
    s.acquire_image(sc, AcquireResult::Image(0));
    let cb = s.record_commands(sc, fbs, pipeline, &vb, CLEAR_BLUE);
    s.submit(&cb);
    let o = s.present(result);
    s.complete_frame();
    o
}

#[test]
fn repeated_faults_escalate_to_fatal() {
    let (sc, fbs, pipeline) = setup();
    let mut s = FrameScheduler::new(sc.generation);
    for i in 1..UNEXPECTED_FAULT_LIMIT {
        let o = run_faulted_frame(&mut s, &sc, &fbs, &pipeline, PresentResult::DeviceFault(7));
        assert_eq!(o, PresentOutcome::Skipped, "fault {} should still be masked", i);
    }
    let o = run_faulted_frame(&mut s, &sc, &fbs, &pipeline, PresentResult::DeviceFault(7));
    assert_eq!(o, PresentOutcome::Fatal(7));
}

#[test]
fn a_completed_present_resets_the_fault_streak() {
    let (sc, fbs, pipeline) = setup();
    let mut s = FrameScheduler::new(sc.generation);
    for _ in 1..UNEXPECTED_FAULT_LIMIT {
        run_faulted_frame(&mut s, &sc, &fbs, &pipeline, PresentResult::DeviceFault(7));
    }
    assert_eq!(
        run_faulted_frame(&mut s, &sc, &fbs, &pipeline, PresentResult::Completed),
        PresentOutcome::Completed
    );
    // The streak starts over: the next fault is masked again.
    assert_eq!(
        run_faulted_frame(&mut s, &sc, &fbs, &pipeline, PresentResult::DeviceFault(7)),
        PresentOutcome::Skipped
    );
}
