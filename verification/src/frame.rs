//! Frame scheduler: the per-frame state machine that begins a frame,
//! acquires a swapchain image, records a command buffer, submits it and
//! presents, while tracking the GPU future that throttles the CPU and the
//! staleness signals that force a swapchain recreation.
//!
//! The platform performs the actual GPU calls and hands their reports in as
//! plain values (`AcquireResult`, `PresentResult`); every decision about
//! them is made, and proved, here. The one legal path of a frame is
//! `Idle → FrameBegun → ImageAcquired → CommandsRecorded → Submitted →
//! Presented → Idle`; staleness diverts to `SwapchainStale`, from which
//! only a completed recreation leads back to `Idle`.

use vstd::prelude::*;

use crate::render_graph::{frame_buffers_current, FrameBuffer, RenderPipeline, VertexBuffer};
use crate::swapchain::Swapchain;

verus! {

/// How many unexpected device faults in a row the scheduler tolerates
/// before it reports a fatal outcome instead of skipping the frame.
pub const UNEXPECTED_FAULT_LIMIT: u32 = 3;

/// The states a frame passes through.
#[derive(Clone, Copy, Debug, PartialEq, Eq, Structural)]
pub enum FrameState {
    Idle,
    FrameBegun,
    ImageAcquired,
    CommandsRecorded,
    Submitted,
    Presented,
    /// Presentation or acquisition reported the swapchain out of date; no
    /// frame may begin until recreation has completed.
    SwapchainStale,
}

/// The GPU timeline handle of the last submitted work: trivially satisfied
/// right after creation or after an error reset, in flight after a
/// submission (tagged with the submission's ordinal).
#[derive(Clone, Copy, Debug, PartialEq, Eq, Structural)]
pub enum FrameFuture {
    Ready,
    InFlight(u64),
}

/// What the platform reports for an image acquisition.
#[derive(Clone, Copy, Debug, PartialEq, Eq, Structural)]
pub enum AcquireResult {
    /// An image is available; its index into the swapchain's image list.
    Image(u32),
    /// The swapchain no longer matches the surface.
    OutOfDate,
    /// Any other driver error, by code.
    DeviceFault(u32),
}

/// The scheduler's decision on an acquisition report.
#[derive(Clone, Copy, Debug, PartialEq, Eq, Structural)]
pub enum AcquireOutcome {
    Acquired(u32),
    /// Not an error: recreate the swapchain and skip this frame.
    Stale,
    /// Unexpected driver failure; the frame loop should abort.
    Fatal(u32),
}

/// What the platform reports for a presentation.
#[derive(Clone, Copy, Debug, PartialEq, Eq, Structural)]
pub enum PresentResult {
    Completed,
    /// Presentation found the swapchain out of date.
    OutOfDate,
    /// Any other driver error, by code.
    DeviceFault(u32),
}

/// The scheduler's decision on a presentation report.
#[derive(Clone, Copy, Debug, PartialEq, Eq, Structural)]
pub enum PresentOutcome {
    Completed,
    /// Not an error: recreate the swapchain before the next frame.
    Stale,
    /// An unexpected fault below the escalation limit: the frame is treated
    /// as if it had not completed, and the loop goes on.
    Skipped,
    /// Unexpected faults reached the escalation limit; the loop should
    /// abort instead of masking a persistent driver error.
    Fatal(u32),
}

/// A clear color, carried as the raw bit patterns of its four channels;
/// the core never interprets them.
#[derive(Clone, Copy, Debug, PartialEq, Eq, Structural)]
pub struct ClearColor {
    pub r: u32,
    pub g: u32,
    pub b: u32,
    pub a: u32,
}

/// One recorded command.
#[derive(Clone, Copy, Debug, PartialEq, Eq, Structural)]
pub enum RenderCommand {
    BeginRenderPass(ClearColor),
    Draw { vertex_count: usize },
    EndRenderPass,
}

/// A recorded command buffer: the image and swapchain generation it
/// targets, and the commands in order.
pub struct CommandBuffer {
    pub image_index: u32,
    pub generation: u64,
    pub commands: Vec<RenderCommand>,
}

/// The frame scheduler's whole state.
pub struct FrameScheduler {
    pub state: FrameState,
    /// The GPU future of the last submitted work; absent before the first
    /// frame begins.
    pub future: Option<FrameFuture>,
    /// The image acquired for the frame in flight, if any.
    pub acquired_image: Option<u32>,
    /// Generation of the swapchain the scheduler is synchronized with.
    pub swapchain_generation: u64,
    /// Unexpected device faults seen in a row; saturates at
    /// `UNEXPECTED_FAULT_LIMIT`.
    pub consecutive_faults: u32,
    /// Ordinal of the next submission, used to tag in-flight futures.
    pub frames_submitted: u64,
}

/// The legal transitions of the frame state machine: the happy cycle, the
/// two diversions to `SwapchainStale`, and recreation's way back.
pub open spec fn frame_edge(pre: FrameState, post: FrameState) -> bool {
    match (pre, post) {
        (FrameState::Idle, FrameState::FrameBegun) => true,
        (FrameState::FrameBegun, FrameState::ImageAcquired) => true,
        (FrameState::ImageAcquired, FrameState::CommandsRecorded) => true,
        (FrameState::CommandsRecorded, FrameState::Submitted) => true,
        (FrameState::Submitted, FrameState::Presented) => true,
        (FrameState::Presented, FrameState::Idle) => true,
        (FrameState::FrameBegun, FrameState::SwapchainStale) => true,
        (FrameState::Submitted, FrameState::SwapchainStale) => true,
        (FrameState::SwapchainStale, FrameState::Idle) => true,
        _ => false,
    }
}

/// The successor of each state on the path that avoids `SwapchainStale`.
pub open spec fn cycle_next(s: FrameState) -> FrameState {
    match s {
        FrameState::Idle => FrameState::FrameBegun,
        FrameState::FrameBegun => FrameState::ImageAcquired,
        FrameState::ImageAcquired => FrameState::CommandsRecorded,
        FrameState::CommandsRecorded => FrameState::Submitted,
        FrameState::Submitted => FrameState::Presented,
        FrameState::Presented => FrameState::Idle,
        FrameState::SwapchainStale => FrameState::Idle,
    }
}

/// A frame may begin only from `Idle`: this is `begin_frame`'s
/// precondition, stated once so laws can refer to it.
pub open spec fn begin_enabled(s: FrameScheduler) -> bool {
    s.state is Idle
}

impl FrameScheduler {
    /// A fresh scheduler, synchronized with the swapchain generation it
    /// will serve. No future exists before the first frame.
    pub fn new(swapchain_generation: u64) -> (s: FrameScheduler)
        ensures
            s.state is Idle,
            s.future is None,
            s.acquired_image is None,
            s.swapchain_generation == swapchain_generation,
            s.consecutive_faults == 0,
            s.frames_submitted == 0,
    {
        FrameScheduler {
            state: FrameState::Idle,
            future: None,
            acquired_image: None,
            swapchain_generation,
            consecutive_faults: 0,
            frames_submitted: 0,
        }
    }

    /// Begins a frame: reclaims whatever the previously completed GPU
    /// future holds (a non-blocking cleanup that leaves the handle as it
    /// is), or, before the first frame, installs a trivially satisfied
    /// future.
    pub fn begin_frame(&mut self)
        requires
            old(self).state is Idle,
        ensures
            final(self).state is FrameBegun,
            old(self).future is None ==> final(self).future == Some(FrameFuture::Ready),
            old(self).future is Some ==> final(self).future == old(self).future,
            final(self).acquired_image == old(self).acquired_image,
            final(self).swapchain_generation == old(self).swapchain_generation,
            final(self).consecutive_faults == old(self).consecutive_faults,
            final(self).frames_submitted == old(self).frames_submitted,
            frame_edge(old(self).state, final(self).state),
    {
        if self.future.is_none() {
            self.future = Some(FrameFuture::Ready);
        }
        self.state = FrameState::FrameBegun;
    }

    /// Decides on the platform's acquisition report. An image index moves
    /// the frame forward; `OutOfDate` is not an error but diverts to
    /// `SwapchainStale`, telling the caller to recreate and skip this
    /// frame; any other fault is fatal and leaves the scheduler as it was.
    /// The scheduler must be synchronized with the swapchain it acquires
    /// from.
    pub fn acquire_image(&mut self, sc: &Swapchain, result: AcquireResult) -> (o: AcquireOutcome)
        requires
            old(self).state is FrameBegun,
            old(self).swapchain_generation == sc.generation,
            result matches AcquireResult::Image(i) ==> i < sc.image_count,
        ensures
            result matches AcquireResult::Image(i) ==> {
                &&& o == AcquireOutcome::Acquired(i)
                &&& final(self).state is ImageAcquired
                &&& final(self).acquired_image == Some(i)
            },
            result is OutOfDate ==> {
                &&& o is Stale
                &&& final(self).state is SwapchainStale
                &&& final(self).acquired_image is None
            },
            result matches AcquireResult::DeviceFault(c) ==> {
                &&& o == AcquireOutcome::Fatal(c)
                &&& *final(self) == *old(self)
            },
            final(self).future == old(self).future,
            final(self).swapchain_generation == old(self).swapchain_generation,
            final(self).consecutive_faults == old(self).consecutive_faults,
            final(self).frames_submitted == old(self).frames_submitted,
            frame_edge(old(self).state, final(self).state) || final(self).state == old(
                self,
            ).state,
    {
        match result {
            AcquireResult::Image(i) => {
                self.acquired_image = Some(i);
                self.state = FrameState::ImageAcquired;
                AcquireOutcome::Acquired(i)
            },
            AcquireResult::OutOfDate => {
                self.acquired_image = None;
                self.state = FrameState::SwapchainStale;
                AcquireOutcome::Stale
            },
            AcquireResult::DeviceFault(c) => AcquireOutcome::Fatal(c),
        }
    }

    /// Records the frame's command buffer against the acquired image:
    /// begin the render pass with the clear color, draw the vertex buffer,
    /// end the render pass. The framebuffer list must be the current one
    /// for the swapchain the scheduler is synchronized with, and the
    /// pipeline must target the swapchain's format.
    pub fn record_commands(
        &mut self,
        sc: &Swapchain,
        frame_buffers: &Vec<FrameBuffer>,
        pipeline: &RenderPipeline,
        vertices: &VertexBuffer,
        clear: ClearColor,
    ) -> (cb: CommandBuffer)
        requires
            old(self).state is ImageAcquired,
            old(self).swapchain_generation == sc.generation,
            frame_buffers_current(frame_buffers@, *sc),
            old(self).acquired_image matches Some(i) && i < frame_buffers@.len(),
            pipeline.color_format == sc.format,
        ensures
            final(self).state is CommandsRecorded,
            old(self).acquired_image matches Some(i) ==> cb.image_index == i,
            cb.generation == sc.generation,
            cb.commands@ == seq![
                RenderCommand::BeginRenderPass(clear),
                RenderCommand::Draw { vertex_count: vertices.vertex_count },
                RenderCommand::EndRenderPass,
            ],
            final(self).future == old(self).future,
            final(self).acquired_image == old(self).acquired_image,
            final(self).swapchain_generation == old(self).swapchain_generation,
            final(self).consecutive_faults == old(self).consecutive_faults,
            final(self).frames_submitted == old(self).frames_submitted,
            frame_edge(old(self).state, final(self).state),
    {
        let image_index = self.acquired_image.unwrap();
        let mut commands: Vec<RenderCommand> = Vec::new();
        commands.push(RenderCommand::BeginRenderPass(clear));
        commands.push(RenderCommand::Draw { vertex_count: vertices.vertex_count });
        commands.push(RenderCommand::EndRenderPass);
        proof {
            assert(commands@ =~= seq![
                RenderCommand::BeginRenderPass(clear),
                RenderCommand::Draw { vertex_count: vertices.vertex_count },
                RenderCommand::EndRenderPass,
            ]);
        }
        self.state = FrameState::CommandsRecorded;
        CommandBuffer { image_index, generation: sc.generation, commands }
    }

    /// Submits the recorded commands: the prior frame's future is joined
    /// with the acquired image's availability and the commands are handed
    /// to the queue, leaving a new in-flight future tagged with this
    /// submission's ordinal. The command buffer must target the swapchain
    /// the scheduler is synchronized with.
    pub fn submit(&mut self, cb: &CommandBuffer)
        requires
            old(self).state is CommandsRecorded,
            cb.generation == old(self).swapchain_generation,
            old(self).frames_submitted < u64::MAX,
        ensures
            final(self).state is Submitted,
            final(self).future == Some(FrameFuture::InFlight(old(self).frames_submitted)),
            final(self).frames_submitted == old(self).frames_submitted + 1,
            final(self).acquired_image == old(self).acquired_image,
            final(self).swapchain_generation == old(self).swapchain_generation,
            final(self).consecutive_faults == old(self).consecutive_faults,
            frame_edge(old(self).state, final(self).state),
    {
        self.future = Some(FrameFuture::InFlight(self.frames_submitted));
        self.frames_submitted = self.frames_submitted + 1;
        self.state = FrameState::Submitted;
    }

    /// Decides on the platform's presentation report.
    ///
    /// `Completed` finishes the frame and clears the fault streak.
    /// `OutOfDate` is expected during resizes: the outcome is `Stale`, the
    /// scheduler diverts to `SwapchainStale` and the future resets to a
    /// trivially satisfied one, so the next loop iteration recreates the
    /// swapchain instead of erroring out. Any other fault resets the
    /// future likewise and treats the frame as if it had not completed;
    /// once `UNEXPECTED_FAULT_LIMIT` faults happen in a row the outcome is
    /// `Fatal` instead of `Skipped`, so persistent driver errors are not
    /// masked forever.
    pub fn present(&mut self, result: PresentResult) -> (o: PresentOutcome)
        requires
            old(self).state is Submitted,
        ensures
            result is Completed ==> {
                &&& o is Completed
                &&& final(self).state is Presented
                &&& final(self).future == old(self).future
                &&& final(self).consecutive_faults == 0
            },
            result is OutOfDate ==> {
                &&& o is Stale
                &&& final(self).state is SwapchainStale
                &&& final(self).future == Some(FrameFuture::Ready)
                &&& final(self).consecutive_faults == old(self).consecutive_faults
            },
            result matches PresentResult::DeviceFault(c) ==> {
                &&& final(self).state is Presented
                &&& final(self).future == Some(FrameFuture::Ready)
                &&& final(self).consecutive_faults == (if old(self).consecutive_faults
                    < UNEXPECTED_FAULT_LIMIT {
                    old(self).consecutive_faults + 1
                } else {
                    old(self).consecutive_faults as int
                })
                &&& (o == PresentOutcome::Fatal(c) <==> old(self).consecutive_faults + 1
                    >= UNEXPECTED_FAULT_LIMIT)
                &&& (o is Skipped <==> old(self).consecutive_faults + 1 < UNEXPECTED_FAULT_LIMIT)
            },
            final(self).acquired_image == old(self).acquired_image,
            final(self).swapchain_generation == old(self).swapchain_generation,
            final(self).frames_submitted == old(self).frames_submitted,
            frame_edge(old(self).state, final(self).state),
    {
        match result {
            PresentResult::Completed => {
                self.state = FrameState::Presented;
                self.consecutive_faults = 0;
                PresentOutcome::Completed
            },
            PresentResult::OutOfDate => {
                self.state = FrameState::SwapchainStale;
                self.future = Some(FrameFuture::Ready);
                PresentOutcome::Stale
            },
            PresentResult::DeviceFault(c) => {
                self.state = FrameState::Presented;
                self.future = Some(FrameFuture::Ready);
                if self.consecutive_faults < UNEXPECTED_FAULT_LIMIT {
                    self.consecutive_faults = self.consecutive_faults + 1;
                }
                if self.consecutive_faults >= UNEXPECTED_FAULT_LIMIT {
                    PresentOutcome::Fatal(c)
                } else {
                    PresentOutcome::Skipped
                }
            },
        }
    }

    /// Closes a presented frame and returns to `Idle`.
    pub fn complete_frame(&mut self)
        requires
            old(self).state is Presented,
        ensures
            final(self).state is Idle,
            final(self).acquired_image is None,
            final(self).future == old(self).future,
            final(self).swapchain_generation == old(self).swapchain_generation,
            final(self).consecutive_faults == old(self).consecutive_faults,
            final(self).frames_submitted == old(self).frames_submitted,
            frame_edge(old(self).state, final(self).state),
    {
        self.acquired_image = None;
        self.state = FrameState::Idle;
    }

    /// Synchronizes the scheduler with a recreated swapchain and returns to
    /// `Idle`. This is the only way out of `SwapchainStale`. Outstanding
    /// GPU work of the old swapchain is allowed to finish naturally: the
    /// future is left as it is.
    pub fn complete_recreation(&mut self, new_sc: &Swapchain)
        requires
            old(self).state is Idle || old(self).state is SwapchainStale,
        ensures
            final(self).state is Idle,
            final(self).swapchain_generation == new_sc.generation,
            final(self).acquired_image is None,
            final(self).future == old(self).future,
            final(self).consecutive_faults == old(self).consecutive_faults,
            final(self).frames_submitted == old(self).frames_submitted,
            frame_edge(old(self).state, final(self).state) || final(self).state == old(
                self,
            ).state,
    {
        self.swapchain_generation = new_sc.generation;
        self.acquired_image = None;
        self.state = FrameState::Idle;
    }
}

/// No transition reaches `Submitted` except from `CommandsRecorded`: a
/// frame can never be submitted without its commands having been recorded.
pub proof fn lemma_no_skip_to_submitted(pre: FrameState)
    requires
        frame_edge(pre, FrameState::Submitted),
    ensures
        pre is CommandsRecorded,
{
}

/// Absent a diversion to `SwapchainStale`, the state machine has exactly
/// one successor per state: the happy cycle
/// `Idle → FrameBegun → ImageAcquired → CommandsRecorded → Submitted →
/// Presented → Idle` is the only legal path.
pub proof fn lemma_cycle_is_only_path(pre: FrameState, post: FrameState)
    requires
        frame_edge(pre, post),
        !(post is SwapchainStale),
    ensures
        post == cycle_next(pre),
{
}

/// After presentation (or acquisition) reports the swapchain stale, no
/// frame can begin — `begin_frame` demands `Idle`, and only a completed
/// recreation leads back there — and the framebuffer list built against
/// the old swapchain is not current for the recreated one, so the next
/// acquire/record cycle cannot reuse it.
pub proof fn lemma_stale_blocks_old_frame_buffers(
    s: FrameScheduler,
    fbs: Seq<FrameBuffer>,
    sc: Swapchain,
    new_sc: Swapchain,
)
    requires
        s.state is SwapchainStale,
        frame_buffers_current(fbs, sc),
        new_sc.generation != sc.generation,
        new_sc.image_count > 0,
    ensures
        !begin_enabled(s),
        forall|post: FrameState| frame_edge(s.state, post) ==> post is Idle,
        !frame_buffers_current(fbs, new_sc),
{
    crate::render_graph::lemma_recreation_invalidates_frame_buffers(fbs, sc, new_sc);
}

} // verus!
