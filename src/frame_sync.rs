use vstd::prelude::*;

verus! {

/// How many frames the CPU may have submitted and not yet seen retired.
pub const MAX_FRAMES_IN_FLIGHT: usize = 2;

/// What acquiring the next swapchain image returned.
#[derive(Clone, Copy, PartialEq, Eq, Structural, Debug)]
pub enum AcquireOutcome {
    Acquired { image_index: u32 },
    /// The surface changed and the swapchain no longer matches it.
    OutOfDate,
    Failed,
}

/// What presenting an image returned.
#[derive(Clone, Copy, PartialEq, Eq, Structural, Debug)]
pub enum PresentOutcome {
    Presented,
    /// Presented, but the swapchain no longer matches the surface exactly.
    Suboptimal,
    OutOfDate,
    Failed,
}

/// Where the current frame stands.
#[derive(Clone, Copy, PartialEq, Eq, Structural, Debug)]
pub enum FramePhase {
    /// No frame is under way.
    Idle,
    /// Waiting for the current slot's fence.
    AwaitingFence,
    /// The fence is signaled; waiting for a swapchain image.
    AwaitingImage,
    /// The fence is reset and the image's command buffer is being written.
    Recording { image_index: u32 },
    /// The command buffer is submitted and the image is being presented.
    Presenting { image_index: u32 },
    /// A fatal error stopped the loop.
    Halted,
}

/// What the frame loop reports back.
#[derive(Clone, Copy, PartialEq, Eq, Structural, Debug)]
pub enum FrameEvent {
    /// A new frame is due.
    Redraw,
    /// The wait on the current slot's fence returned.
    FenceSignaled,
    ImageAcquired { result: AcquireOutcome },
    /// The command buffer and uniform data for the image are written.
    Recorded,
    /// The submission is made and presenting returned.
    Presented { status: PresentOutcome },
    /// The window was resized.
    Resized,
}

/// What the frame loop must do next.
#[derive(Clone, Copy, PartialEq, Eq, Structural, Debug)]
pub enum FrameAction {
    /// Block until the fence of `slot` is signaled.
    WaitFence { slot: usize },
    /// Acquire the next image, signaling the image-available semaphore of `slot`.
    AcquireImage { slot: usize },
    /// Reset the fence of `slot`, then rewrite the command buffer of `image_index`.
    Record { slot: usize, image_index: u32 },
    /// Submit the command buffer of `image_index`, waiting on the image-available
    /// semaphore of `slot` at colour output and signaling its render-finished
    /// semaphore and fence; then present the image, waiting on render-finished.
    SubmitAndPresent { slot: usize, image_index: u32 },
    /// The frame is over; rebuild the swapchain first when `rebuild` is set.
    EndFrame { rebuild: bool },
    /// The frame is dropped before any submission: rebuild the swapchain, then
    /// retry the same slot with its fence untouched.
    RebuildAndRetry,
    /// Abort with a diagnostic.
    Fatal,
    /// Nothing to do.
    Nothing,
}

/// The frame-in-flight ring and the progress of the current frame.
pub struct FrameSync {
    pub current_frame: usize,
    pub frames_in_flight: usize,
    /// Whether the CPU has seen each slot's fence signaled since it was last reset.
    pub fence_signaled: Vec<bool>,
    /// A resize arrived and the swapchain is to be rebuilt after the next present.
    pub framebuffer_resized: bool,
    pub phase: FramePhase,
}

/// The mathematical state of a `FrameSync`.
pub struct FrameSyncModel {
    pub current_frame: int,
    pub frames_in_flight: int,
    pub fence_signaled: Seq<bool>,
    pub framebuffer_resized: bool,
    pub phase: FramePhase,
}

impl View for FrameSync {
    type V = FrameSyncModel;

    open spec fn view(&self) -> FrameSyncModel {
        FrameSyncModel {
            current_frame: self.current_frame as int,
            frames_in_flight: self.frames_in_flight as int,
            fence_signaled: self.fence_signaled@,
            framebuffer_resized: self.framebuffer_resized,
            phase: self.phase,
        }
    }
}

impl FrameSyncModel {
    /// The ring is non-empty, the slot index lies in it, each slot has a fence,
    /// and the current slot's fence is known signaled exactly while an image is
    /// awaited and known unsignaled from the reset until the frame ends.
    pub open spec fn wf(self) -> bool {
        &&& 0 < self.frames_in_flight <= usize::MAX
        &&& 0 <= self.current_frame < self.frames_in_flight
        &&& self.fence_signaled.len() == self.frames_in_flight
        &&& self.phase == FramePhase::AwaitingImage ==> self.fence_signaled[self.current_frame]
        &&& self.phase is Recording ==> !self.fence_signaled[self.current_frame]
        &&& self.phase is Presenting ==> !self.fence_signaled[self.current_frame]
    }

    pub open spec fn with_fence(self, slot: int, signaled: bool) -> FrameSyncModel {
        FrameSyncModel { fence_signaled: self.fence_signaled.update(slot, signaled), ..self }
    }

    pub open spec fn with_phase(self, phase: FramePhase) -> FrameSyncModel {
        FrameSyncModel { phase, ..self }
    }

    /// The frame ends: the next slot of the ring becomes current.
    pub open spec fn end_frame(self) -> FrameSyncModel {
        FrameSyncModel {
            current_frame: (self.current_frame + 1) % self.frames_in_flight,
            framebuffer_resized: false,
            phase: FramePhase::Idle,
            ..self
        }
    }
}

/// The per-frame protocol: the next state and the action for one event.
pub open spec fn frame_step(s: FrameSyncModel, e: FrameEvent) -> (FrameSyncModel, FrameAction) {
    let slot = s.current_frame;
    match e {
        FrameEvent::Resized => (FrameSyncModel { framebuffer_resized: true, ..s }, FrameAction::Nothing),
        FrameEvent::Redraw => if s.phase == FramePhase::Idle {
            (s.with_phase(FramePhase::AwaitingFence), FrameAction::WaitFence { slot: slot as usize })
        } else {
            (s, FrameAction::Nothing)
        },
        FrameEvent::FenceSignaled => if s.phase == FramePhase::AwaitingFence {
            (
                s.with_fence(slot, true).with_phase(FramePhase::AwaitingImage),
                FrameAction::AcquireImage { slot: slot as usize },
            )
        } else {
            (s, FrameAction::Nothing)
        },
        FrameEvent::ImageAcquired { result } => if s.phase == FramePhase::AwaitingImage {
            match result {
                AcquireOutcome::Acquired { image_index } => (
                    s.with_fence(slot, false).with_phase(FramePhase::Recording { image_index }),
                    FrameAction::Record { slot: slot as usize, image_index },
                ),
                AcquireOutcome::OutOfDate => (s.with_phase(FramePhase::Idle), FrameAction::RebuildAndRetry),
                AcquireOutcome::Failed => (s.with_phase(FramePhase::Halted), FrameAction::Fatal),
            }
        } else {
            (s, FrameAction::Nothing)
        },
        FrameEvent::Recorded => match s.phase {
            FramePhase::Recording { image_index } => (
                s.with_phase(FramePhase::Presenting { image_index }),
                FrameAction::SubmitAndPresent { slot: slot as usize, image_index },
            ),
            _ => (s, FrameAction::Nothing),
        },
        FrameEvent::Presented { status } => if s.phase is Presenting {
            match status {
                PresentOutcome::Presented => (s.end_frame(), FrameAction::EndFrame { rebuild: s.framebuffer_resized }),
                PresentOutcome::Suboptimal => (s.end_frame(), FrameAction::EndFrame { rebuild: true }),
                PresentOutcome::OutOfDate => (s.end_frame(), FrameAction::EndFrame { rebuild: true }),
                PresentOutcome::Failed => (s.with_phase(FramePhase::Halted), FrameAction::Fatal),
            }
        } else {
            (s, FrameAction::Nothing)
        },
    }
}

impl FrameSync {
    pub open spec fn wf(&self) -> bool {
        self@.wf()
    }

    /// A ring of `frames_in_flight` slots whose fences start signaled, so the
    /// first wait on each returns at once.
    pub fn new(frames_in_flight: usize) -> (r: FrameSync)
        requires
            frames_in_flight > 0,
        ensures
            r.wf(),
            r@.current_frame == 0,
            r@.frames_in_flight == frames_in_flight,
            r@.fence_signaled == Seq::new(frames_in_flight as nat, |_i: int| true),
            !r@.framebuffer_resized,
            r@.phase == FramePhase::Idle,
    {
        let mut fence_signaled: Vec<bool> = Vec::new();
        let mut i: usize = 0;
        while i < frames_in_flight
            invariant
                i <= frames_in_flight,
                fence_signaled@ == Seq::new(i as nat, |_i: int| true),
            decreases frames_in_flight - i,
        {
            fence_signaled.push(true);
            i += 1;
            assert(fence_signaled@ =~= Seq::new(i as nat, |_i: int| true));
        }
        FrameSync { current_frame: 0, frames_in_flight, fence_signaled, framebuffer_resized: false, phase: FramePhase::Idle }
    }

    fn set_fence(&mut self, signaled: bool)
        requires
            old(self)@.frames_in_flight > 0,
            0 <= old(self)@.current_frame < old(self)@.frames_in_flight,
            old(self)@.fence_signaled.len() == old(self)@.frames_in_flight,
        ensures
            final(self)@ == old(self)@.with_fence(old(self)@.current_frame, signaled),
    {
        let slot = self.current_frame;
        self.fence_signaled.set(slot, signaled);
    }

    /// Takes one event of the frame loop and says what to do next.
    pub fn handle(&mut self, event: FrameEvent) -> (r: FrameAction)
        requires
            old(self).wf(),
        ensures
            (final(self)@, r) == frame_step(old(self)@, event),
            final(self).wf(),
    {
        proof {
            lemma_frame_step_wf(self@, event);
        }
        let slot = self.current_frame;
        match event {
            FrameEvent::Resized => {
                self.framebuffer_resized = true;
                FrameAction::Nothing
            },
            FrameEvent::Redraw => {
                if self.phase == FramePhase::Idle {
                    self.phase = FramePhase::AwaitingFence;
                    FrameAction::WaitFence { slot }
                } else {
                    FrameAction::Nothing
                }
            },
            FrameEvent::FenceSignaled => {
                if self.phase == FramePhase::AwaitingFence {
                    self.set_fence(true);
                    self.phase = FramePhase::AwaitingImage;
                    FrameAction::AcquireImage { slot }
                } else {
                    FrameAction::Nothing
                }
            },
            FrameEvent::ImageAcquired { result } => {
                if self.phase == FramePhase::AwaitingImage {
                    match result {
                        AcquireOutcome::Acquired { image_index } => {
                            self.set_fence(false);
                            self.phase = FramePhase::Recording { image_index };
                            FrameAction::Record { slot, image_index }
                        },
                        AcquireOutcome::OutOfDate => {
                            self.phase = FramePhase::Idle;
                            FrameAction::RebuildAndRetry
                        },
                        AcquireOutcome::Failed => {
                            self.phase = FramePhase::Halted;
                            FrameAction::Fatal
                        },
                    }
                } else {
                    FrameAction::Nothing
                }
            },
            FrameEvent::Recorded => {
                match self.phase {
                    FramePhase::Recording { image_index } => {
                        self.phase = FramePhase::Presenting { image_index };
                        FrameAction::SubmitAndPresent { slot, image_index }
                    },
                    _ => FrameAction::Nothing,
                }
            },
            FrameEvent::Presented { status } => {
                match self.phase {
                    FramePhase::Presenting { image_index: _ } => {
                        match status {
                            PresentOutcome::Failed => {
                                self.phase = FramePhase::Halted;
                                FrameAction::Fatal
                            },
                            _ => {
                                let rebuild = match status {
                                    PresentOutcome::Presented => self.framebuffer_resized,
                                    _ => true,
                                };
                                self.current_frame = (self.current_frame + 1) % self.frames_in_flight;
                                self.framebuffer_resized = false;
                                self.phase = FramePhase::Idle;
                                FrameAction::EndFrame { rebuild }
                            },
                        }
                    },
                    _ => FrameAction::Nothing,
                }
            },
        }
    }
}

/// Every event keeps the frame state well formed.
pub proof fn lemma_frame_step_wf(s: FrameSyncModel, e: FrameEvent)
    requires
        s.wf(),
    ensures
        frame_step(s, e).0.wf(),
{
}

/// A command buffer is rewritten only on the slot that is current, only after
/// the CPU has seen that slot's fence signaled, and the fence is reset at that
/// point. A fence becomes known signaled only through a completed wait on the
/// current slot. Together: between a submission on slot `i` and the next
/// rewrite on slot `i`, the fence of slot `i` has been waited on.
pub proof fn lemma_record_waits_for_fence(s: FrameSyncModel, e: FrameEvent)
    requires
        s.wf(),
    ensures
        frame_step(s, e).1 is Record ==> {
            let slot = frame_step(s, e).1->Record_slot as int;
            &&& slot == s.current_frame
            &&& s.fence_signaled[slot]
            &&& !frame_step(s, e).0.fence_signaled[slot]
        },
        forall|i: int|
            0 <= i < s.frames_in_flight && !s.fence_signaled[i] && #[trigger] frame_step(s, e).0.fence_signaled[i]
                ==> e == FrameEvent::FenceSignaled && i == s.current_frame && s.phase == FramePhase::AwaitingFence,
{
}

/// After every completed frame the slot index has advanced by one, modulo
/// the ring size, whatever image was used.
pub proof fn lemma_slot_advances(s: FrameSyncModel, e: FrameEvent)
    requires
        s.wf(),
    ensures
        frame_step(s, e).1 is EndFrame ==> frame_step(s, e).0.current_frame == (s.current_frame + 1) % s.frames_in_flight,
        !(frame_step(s, e).1 is EndFrame) ==> frame_step(s, e).0.current_frame == s.current_frame,
{
}

/// A dropped frame leaves the slot and its fence as they were, so the retry
/// waits on the same, still signaled, fence.
pub proof fn lemma_dropped_frame_keeps_fence(s: FrameSyncModel, e: FrameEvent)
    requires
        s.wf(),
        frame_step(s, e).1 == FrameAction::RebuildAndRetry,
    ensures
        frame_step(s, e).0.current_frame == s.current_frame,
        frame_step(s, e).0.fence_signaled == s.fence_signaled,
        s.fence_signaled[s.current_frame],
        frame_step(s, e).0.phase == FramePhase::Idle,
{
}

/// The state after the first `k` events of `events`.
pub open spec fn state_after(s: FrameSyncModel, events: Seq<FrameEvent>, k: nat) -> FrameSyncModel
    decreases k,
{
    if k == 0 {
        s
    } else {
        frame_step(state_after(s, events, (k - 1) as nat), events[k - 1]).0
    }
}

/// The action that the event at position `k` of `events` leads to.
pub open spec fn action_at(s: FrameSyncModel, events: Seq<FrameEvent>, k: nat) -> FrameAction {
    frame_step(state_after(s, events, k), events[k as int]).1
}

/// A fence wait on slot `i` completed at position `j` of the trace.
pub open spec fn fence_waited_at(s: FrameSyncModel, events: Seq<FrameEvent>, j: nat, i: int) -> bool {
    &&& events[j as int] == FrameEvent::FenceSignaled
    &&& state_after(s, events, j).current_frame == i
    &&& state_after(s, events, j).phase == FramePhase::AwaitingFence
}

proof fn lemma_trace_wf(s: FrameSyncModel, events: Seq<FrameEvent>, k: nat)
    requires
        s.wf(),
        k <= events.len(),
    ensures
        state_after(s, events, k).wf(),
        state_after(s, events, k).frames_in_flight == s.frames_in_flight,
    decreases k,
{
    if k > 0 {
        lemma_trace_wf(s, events, (k - 1) as nat);
        lemma_frame_step_wf(state_after(s, events, (k - 1) as nat), events[k - 1]);
    }
}

proof fn lemma_fence_becomes_signaled(s: FrameSyncModel, events: Seq<FrameEvent>, k: nat, i: int)
    requires
        s.wf(),
        k <= events.len(),
        0 <= i < s.frames_in_flight,
        !s.fence_signaled[i],
        state_after(s, events, k).fence_signaled[i],
    ensures
        exists|j: nat| j < k && fence_waited_at(s, events, j, i),
    decreases k,
{
    assert(k > 0);
    let prev = state_after(s, events, (k - 1) as nat);
    lemma_trace_wf(s, events, (k - 1) as nat);
    if prev.fence_signaled[i] {
        lemma_fence_becomes_signaled(s, events, (k - 1) as nat, i);
        let j = choose|j: nat| j < k - 1 && fence_waited_at(s, events, j, i);
        assert(j < k && fence_waited_at(s, events, j, i));
    } else {
        lemma_record_waits_for_fence(prev, events[k - 1]);
        assert(fence_waited_at(s, events, (k - 1) as nat, i));
    }
}

/// Over any run of the frame loop: once slot `i` has a submission in flight
/// (its fence not known signaled), the next rewrite of a command buffer on
/// slot `i` comes after a completed wait on the fence of slot `i`.
pub proof fn lemma_reuse_after_fence_wait(s: FrameSyncModel, events: Seq<FrameEvent>, k: nat, i: int)
    requires
        s.wf(),
        k < events.len(),
        0 <= i < s.frames_in_flight,
        !s.fence_signaled[i],
        action_at(s, events, k) is Record,
        action_at(s, events, k)->Record_slot == i,
    ensures
        exists|j: nat| j < k && fence_waited_at(s, events, j, i),
{
    lemma_trace_wf(s, events, k);
    lemma_record_waits_for_fence(state_after(s, events, k), events[k as int]);
    lemma_fence_becomes_signaled(s, events, k, i);
}

} // verus!
