//! The pipelined frame protocol. Each of `frames` slots owns an
//! image-available semaphore, a render-complete semaphore and a fence; each
//! swapchain image remembers the fence of the last frame that used it. The
//! embedding program performs each action that `FrameSync::step` returns and
//! reports the outcome back as the next event.
use vstd::prelude::*;

verus! {

/// Number of frames recorded ahead of the GPU.
pub const MAX_FRAMES_IN_FLIGHT: usize = 2;

/// Where a frame stands in the acquire, record, submit, present cycle.
#[derive(Clone, Copy, Debug, PartialEq, Eq, Structural)]
pub enum FramePhase {
    /// Between two frames.
    Idle,
    /// Waiting for the current slot's fence before its semaphores are reused.
    WaitingFrameFence,
    /// Waiting for the next presentable image.
    Acquiring,
    /// The image was acquired, but an earlier frame that used it may still be
    /// running; waiting on that frame's fence.
    WaitingImageFence { image: usize, fence: usize },
    /// Recording the command buffer of the image.
    Recording { image: usize },
    /// Resetting the slot's fence and submitting the command buffer.
    Submitting { image: usize },
    /// Queueing the image for presentation.
    Presenting { image: usize },
    /// A fatal error was reported; no further work is handed out.
    Failed,
}

/// What the embedding program reports.
#[derive(Clone, Copy, Debug, PartialEq, Eq, Structural)]
pub enum FrameEvent {
    /// A new frame is wanted.
    BeginFrame,
    /// The fence waited on has signaled.
    FenceSignaled,
    /// The acquire call handed out this swapchain image; `suboptimal` when
    /// the swapchain no longer matches the surface exactly, in which case the
    /// frame is finished and a rebuild asked for after presentation.
    ImageAcquired { image: u32, suboptimal: bool },
    /// The swapchain no longer matches the surface.
    SwapchainOutOfDate,
    /// Presentation succeeded, but the swapchain no longer matches the
    /// surface exactly.
    SwapchainSuboptimal,
    /// The device was lost, or another fatal error occurred.
    DeviceLost,
    /// The command buffer has been recorded.
    Recorded,
    /// The fence was reset and the work submitted.
    Submitted,
    /// The image was queued for presentation.
    Presented,
}

/// What the embedding program is to do next.
#[derive(Clone, Copy, Debug, PartialEq, Eq, Structural)]
pub enum FrameAction {
    /// Wait until the fence of slot `fence` signals.
    WaitForFence { fence: usize },
    /// Acquire the next image, signaling the image-available semaphore of
    /// slot `frame`.
    AcquireImage { frame: usize },
    /// Record the command buffer of swapchain image `image`.
    RecordCommands { image: usize },
    /// Reset the fence of slot `frame`, then submit the command buffer of
    /// `image`, waiting on the slot's image-available semaphore and
    /// signaling its render-complete semaphore and its fence.
    ResetAndSubmit { frame: usize, image: usize },
    /// Present `image`, waiting on the render-complete semaphore of `frame`.
    Present { frame: usize, image: usize },
    /// The frame is done and the slot advanced.
    FrameComplete,
    /// The swapchain must be rebuilt before the next frame.
    RebuildSwapchain,
    /// A fatal error: wait for the device to go idle and stop.
    Abort,
}

/// Why an event was refused.
#[derive(Clone, Copy, Debug, PartialEq, Eq, Structural)]
pub enum FrameError {
    /// The event does not fit the current phase; nothing changed.
    UnexpectedEvent,
}

/// The abstract state of the protocol.
pub struct FrameView {
    pub frames: nat,
    pub current_frame: nat,
    /// `fence_pending[f]`: slot `f`'s fence was submitted and has not been
    /// seen to signal since.
    pub fence_pending: Seq<bool>,
    /// The slot whose fence guards each swapchain image, if any.
    pub images_in_flight: Seq<Option<usize>>,
    pub phase: FramePhase,
    /// An acquire of this frame reported the swapchain suboptimal.
    pub rebuild_requested: bool,
}

impl FrameView {
    pub open spec fn wf(self) -> bool {
        &&& 0 < self.frames <= usize::MAX
        &&& self.current_frame < self.frames
        &&& self.fence_pending.len() == self.frames
        &&& forall|i: int| 0 <= i < self.images_in_flight.len()
            ==> (#[trigger] self.images_in_flight[i] matches Some(g) ==> g < self.frames)
        &&& match self.phase {
            FramePhase::WaitingImageFence { image, fence } => image < self.images_in_flight.len() && fence < self.frames
                && self.images_in_flight[image as int] == Some(fence),
            FramePhase::Recording { image } => image < self.images_in_flight.len(),
            FramePhase::Submitting { image } => image < self.images_in_flight.len(),
            FramePhase::Presenting { image } => image < self.images_in_flight.len(),
            _ => true,
        }
        &&& self.slot_fence_ready()
    }

    /// From the moment an image is asked for until the work is submitted, the
    /// current slot's fence is known to have signaled.
    pub open spec fn slot_fence_ready(self) -> bool {
        match self.phase {
            FramePhase::Acquiring | FramePhase::WaitingImageFence { .. } | FramePhase::Recording { .. }
            | FramePhase::Submitting { .. } => !self.fence_pending[self.current_frame as int],
            _ => true,
        }
    }

    /// The state with phase `phase` and nothing else changed.
    pub open spec fn with_phase(self, phase: FramePhase) -> FrameView {
        FrameView { phase, ..self }
    }

    /// The slot after the current one, round robin.
    pub open spec fn next_frame(self) -> nat {
        ((self.current_frame + 1) % self.frames) as nat
    }

    /// Waiting for the fence of slot `f`.
    pub open spec fn waits_on(self, f: int) -> bool {
        match self.phase {
            FramePhase::WaitingFrameFence => f == self.current_frame,
            FramePhase::WaitingImageFence { image, fence } => f == fence,
            _ => false,
        }
    }
}

/// An event that does not fit the phase: refused, nothing changed.
pub open spec fn unexpected(s: FrameView) -> (FrameView, Result<FrameAction, FrameError>) {
    (s, Err(FrameError::UnexpectedEvent))
}

/// One transition of the protocol: the next state and the action to perform.
pub open spec fn step_spec(s: FrameView, e: FrameEvent) -> (FrameView, Result<FrameAction, FrameError>) {
    let f = s.current_frame;
    if e == FrameEvent::DeviceLost {
        (s.with_phase(FramePhase::Failed), Ok(FrameAction::Abort))
    } else {
        match s.phase {
            FramePhase::Idle => {
                if e == FrameEvent::BeginFrame {
                    if s.fence_pending[f as int] {
                        (s.with_phase(FramePhase::WaitingFrameFence), Ok(FrameAction::WaitForFence { fence: f as usize }))
                    } else {
                        (s.with_phase(FramePhase::Acquiring), Ok(FrameAction::AcquireImage { frame: f as usize }))
                    }
                } else {
                    unexpected(s)
                }
            },
            FramePhase::WaitingFrameFence => {
                if e == FrameEvent::FenceSignaled {
                    (FrameView {
                        fence_pending: s.fence_pending.update(f as int, false),
                        phase: FramePhase::Acquiring,
                        ..s
                    }, Ok(FrameAction::AcquireImage { frame: f as usize }))
                } else {
                    unexpected(s)
                }
            },
            FramePhase::Acquiring => {
                match e {
                    FrameEvent::ImageAcquired { image, suboptimal } => {
                        let i = image as int;
                        let s = FrameView { rebuild_requested: s.rebuild_requested || suboptimal, ..s };
                        if i >= s.images_in_flight.len() {
                            (s.with_phase(FramePhase::Failed), Ok(FrameAction::Abort))
                        } else {
                            match s.images_in_flight[i] {
                                Some(g) if s.fence_pending[g as int] => (
                                    s.with_phase(FramePhase::WaitingImageFence { image: i as usize, fence: g }),
                                    Ok(FrameAction::WaitForFence { fence: g }),
                                ),
                                _ => (FrameView {
                                    images_in_flight: s.images_in_flight.update(i, Some(f as usize)),
                                    phase: FramePhase::Recording { image: i as usize },
                                    ..s
                                }, Ok(FrameAction::RecordCommands { image: i as usize })),
                            }
                        }
                    },
                    FrameEvent::SwapchainOutOfDate => (
                        FrameView { phase: FramePhase::Idle, rebuild_requested: false, ..s },
                        Ok(FrameAction::RebuildSwapchain),
                    ),
                    _ => unexpected(s),
                }
            },
            FramePhase::WaitingImageFence { image, fence } => {
                if e == FrameEvent::FenceSignaled {
                    (FrameView {
                        fence_pending: s.fence_pending.update(fence as int, false),
                        images_in_flight: s.images_in_flight.update(image as int, Some(f as usize)),
                        phase: FramePhase::Recording { image },
                        ..s
                    }, Ok(FrameAction::RecordCommands { image }))
                } else {
                    unexpected(s)
                }
            },
            FramePhase::Recording { image } => {
                if e == FrameEvent::Recorded {
                    (s.with_phase(FramePhase::Submitting { image }), Ok(FrameAction::ResetAndSubmit { frame: f as usize, image }))
                } else {
                    unexpected(s)
                }
            },
            FramePhase::Submitting { image } => {
                if e == FrameEvent::Submitted {
                    (FrameView {
                        fence_pending: s.fence_pending.update(f as int, true),
                        phase: FramePhase::Presenting { image },
                        ..s
                    }, Ok(FrameAction::Present { frame: f as usize, image }))
                } else {
                    unexpected(s)
                }
            },
            FramePhase::Presenting { image } => {
                let advanced = FrameView {
                    current_frame: s.next_frame(),
                    phase: FramePhase::Idle,
                    rebuild_requested: false,
                    ..s
                };
                match e {
                    FrameEvent::Presented => (advanced, Ok(if s.rebuild_requested {
                        FrameAction::RebuildSwapchain
                    } else {
                        FrameAction::FrameComplete
                    })),
                    FrameEvent::SwapchainOutOfDate => (advanced, Ok(FrameAction::RebuildSwapchain)),
                    FrameEvent::SwapchainSuboptimal => (advanced, Ok(FrameAction::RebuildSwapchain)),
                    _ => unexpected(s),
                }
            },
            FramePhase::Failed => unexpected(s),
        }
    }
}

/// Every transition keeps the state well formed.
pub proof fn lemma_step_wf(s: FrameView, e: FrameEvent)
    requires
        s.wf(),
    ensures
        step_spec(s, e).0.wf(),
{
    let n = step_spec(s, e).0;
    assert forall|i: int| 0 <= i < n.images_in_flight.len()
        implies (#[trigger] n.images_in_flight[i] matches Some(g) ==> g < n.frames) by {
        assert(s.images_in_flight.len() == n.images_in_flight.len());
        if s.images_in_flight[i] != n.images_in_flight[i] {
            assert(n.images_in_flight[i] == Some(s.current_frame as usize));
        }
    }
}

/// The state after the first `k` events of a run from `s`.
pub open spec fn state_at(s: FrameView, events: Seq<FrameEvent>, k: int) -> FrameView
    decreases k,
{
    if k <= 0 {
        s
    } else {
        step_spec(state_at(s, events, k - 1), events[k - 1]).0
    }
}

/// The answer to event `k` of a run from `s`.
pub open spec fn action_at(s: FrameView, events: Seq<FrameEvent>, k: int) -> Result<FrameAction, FrameError> {
    step_spec(state_at(s, events, k), events[k]).1
}

/// Event `k` of the run completes a wait on the fence of slot `f`.
pub open spec fn wait_completed_at(s: FrameView, events: Seq<FrameEvent>, k: int, f: int) -> bool {
    events[k] == FrameEvent::FenceSignaled && state_at(s, events, k).waits_on(f)
}

/// The action resets and submits on the fence of slot `f`.
pub open spec fn submits_on(a: Result<FrameAction, FrameError>, f: int) -> bool {
    a matches Ok(FrameAction::ResetAndSubmit { frame, .. }) && frame == f
}

proof fn lemma_run_wf(s: FrameView, events: Seq<FrameEvent>, k: int)
    requires
        s.wf(),
        0 <= k <= events.len(),
    ensures
        state_at(s, events, k).wf(),
    decreases k,
{
    if k > 0 {
        lemma_run_wf(s, events, k - 1);
        lemma_step_wf(state_at(s, events, k - 1), events[k - 1]);
    }
}

proof fn lemma_submit_needs_recording(p: FrameView, e: FrameEvent, f: int)
    requires
        p.wf(),
        submits_on(step_spec(p, e).1, f),
    ensures
        p.phase is Recording,
        p.current_frame == f,
        step_spec(p, e).0.phase is Submitting,
        step_spec(p, e).0.current_frame == f,
{
    match p.phase {
        FramePhase::Idle => {},
        FramePhase::WaitingFrameFence => {},
        FramePhase::Acquiring => {},
        FramePhase::WaitingImageFence { .. } => {},
        FramePhase::Recording { .. } => {},
        FramePhase::Submitting { .. } => {},
        FramePhase::Presenting { .. } => {},
        FramePhase::Failed => {},
    }
}

/// Slot `f`'s fence is about to be submitted, is pending, or the run failed.
pub open spec fn fence_unready(t: FrameView, f: int) -> bool {
    (t.phase is Submitting && t.current_frame == f) || t.fence_pending[f] || t.phase is Failed
}

proof fn lemma_step_keeps_unready(p: FrameView, e: FrameEvent, f: int)
    requires
        p.wf(),
        0 <= f < p.frames,
        fence_unready(p, f),
        !(e == FrameEvent::FenceSignaled && p.waits_on(f)),
    ensures
        fence_unready(step_spec(p, e).0, f),
        step_spec(p, e).0.frames == p.frames,
{
    match p.phase {
        FramePhase::Idle => {},
        FramePhase::WaitingFrameFence => {},
        FramePhase::Acquiring => {},
        FramePhase::WaitingImageFence { .. } => {},
        FramePhase::Recording { .. } => {},
        FramePhase::Submitting { .. } => {},
        FramePhase::Presenting { .. } => {},
        FramePhase::Failed => {},
    }
}

proof fn lemma_frames_fixed(s: FrameView, events: Seq<FrameEvent>, k: int)
    requires
        0 <= k <= events.len(),
    ensures
        state_at(s, events, k).frames == s.frames,
    decreases k,
{
    if k > 0 {
        lemma_frames_fixed(s, events, k - 1);
    }
}

/// After a submission on slot `f`'s fence, and as long as no wait on it
/// completes, the fence is being submitted or is pending, or the run failed.
proof fn lemma_fence_stays_unready(s: FrameView, events: Seq<FrameEvent>, i: int, m: int, f: int)
    requires
        s.wf(),
        0 <= i < m <= events.len(),
        submits_on(action_at(s, events, i), f),
        forall|k: int| i < k < m ==> !wait_completed_at(s, events, k, f),
    ensures
        fence_unready(state_at(s, events, m), f),
    decreases m - i,
{
    lemma_run_wf(s, events, m - 1);
    let p = state_at(s, events, m - 1);
    if m - 1 == i {
        lemma_submit_needs_recording(p, events[i], f);
    } else {
        lemma_fence_stays_unready(s, events, i, m - 1, f);
        lemma_run_wf(s, events, i);
        lemma_submit_needs_recording(state_at(s, events, i), events[i], f);
        lemma_frames_fixed(s, events, i);
        lemma_frames_fixed(s, events, m - 1);
        assert(!wait_completed_at(s, events, m - 1, f));
        lemma_step_keeps_unready(p, events[m - 1], f);
    }
}

/// Fence reuse: between two submissions on the same slot's fence, a wait on
/// that fence completes before the second submission resets it.
pub proof fn lemma_fence_reuse(s: FrameView, events: Seq<FrameEvent>, i: int, j: int, f: int)
    requires
        s.wf(),
        0 <= i < j < events.len(),
        submits_on(action_at(s, events, i), f),
        submits_on(action_at(s, events, j), f),
    ensures
        exists|k: int| i < k < j && wait_completed_at(s, events, k, f),
{
    if forall|k: int| i < k < j ==> !wait_completed_at(s, events, k, f) {
        lemma_fence_stays_unready(s, events, i, j, f);
        lemma_run_wf(s, events, j);
        lemma_submit_needs_recording(state_at(s, events, j), events[j], f);
    }
}

/// Image guard: commands for a swapchain image are recorded only once the
/// fence of the last frame that used the image is known to have signaled,
/// either already or through the wait that this event completes.
pub proof fn lemma_image_guard(s: FrameView, e: FrameEvent, image: usize)
    requires
        s.wf(),
        step_spec(s, e).1 == Ok::<FrameAction, FrameError>(FrameAction::RecordCommands { image }),
    ensures
        image < s.images_in_flight.len(),
        match s.images_in_flight[image as int] {
            Some(g) => !s.fence_pending[g as int] || (e == FrameEvent::FenceSignaled
                && s.phase == (FramePhase::WaitingImageFence { image, fence: g })),
            None => true,
        },
        step_spec(s, e).0.images_in_flight[image as int] == Some(s.current_frame as usize),
{
    match s.phase {
        FramePhase::Idle => {},
        FramePhase::WaitingFrameFence => {},
        FramePhase::Acquiring => {},
        FramePhase::WaitingImageFence { .. } => {},
        FramePhase::Recording { .. } => {},
        FramePhase::Submitting { .. } => {},
        FramePhase::Presenting { .. } => {},
        FramePhase::Failed => {},
    }
}

/// The frame synchronizer: slot rotation, fence bookkeeping and the phase of
/// the frame in progress.
pub struct FrameSync {
    frames: usize,
    current_frame: usize,
    fence_pending: Vec<bool>,
    images_in_flight: Vec<Option<usize>>,
    phase: FramePhase,
    rebuild_requested: bool,
}

impl View for FrameSync {
    type V = FrameView;

    closed spec fn view(&self) -> FrameView {
        FrameView {
            frames: self.frames as nat,
            current_frame: self.current_frame as nat,
            fence_pending: self.fence_pending@,
            images_in_flight: self.images_in_flight@,
            phase: self.phase,
            rebuild_requested: self.rebuild_requested,
        }
    }
}

impl FrameSync {
    pub open spec fn wf(&self) -> bool {
        self@.wf()
    }

    /// A synchronizer for `frames` slots over `image_count` swapchain images:
    /// slot 0 first, every fence signaled, no image guarded.
    pub fn new(frames: usize, image_count: usize) -> (r: FrameSync)
        requires
            frames > 0,
        ensures
            r.wf(),
            r@.frames == frames,
            r@.current_frame == 0,
            r@.fence_pending == Seq::new(frames as nat, |i: int| false),
            r@.images_in_flight == Seq::new(image_count as nat, |i: int| None::<usize>),
            r@.phase == FramePhase::Idle,
            !r@.rebuild_requested,
    {
        let mut fence_pending: Vec<bool> = Vec::with_capacity(frames);
        let mut i: usize = 0;
        while i < frames
            invariant
                i <= frames,
                fence_pending@ =~= Seq::new(i as nat, |k: int| false),
            decreases frames - i,
        {
            fence_pending.push(false);
            i = i + 1;
        }
        let mut images_in_flight: Vec<Option<usize>> = Vec::with_capacity(image_count);
        let mut j: usize = 0;
        while j < image_count
            invariant
                j <= image_count,
                images_in_flight@ =~= Seq::new(j as nat, |k: int| None::<usize>),
            decreases image_count - j,
        {
            images_in_flight.push(None);
            j = j + 1;
        }
        FrameSync { frames, current_frame: 0, fence_pending, images_in_flight, phase: FramePhase::Idle, rebuild_requested: false }
    }

    /// The slot whose semaphores and fence the current frame uses.
    pub fn current_frame(&self) -> (r: usize)
        ensures
            r == self@.current_frame,
    {
        self.current_frame
    }

    /// The phase of the frame in progress.
    pub fn phase(&self) -> (r: FramePhase)
        ensures
            r == self@.phase,
    {
        self.phase
    }

    /// The slot whose fence guards swapchain image `image`, if any.
    pub fn get_image_in_flight(&self, image: usize) -> (r: Option<usize>)
        requires
            image < self@.images_in_flight.len(),
        ensures
            r == self@.images_in_flight[image as int],
    {
        self.images_in_flight[image]
    }

    /// Takes one event and returns the action to perform next.
    pub fn step(&mut self, event: FrameEvent) -> (r: Result<FrameAction, FrameError>)
        requires
            old(self).wf(),
        ensures
            final(self).wf(),
            (final(self)@, r) == step_spec(old(self)@, event),
    {
        proof {
            lemma_step_wf(self@, event);
        }
        let f = self.current_frame;
        if event == FrameEvent::DeviceLost {
            self.phase = FramePhase::Failed;
            return Ok(FrameAction::Abort);
        }
        match self.phase {
            FramePhase::Idle => {
                if event == FrameEvent::BeginFrame {
                    if self.fence_pending[f] {
                        self.phase = FramePhase::WaitingFrameFence;
                        Ok(FrameAction::WaitForFence { fence: f })
                    } else {
                        self.phase = FramePhase::Acquiring;
                        Ok(FrameAction::AcquireImage { frame: f })
                    }
                } else {
                    Err(FrameError::UnexpectedEvent)
                }
            },
            FramePhase::WaitingFrameFence => {
                if event == FrameEvent::FenceSignaled {
                    self.fence_pending.set(f, false);
                    self.phase = FramePhase::Acquiring;
                    Ok(FrameAction::AcquireImage { frame: f })
                } else {
                    Err(FrameError::UnexpectedEvent)
                }
            },
            FramePhase::Acquiring => {
                match event {
                    FrameEvent::ImageAcquired { image, suboptimal } => {
                        let i = image as usize;
                        self.rebuild_requested = self.rebuild_requested || suboptimal;
                        if i >= self.images_in_flight.len() {
                            self.phase = FramePhase::Failed;
                            return Ok(FrameAction::Abort);
                        }
                        match self.images_in_flight[i] {
                            Some(g) if self.fence_pending[g] => {
                                self.phase = FramePhase::WaitingImageFence { image: i, fence: g };
                                Ok(FrameAction::WaitForFence { fence: g })
                            },
                            _ => {
                                self.images_in_flight.set(i, Some(f));
                                self.phase = FramePhase::Recording { image: i };
                                Ok(FrameAction::RecordCommands { image: i })
                            },
                        }
                    },
                    FrameEvent::SwapchainOutOfDate => {
                        self.phase = FramePhase::Idle;
                        self.rebuild_requested = false;
                        Ok(FrameAction::RebuildSwapchain)
                    },
                    _ => Err(FrameError::UnexpectedEvent),
                }
            },
            FramePhase::WaitingImageFence { image, fence } => {
                if event == FrameEvent::FenceSignaled {
                    self.fence_pending.set(fence, false);
                    self.images_in_flight.set(image, Some(f));
                    self.phase = FramePhase::Recording { image };
                    Ok(FrameAction::RecordCommands { image })
                } else {
                    Err(FrameError::UnexpectedEvent)
                }
            },
            FramePhase::Recording { image } => {
                if event == FrameEvent::Recorded {
                    self.phase = FramePhase::Submitting { image };
                    Ok(FrameAction::ResetAndSubmit { frame: f, image })
                } else {
                    Err(FrameError::UnexpectedEvent)
                }
            },
            FramePhase::Submitting { image } => {
                if event == FrameEvent::Submitted {
                    self.fence_pending.set(f, true);
                    self.phase = FramePhase::Presenting { image };
                    Ok(FrameAction::Present { frame: f, image })
                } else {
                    Err(FrameError::UnexpectedEvent)
                }
            },
            FramePhase::Presenting { image } => {
                match event {
                    FrameEvent::Presented | FrameEvent::SwapchainOutOfDate | FrameEvent::SwapchainSuboptimal => {
                        let requested = self.rebuild_requested;
                        self.current_frame = (f + 1) % self.frames;
                        self.phase = FramePhase::Idle;
                        self.rebuild_requested = false;
                        if event == FrameEvent::Presented && !requested {
                            Ok(FrameAction::FrameComplete)
                        } else {
                            Ok(FrameAction::RebuildSwapchain)
                        }
                    },
                    _ => Err(FrameError::UnexpectedEvent),
                }
            },
            FramePhase::Failed => Err(FrameError::UnexpectedEvent),
        }
    }
}

} // verus!
