//! The frame scheduler: one render iteration per frame tick, as a state
//! machine that is told what happened and answers with what to do next.
//!
//! An iteration goes wait-fence, acquire, wait-image-fence (when needed),
//! render (record, reset the slot's fence, submit), present, and then either
//! advances to the next in-flight slot or asks for the swapchain to be
//! recreated. The caller performs each action on the device and reports the
//! outcome as the next event.
use vstd::arithmetic::div_mod::lemma_add_mod_noop;
use vstd::prelude::*;

verus! {

/// How many submissions may be in flight at once.
pub const MAX_FRAMES_IN_FLIGHT: usize = 2;

/// Where the scheduler stands within an iteration.
#[derive(Clone, Copy, Debug, PartialEq, Eq, Structural)]
pub enum Phase {
    /// Between iterations.
    Idle,
    /// Waiting for the current slot's fence.
    WaitingFence,
    /// Waiting for the next presentable image.
    Acquiring,
    /// Waiting for the fence of the slot that last claimed the acquired image.
    WaitingImageFence,
    /// Recording and submitting the command buffer of the acquired image.
    Rendering,
    /// Waiting for the outcome of presentation.
    Presenting,
    /// Waiting for the swapchain and its per-image resources to be rebuilt.
    Recreating,
    /// Torn down; every further event is ignored.
    Closed,
}

/// Outcome of asking the swapchain for its next image.
#[derive(Clone, Copy, Debug, PartialEq, Eq, Structural)]
pub enum AcquireResult {
    Image(u32),
    /// The swapchain no longer matches the surface.
    OutOfDate,
    /// Any other error code.
    Failed(i32),
}

/// Outcome of presenting an image.
#[derive(Clone, Copy, Debug, PartialEq, Eq, Structural)]
pub enum PresentResult {
    Success,
    /// Presented, but the swapchain no longer matches the surface exactly.
    Suboptimal,
    OutOfDate,
    Failed(i32),
}

/// What the caller reports to the scheduler.
#[derive(Clone, Copy, Debug, PartialEq, Eq, Structural)]
pub enum Event {
    /// Render one frame.
    Tick,
    /// The window's framebuffer now has this size.
    Resized { width: u32, height: u32 },
    /// The window is to close.
    CloseRequested,
    /// The wait on the current slot's fence returned.
    FenceWaited,
    Acquired(AcquireResult),
    /// The wait on the fence asked for by `Action::WaitImageFence` returned.
    ImageFenceWaited,
    /// The command buffer was recorded and submitted with the slot's fence.
    Submitted,
    Presented(PresentResult),
    /// The swapchain was rebuilt with this many images.
    Recreated { image_count: usize },
}

/// Why an iteration failed.
#[derive(Clone, Copy, Debug, PartialEq, Eq, Structural)]
pub enum FrameError {
    /// The device reported this error code.
    Api(i32),
    /// The swapchain handed out an image index it does not have.
    ImageOutOfRange(u32),
}

/// What the caller is to do next.
#[derive(Clone, Copy, Debug, PartialEq, Eq, Structural)]
pub enum Action {
    /// Nothing more this tick.
    Done,
    /// Block on the fence of in-flight slot `slot`.
    WaitFence { slot: usize },
    /// Acquire the next image, signalling the slot's image-available semaphore.
    Acquire { slot: usize },
    /// Block on the fence of in-flight slot `slot`, which still uses the image.
    WaitImageFence { slot: usize },
    /// Update the image's uniform buffer and command buffer, reset the slot's
    /// fence and submit: wait on the slot's image-available semaphore at the
    /// colour-attachment-output stage, signal its render-finished semaphore
    /// and its fence.
    Render { slot: usize, image: usize },
    /// Present the image, waiting on the slot's render-finished semaphore.
    Present { slot: usize, image: usize },
    /// Wait for the device to go idle, destroy and rebuild the swapchain and
    /// everything that depends on it.
    Recreate,
    /// Wait for the device to go idle and release everything in reverse order
    /// of creation.
    Destroy,
    /// The iteration failed; the caller is to release resources and stop.
    Fail(FrameError),
}

/// The abstract state of a scheduler.
pub struct SchedulerState {
    pub phase: Phase,
    /// The current in-flight slot.
    pub frame: usize,
    /// The image acquired in the current iteration.
    pub image: usize,
    /// For each in-flight slot, whether its fence is known to be signalled,
    /// that is, whether the slot has no outstanding submission.
    pub fences: Seq<bool>,
    /// For each swapchain image, the in-flight slot that last claimed it.
    pub claims: Seq<Option<usize>>,
    /// A resize was reported since the last rebuild.
    pub resize_pending: bool,
    /// The window has a zero dimension: ticks render nothing.
    pub suspended: bool,
}

/// The slot that follows `slot`.
pub open spec fn next_slot(slot: int) -> int {
    (slot + 1) % (MAX_FRAMES_IN_FLIGHT as int)
}

/// Every fence known signalled and no image claimed, as after a device-idle
/// wait and a rebuild with `image_count` images.
pub open spec fn fresh_state(s: SchedulerState, image_count: nat) -> SchedulerState {
    SchedulerState {
        phase: Phase::Idle,
        fences: Seq::new(MAX_FRAMES_IN_FLIGHT as nat, |i: int| true),
        claims: Seq::new(image_count, |i: int| None),
        resize_pending: false,
        ..s
    }
}

pub open spec fn on_acquired(s: SchedulerState, r: AcquireResult) -> (SchedulerState, Action) {
    match r {
        AcquireResult::OutOfDate => (SchedulerState { phase: Phase::Recreating, ..s }, Action::Recreate),
        AcquireResult::Failed(code) => (
            SchedulerState { phase: Phase::Idle, ..s },
            Action::Fail(FrameError::Api(code)),
        ),
        AcquireResult::Image(i) => {
            if i >= s.claims.len() {
                (
                    SchedulerState { phase: Phase::Idle, ..s },
                    Action::Fail(FrameError::ImageOutOfRange(i)),
                )
            } else {
                match s.claims[i as int] {
                    Some(p) if p != s.frame && !s.fences[p as int] => (
                        SchedulerState { phase: Phase::WaitingImageFence, image: i as usize, ..s },
                        Action::WaitImageFence { slot: p },
                    ),
                    _ => (
                        SchedulerState {
                            phase: Phase::Rendering,
                            image: i as usize,
                            claims: s.claims.update(i as int, Some(s.frame)),
                            ..s
                        },
                        Action::Render { slot: s.frame, image: i as usize },
                    ),
                }
            }
        },
    }
}

/// A present error other than a stale swapchain is fatal, whether or not a
/// resize is pending; a stale swapchain or a pending resize leads to a
/// rebuild; otherwise the iteration advances to the next slot.
pub open spec fn on_presented(s: SchedulerState, r: PresentResult) -> (SchedulerState, Action) {
    let advanced = SchedulerState { frame: next_slot(s.frame as int) as usize, ..s };
    match r {
        PresentResult::Failed(code) => (
            SchedulerState { phase: Phase::Idle, ..s },
            Action::Fail(FrameError::Api(code)),
        ),
        _ => {
            if s.resize_pending || r == PresentResult::Suboptimal || r == PresentResult::OutOfDate {
                (SchedulerState { phase: Phase::Recreating, ..advanced }, Action::Recreate)
            } else {
                (SchedulerState { phase: Phase::Idle, ..advanced }, Action::Done)
            }
        },
    }
}

/// The transition taken on event `e` in state `s`, and the action it asks
/// for. An event that does not belong to the current phase changes nothing.
pub open spec fn next(s: SchedulerState, e: Event) -> (SchedulerState, Action) {
    if s.phase == Phase::Closed {
        (s, Action::Done)
    } else {
        match e {
            Event::Resized { width, height } => {
                if width == 0 || height == 0 {
                    (SchedulerState { suspended: true, ..s }, Action::Done)
                } else {
                    (SchedulerState { suspended: false, resize_pending: true, ..s }, Action::Done)
                }
            },
            Event::CloseRequested => (SchedulerState { phase: Phase::Closed, ..s }, Action::Destroy),
            Event::Tick => {
                if s.phase == Phase::Idle && !s.suspended {
                    (
                        SchedulerState { phase: Phase::WaitingFence, ..s },
                        Action::WaitFence { slot: s.frame },
                    )
                } else {
                    (s, Action::Done)
                }
            },
            Event::FenceWaited => {
                if s.phase == Phase::WaitingFence {
                    (
                        SchedulerState {
                            phase: Phase::Acquiring,
                            fences: s.fences.update(s.frame as int, true),
                            ..s
                        },
                        Action::Acquire { slot: s.frame },
                    )
                } else {
                    (s, Action::Done)
                }
            },
            Event::Acquired(r) => {
                if s.phase == Phase::Acquiring {
                    on_acquired(s, r)
                } else {
                    (s, Action::Done)
                }
            },
            Event::ImageFenceWaited => {
                if s.phase == Phase::WaitingImageFence {
                    let p = s.claims[s.image as int]->0;
                    (
                        SchedulerState {
                            phase: Phase::Rendering,
                            fences: s.fences.update(p as int, true),
                            claims: s.claims.update(s.image as int, Some(s.frame)),
                            ..s
                        },
                        Action::Render { slot: s.frame, image: s.image },
                    )
                } else {
                    (s, Action::Done)
                }
            },
            Event::Submitted => {
                if s.phase == Phase::Rendering {
                    (
                        SchedulerState {
                            phase: Phase::Presenting,
                            fences: s.fences.update(s.frame as int, false),
                            ..s
                        },
                        Action::Present { slot: s.frame, image: s.image },
                    )
                } else {
                    (s, Action::Done)
                }
            },
            Event::Presented(r) => {
                if s.phase == Phase::Presenting {
                    on_presented(s, r)
                } else {
                    (s, Action::Done)
                }
            },
            Event::Recreated { image_count } => {
                if s.phase == Phase::Recreating {
                    (fresh_state(s, image_count as nat), Action::Done)
                } else {
                    (s, Action::Done)
                }
            },
        }
    }
}

/// The invariant of every reachable state.
pub open spec fn state_wf(s: SchedulerState) -> bool {
    &&& s.fences.len() == MAX_FRAMES_IN_FLIGHT
    &&& s.frame < MAX_FRAMES_IN_FLIGHT
    &&& forall|i: int|
        0 <= i < s.claims.len() && (#[trigger] s.claims[i]) is Some ==> s.claims[i]->0
            < MAX_FRAMES_IN_FLIGHT
    &&& (s.phase == Phase::Acquiring || s.phase == Phase::WaitingImageFence || s.phase
        == Phase::Rendering) ==> s.fences[s.frame as int]
    &&& (s.phase == Phase::WaitingImageFence || s.phase == Phase::Rendering || s.phase
        == Phase::Presenting) ==> s.image < s.claims.len()
    &&& s.phase == Phase::WaitingImageFence ==> {
        &&& s.claims[s.image as int] is Some
        &&& s.claims[s.image as int]->0 != s.frame
    }
    &&& (s.phase == Phase::Rendering || s.phase == Phase::Presenting) ==> s.claims[s.image as int]
        == Some(s.frame)
    &&& s.phase == Phase::Presenting ==> !s.fences[s.frame as int]
}

/// Drives the render loop of one window.
pub struct FrameScheduler {
    phase: Phase,
    frame: usize,
    image: usize,
    fences: Vec<bool>,
    claims: Vec<Option<usize>>,
    resize_pending: bool,
    suspended: bool,
}

impl View for FrameScheduler {
    type V = SchedulerState;

    closed spec fn view(&self) -> SchedulerState {
        SchedulerState {
            phase: self.phase,
            frame: self.frame,
            image: self.image,
            fences: self.fences@,
            claims: self.claims@,
            resize_pending: self.resize_pending,
            suspended: self.suspended,
        }
    }
}

fn unclaimed(image_count: usize) -> (r: Vec<Option<usize>>)
    ensures
        r@ == Seq::new(image_count as nat, |i: int| None::<usize>),
{
    let mut r: Vec<Option<usize>> = Vec::new();
    let mut i: usize = 0;
    while i < image_count
        invariant
            i <= image_count,
            r@ == Seq::new(i as nat, |k: int| None::<usize>),
        decreases image_count - i,
    {
        r.push(None);
        i += 1;
        assert(r@ =~= Seq::new(i as nat, |k: int| None::<usize>));
    }
    r
}

fn all_signalled() -> (r: Vec<bool>)
    ensures
        r@ == Seq::new(MAX_FRAMES_IN_FLIGHT as nat, |i: int| true),
{
    let mut r: Vec<bool> = Vec::new();
    let mut i: usize = 0;
    while i < MAX_FRAMES_IN_FLIGHT
        invariant
            i <= MAX_FRAMES_IN_FLIGHT,
            r@ == Seq::new(i as nat, |k: int| true),
        decreases MAX_FRAMES_IN_FLIGHT - i,
    {
        r.push(true);
        i += 1;
        assert(r@ =~= Seq::new(i as nat, |k: int| true));
    }
    r
}

impl FrameScheduler {
    pub open spec fn wf(&self) -> bool {
        state_wf(self@)
    }

    /// A scheduler for a fresh swapchain of `image_count` images: slot zero,
    /// every fence signalled (they are created signalled), no image claimed.
    pub fn new(image_count: usize) -> (r: Self)
        ensures
            r.wf(),
            r@.phase == Phase::Idle,
            r@.frame == 0,
            r@.fences == Seq::new(MAX_FRAMES_IN_FLIGHT as nat, |i: int| true),
            r@.claims == Seq::new(image_count as nat, |i: int| None::<usize>),
            !r@.resize_pending,
            !r@.suspended,
    {
        FrameScheduler {
            phase: Phase::Idle,
            frame: 0,
            image: 0,
            fences: all_signalled(),
            claims: unclaimed(image_count),
            resize_pending: false,
            suspended: false,
        }
    }

    /// Takes event `e` and answers with the next action, following `next`.
    pub fn step(&mut self, e: Event) -> (a: Action)
        requires
            old(self).wf(),
        ensures
            final(self).wf(),
            (final(self)@, a) == next(old(self)@, e),
    {
        if self.phase == Phase::Closed {
            return Action::Done;
        }
        match e {
            Event::Resized { width, height } => {
                if width == 0 || height == 0 {
                    self.suspended = true;
                } else {
                    self.suspended = false;
                    self.resize_pending = true;
                }
                Action::Done
            },
            Event::CloseRequested => {
                self.phase = Phase::Closed;
                Action::Destroy
            },
            Event::Tick => {
                if self.phase == Phase::Idle && !self.suspended {
                    self.phase = Phase::WaitingFence;
                    Action::WaitFence { slot: self.frame }
                } else {
                    Action::Done
                }
            },
            Event::FenceWaited => {
                if self.phase == Phase::WaitingFence {
                    self.fences[self.frame] = true;
                    self.phase = Phase::Acquiring;
                    Action::Acquire { slot: self.frame }
                } else {
                    Action::Done
                }
            },
            Event::Acquired(r) => {
                if self.phase == Phase::Acquiring {
                    self.acquired(r)
                } else {
                    Action::Done
                }
            },
            Event::ImageFenceWaited => {
                if self.phase == Phase::WaitingImageFence {
                    let p = self.claims[self.image].unwrap();
                    self.fences[p] = true;
                    self.claims[self.image] = Some(self.frame);
                    self.phase = Phase::Rendering;
                    Action::Render { slot: self.frame, image: self.image }
                } else {
                    Action::Done
                }
            },
            Event::Submitted => {
                if self.phase == Phase::Rendering {
                    self.fences[self.frame] = false;
                    self.phase = Phase::Presenting;
                    Action::Present { slot: self.frame, image: self.image }
                } else {
                    Action::Done
                }
            },
            Event::Presented(r) => {
                if self.phase == Phase::Presenting {
                    self.presented(r)
                } else {
                    Action::Done
                }
            },
            Event::Recreated { image_count } => {
                if self.phase == Phase::Recreating {
                    self.phase = Phase::Idle;
                    self.fences = all_signalled();
                    self.claims = unclaimed(image_count);
                    self.resize_pending = false;
                    Action::Done
                } else {
                    Action::Done
                }
            },
        }
    }

    fn acquired(&mut self, r: AcquireResult) -> (a: Action)
        requires
            old(self).wf(),
            old(self)@.phase == Phase::Acquiring,
        ensures
            final(self).wf(),
            (final(self)@, a) == on_acquired(old(self)@, r),
    {
        match r {
            AcquireResult::OutOfDate => {
                self.phase = Phase::Recreating;
                Action::Recreate
            },
            AcquireResult::Failed(code) => {
                self.phase = Phase::Idle;
                Action::Fail(FrameError::Api(code))
            },
            AcquireResult::Image(i) => {
                let index = i as usize;
                if index >= self.claims.len() {
                    self.phase = Phase::Idle;
                    return Action::Fail(FrameError::ImageOutOfRange(i));
                }
                self.image = index;
                match self.claims[index] {
                    Some(p) if p != self.frame && !self.fences[p] => {
                        self.phase = Phase::WaitingImageFence;
                        Action::WaitImageFence { slot: p }
                    },
                    _ => {
                        self.claims[index] = Some(self.frame);
                        self.phase = Phase::Rendering;
                        Action::Render { slot: self.frame, image: index }
                    },
                }
            },
        }
    }

    fn presented(&mut self, r: PresentResult) -> (a: Action)
        requires
            old(self).wf(),
            old(self)@.phase == Phase::Presenting,
        ensures
            final(self).wf(),
            (final(self)@, a) == on_presented(old(self)@, r),
    {
        let stale = match r {
            PresentResult::Failed(code) => {
                self.phase = Phase::Idle;
                return Action::Fail(FrameError::Api(code));
            },
            PresentResult::Suboptimal | PresentResult::OutOfDate => true,
            PresentResult::Success => false,
        };
        self.frame = (self.frame + 1) % MAX_FRAMES_IN_FLIGHT;
        if self.resize_pending || stale {
            self.phase = Phase::Recreating;
            Action::Recreate
        } else {
            self.phase = Phase::Idle;
            Action::Done
        }
    }

    pub fn phase(&self) -> (r: Phase)
        ensures
            r == self@.phase,
    {
        self.phase
    }

    /// The in-flight slot of the current iteration.
    pub fn current_slot(&self) -> (r: usize)
        ensures
            r == self@.frame,
    {
        self.frame
    }

    /// The number of swapchain images tracked.
    pub fn image_count(&self) -> (r: usize)
        ensures
            r == self@.claims.len(),
    {
        self.claims.len()
    }

    /// The in-flight slot that last claimed `image`, if any.
    pub fn claimant(&self, image: usize) -> (r: Option<usize>)
        ensures
            image < self@.claims.len() ==> r == self@.claims[image as int],
            image >= self@.claims.len() ==> r is None,
    {
        if image < self.claims.len() {
            self.claims[image]
        } else {
            None
        }
    }

    /// Whether ticks are suspended because the window has a zero dimension.
    pub fn is_suspended(&self) -> (r: bool)
        ensures
            r == self@.suspended,
    {
        self.suspended
    }

    /// Whether a resize was reported since the last rebuild.
    pub fn is_resize_pending(&self) -> (r: bool)
        ensures
            r == self@.resize_pending,
    {
        self.resize_pending
    }

    /// The number of in-flight slots with a submission not yet known complete.
    pub fn in_flight(&self) -> (r: usize)
        requires
            self.wf(),
        ensures
            r == pending_count(self@.fences),
    {
        let mut n: usize = 0;
        let mut i: usize = 0;
        while i < self.fences.len()
            invariant
                i <= self.fences@.len(),
                self.fences@.len() == MAX_FRAMES_IN_FLIGHT,
                n == pending_count(self.fences@.take(i as int)),
                n <= i,
            decreases self.fences@.len() - i,
        {
            assert(self.fences@.take(i as int + 1).drop_last() =~= self.fences@.take(i as int));
            if !self.fences[i] {
                n += 1;
            }
            i += 1;
        }
        assert(self.fences@.take(i as int) =~= self.fences@);
        n
    }
}

/// The number of in-flight slots whose fence is not known signalled.
pub open spec fn pending_count(fences: Seq<bool>) -> nat
    decreases fences.len(),
{
    if fences.len() == 0 {
        0
    } else {
        pending_count(fences.drop_last()) + if fences.last() {
            0nat
        } else {
            1nat
        }
    }
}

/// The slot in use after `n` advances from the initial slot zero.
pub open spec fn slot_after(n: nat) -> int
    decreases n,
{
    if n == 0 {
        0
    } else {
        next_slot(slot_after((n - 1) as nat))
    }
}

proof fn lemma_pending_count_bound(fences: Seq<bool>)
    ensures
        pending_count(fences) <= fences.len(),
    decreases fences.len(),
{
    if fences.len() > 0 {
        lemma_pending_count_bound(fences.drop_last());
    }
}

proof fn lemma_pending_count_update(fences: Seq<bool>, i: int, v: bool)
    requires
        0 <= i < fences.len(),
    ensures
        pending_count(fences.update(i, v)) + (if fences[i] { 0int } else { 1int })
            == pending_count(fences) + (if v { 0int } else { 1int }),
    decreases fences.len(),
{
    let u = fences.update(i, v);
    if i == fences.len() - 1 {
        assert(u.drop_last() =~= fences.drop_last());
    } else {
        assert(u.drop_last() =~= fences.drop_last().update(i, v));
        lemma_pending_count_update(fences.drop_last(), i, v);
    }
}

proof fn lemma_pending_count_all_signalled(n: nat)
    ensures
        pending_count(Seq::new(n, |i: int| true)) == 0,
    decreases n,
{
    if n > 0 {
        assert(Seq::new(n, |i: int| true).drop_last() =~= Seq::new((n - 1) as nat, |i: int| true));
        lemma_pending_count_all_signalled((n - 1) as nat);
    }
}

/// Slots are visited round-robin: after `n` advances from slot zero the
/// active slot is `n mod MAX_FRAMES_IN_FLIGHT`, each advance moves to the
/// following slot, and every transition of the scheduler either keeps its
/// slot or advances it by exactly one.
pub proof fn lemma_round_robin(n: nat, s: SchedulerState, e: Event)
    requires
        state_wf(s),
    ensures
        slot_after(n) == n % (MAX_FRAMES_IN_FLIGHT as nat),
        slot_after(n + 1) == (slot_after(n) + 1) % (MAX_FRAMES_IN_FLIGHT as int),
        next(s, e).0.frame == s.frame || next(s, e).0.frame == next_slot(s.frame as int),
    decreases n,
{
    let m = MAX_FRAMES_IN_FLIGHT as int;
    if n > 0 {
        lemma_round_robin((n - 1) as nat, s, e);
        lemma_add_mod_noop(n - 1, 1, m);
    }
    lemma_add_mod_noop(n as int, 1, m);
}

/// Every transition keeps the invariant of reachable states.
pub proof fn lemma_next_wf(s: SchedulerState, e: Event)
    requires
        state_wf(s),
    ensures
        state_wf(next(s, e).0),
{
}

/// At most `MAX_FRAMES_IN_FLIGHT` submissions are ever outstanding, and the
/// count grows only when a slot whose previous submission is known complete
/// submits again.
pub proof fn lemma_in_flight_bounded(s: SchedulerState, e: Event)
    requires
        state_wf(s),
    ensures
        pending_count(next(s, e).0.fences) <= MAX_FRAMES_IN_FLIGHT,
        pending_count(next(s, e).0.fences) > pending_count(s.fences) ==> {
            &&& e == Event::Submitted
            &&& s.phase == Phase::Rendering
            &&& s.fences[s.frame as int]
            &&& pending_count(next(s, e).0.fences) == pending_count(s.fences) + 1
        },
{
    let t = next(s, e).0;
    lemma_pending_count_bound(t.fences);
    lemma_pending_count_bound(s.fences);
    if s.phase != Phase::Closed {
        match e {
            Event::FenceWaited => {
                if s.phase == Phase::WaitingFence {
                    lemma_pending_count_update(s.fences, s.frame as int, true);
                }
            },
            Event::ImageFenceWaited => {
                if s.phase == Phase::WaitingImageFence {
                    lemma_pending_count_update(s.fences, s.claims[s.image as int]->0 as int, true);
                }
            },
            Event::Submitted => {
                if s.phase == Phase::Rendering {
                    lemma_pending_count_update(s.fences, s.frame as int, false);
                }
            },
            Event::Recreated { image_count } => {
                if s.phase == Phase::Recreating {
                    lemma_pending_count_all_signalled(MAX_FRAMES_IN_FLIGHT as nat);
                }
            },
            _ => {},
        }
    }
}

/// No swapchain image passes from one in-flight slot to another while the
/// first slot's submission may still be running: whenever a transition moves
/// an image's claim from slot `p` to another slot, `p`'s fence has been waited
/// on (it is known signalled afterwards), and the claim an image gets is
/// always the current slot's.
pub proof fn lemma_claims_exclusive(s: SchedulerState, e: Event, i: int)
    requires
        state_wf(s),
        0 <= i < s.claims.len(),
        i < next(s, e).0.claims.len(),
    ensures
        ({
            let t = next(s, e).0;
            &&& (s.claims[i] is Some && t.claims[i] is Some && s.claims[i]->0 != t.claims[i]->0)
                ==> t.fences[s.claims[i]->0 as int] && t.claims[i] == Some(s.frame)
            &&& (s.claims[i] is None && t.claims[i] is Some) ==> t.claims[i] == Some(s.frame)
        }),
{
}

/// A stale swapchain reported by acquisition leads straight to a rebuild:
/// nothing is submitted (no fence changes), the slot does not advance, and
/// the rebuild leaves no submission outstanding and no image claimed.
pub proof fn lemma_stale_acquire_recreates(s: SchedulerState, image_count: nat)
    requires
        state_wf(s),
        s.phase == Phase::Acquiring,
    ensures
        ({
            let (t, a) = next(s, Event::Acquired(AcquireResult::OutOfDate));
            &&& a == Action::Recreate
            &&& t.fences == s.fences
            &&& t.frame == s.frame
            &&& t.phase == Phase::Recreating
        }),
        ({
            let t = next(s, Event::Acquired(AcquireResult::OutOfDate)).0;
            let (u, b) = next(t, Event::Recreated { image_count: image_count as usize });
            &&& b == Action::Done
            &&& u.frame == s.frame
            &&& pending_count(u.fences) == 0
            &&& u.claims.len() == image_count as usize
            &&& forall|i: int| 0 <= i < u.claims.len() ==> (#[trigger] u.claims[i]) is None
        }),
{
    lemma_pending_count_all_signalled(MAX_FRAMES_IN_FLIGHT as nat);
}

/// Any present error other than a stale swapchain is fatal and handed to
/// the caller, even when a resize is pending: no rebuild is asked for and
/// the slot does not advance.
pub proof fn lemma_present_failure_fatal(s: SchedulerState, code: i32)
    requires
        state_wf(s),
        s.phase == Phase::Presenting,
    ensures
        ({
            let (t, a) = next(s, Event::Presented(PresentResult::Failed(code)));
            &&& a == Action::Fail(FrameError::Api(code))
            &&& t.frame == s.frame
            &&& t.phase == Phase::Idle
        }),
{
}

} // verus!
