//! The frame scheduler: the acquire → wait-fence → record → submit →
//! present cycle, bounded by two or three frames in flight, with one fence
//! and two semaphores per slot. The scheduler is the single mutator of the
//! per-frame counters; the driver calls themselves happen outside and
//! report back through the `note_*` methods, whose contracts enforce the
//! fence discipline: a slot's command buffer is reused only after that
//! slot's previous GPU work has provably completed.

use vstd::prelude::*;
use vstd::pervasive::VecAdditionalExecFns;
use crate::errors::{FrameError, Recovery, spec_recovery_for};

verus! {

/// The protocol state of one frame slot's fence.
#[derive(Clone, Copy, Debug, PartialEq, Eq, Structural)]
pub enum FenceState {
    /// Created signaled, so the slot's first frame may proceed at once.
    Signaled,
    /// A wait has observed completion; the fence must be reset before it
    /// is waited on again.
    Consumed,
    /// Reset to unsignaled; only a submission may follow, or the next
    /// wait on this slot would block forever.
    Unsignaled,
    /// A submission is pending that will signal it; a wait will complete.
    InFlight,
}

/// One operation of the fence protocol.
#[derive(Clone, Copy, Debug, PartialEq, Eq, Structural)]
pub enum FenceOp {
    /// Block the host until the fence is signaled.
    Wait,
    /// Return the fence to the unsignaled state.
    Reset,
    /// Queue GPU work that signals the fence on completion.
    Submit,
}

/// Whether a host wait on a fence in state `s` completes: the fence is
/// either still signaled from creation or a submission will signal it.
pub open spec fn fence_may_wait(s: FenceState) -> bool {
    s == FenceState::Signaled || s == FenceState::InFlight
}

/// The fence protocol's transition relation: the state after `op`, or
/// nothing when `op` is illegal in `s`. Waiting is legal only on a fence
/// that is signaled or has a pending signal; resetting only after a wait
/// consumed the signal; submitting only against a reset fence.
pub open spec fn fence_step(s: FenceState, op: FenceOp) -> Option<FenceState> {
    match op {
        FenceOp::Wait => if fence_may_wait(s) {
            Some(FenceState::Consumed)
        } else {
            None
        },
        FenceOp::Reset => if s == FenceState::Consumed {
            Some(FenceState::Unsignaled)
        } else {
            None
        },
        FenceOp::Submit => if s == FenceState::Unsignaled {
            Some(FenceState::InFlight)
        } else {
            None
        },
    }
}

/// Run a sequence of fence operations from `s`; nothing as soon as one
/// of them is illegal.
pub open spec fn fence_run(s: FenceState, ops: Seq<FenceOp>) -> Option<FenceState>
    decreases ops.len(),
{
    if ops.len() == 0 {
        Some(s)
    } else {
        match fence_step(s, ops.first()) {
            Some(s2) => fence_run(s2, ops.drop_first()),
            None => None,
        }
    }
}

/// A fence is never waited on twice in a row: from any waitable state,
/// wait-then-wait is illegal.
pub proof fn lemma_no_double_wait(s: FenceState)
    requires
        fence_may_wait(s),
    ensures
        fence_run(s, seq![FenceOp::Wait, FenceOp::Wait]) is None,
{
    let ops = seq![FenceOp::Wait, FenceOp::Wait];
    assert(ops.first() == FenceOp::Wait);
    assert(ops.drop_first() =~= seq![FenceOp::Wait]);
    assert(fence_run(FenceState::Consumed, seq![FenceOp::Wait]) is None);
}

/// After a wait, the only legal continuation that makes the fence
/// waitable again begins with a reset and then a submission: every valid
/// operation sequence from `Consumed` to a waitable state starts
/// `[Reset, Submit, ..]`. Together with `lemma_no_double_wait` this is
/// the full discipline: reset → submit → (implicit signal) → wait is the
/// only valid cycle between two waits.
pub proof fn lemma_wait_again_takes_reset_then_submit(ops: Seq<FenceOp>, s2: FenceState)
    requires
        fence_run(FenceState::Consumed, ops) == Some(s2),
        fence_may_wait(s2),
    ensures
        ops.len() >= 2,
        ops[0] == FenceOp::Reset,
        ops[1] == FenceOp::Submit,
{
    assert(ops.len() != 0);
    assert(fence_step(FenceState::Consumed, ops.first()) is Some ==> ops.first()
        == FenceOp::Reset);
    let rest = ops.drop_first();
    assert(fence_run(FenceState::Unsignaled, rest) == Some(s2));
    assert(rest.len() != 0);
    assert(fence_step(FenceState::Unsignaled, rest.first()) is Some ==> rest.first()
        == FenceOp::Submit);
    assert(ops[1] == rest[0]);
}

/// One full frame cycle — wait, reset, submit — is legal from any
/// waitable fence state and leaves the fence waitable again (in flight),
/// so the rotation can visit the slot forever.
pub proof fn lemma_fence_full_cycle(s: FenceState)
    requires
        fence_may_wait(s),
    ensures
        fence_run(s, seq![FenceOp::Wait, FenceOp::Reset, FenceOp::Submit]) == Some(
            FenceState::InFlight,
        ),
{
    let ops = seq![FenceOp::Wait, FenceOp::Reset, FenceOp::Submit];
    assert(seq![FenceOp::Submit].drop_first() =~= Seq::<FenceOp>::empty());
    assert(fence_run(FenceState::InFlight, Seq::<FenceOp>::empty()) == Some(
        FenceState::InFlight,
    ));
    assert(fence_run(FenceState::Unsignaled, seq![FenceOp::Submit]) == Some(
        FenceState::InFlight,
    ));
    assert(seq![FenceOp::Reset, FenceOp::Submit].drop_first() =~= seq![FenceOp::Submit]);
    assert(fence_run(FenceState::Consumed, seq![FenceOp::Reset, FenceOp::Submit]) == Some(
        FenceState::InFlight,
    ));
    assert(ops.drop_first() =~= seq![FenceOp::Reset, FenceOp::Submit]);
    assert(fence_run(s, ops) == Some(FenceState::InFlight));
}

/// A completed frame restores the quiescent state: starting from slots
/// that are all waitable, running one slot through its wait, reset and
/// submission leaves every slot waitable again — so the rotation can
/// run forever, and at most one slot is ever mid-protocol.
pub proof fn lemma_frame_cycle_preserves_quiescence(fences: Seq<FenceState>, slot: int)
    requires
        0 <= slot < fences.len(),
        forall|k: int| 0 <= k < fences.len() ==> fence_may_wait(#[trigger] fences[k]),
    ensures
        forall|k: int|
            0 <= k < fences.len() ==> fence_may_wait(
                #[trigger] fences.update(slot, FenceState::Consumed).update(
                    slot,
                    FenceState::Unsignaled,
                ).update(slot, FenceState::InFlight)[k],
            ),
{
}

/// The slot the scheduler uses for the `n`th frame after a state whose
/// counter stands at `start`: round-robin over `fif` slots.
pub open spec fn slot_at(start: int, n: int, fif: int) -> int
    recommends
        fif >= 1,
{
    (start + n) % fif
}

/// The slot sequence is periodic with period exactly `fif`.
pub proof fn lemma_slot_rotation_periodic(start: int, n: int, fif: int)
    requires
        fif >= 1,
        n >= 0,
        0 <= start,
    ensures
        slot_at(start, n + fif, fif) == slot_at(start, n, fif),
{
    vstd::arithmetic::div_mod::lemma_mod_add_multiples_vanish(start + n, fif);
}

/// Within one period no slot is skipped or repeated: the `fif` slots of
/// frames `n .. n + fif` are pairwise distinct.
pub proof fn lemma_slot_rotation_no_repeat(start: int, i: int, j: int, fif: int)
    requires
        fif >= 1,
        0 <= start,
        0 <= i < j,
        j - i < fif,
    ensures
        slot_at(start, i, fif) != slot_at(start, j, fif),
{
    let a = start + i;
    let b = start + j;
    vstd::arithmetic::div_mod::lemma_fundamental_div_mod(a, fif);
    vstd::arithmetic::div_mod::lemma_fundamental_div_mod(b, fif);
    vstd::arithmetic::div_mod::lemma_mod_bound(a, fif);
    vstd::arithmetic::div_mod::lemma_mod_bound(b, fif);
    if a % fif == b % fif {
        let qa = a / fif;
        let qb = b / fif;
        let r = a % fif;
        assert(b - a == fif * (qb - qa)) by (nonlinear_arith)
            requires
                a == fif * qa + r,
                b == fif * qb + r,
        ;
        assert(b - a >= 1);
        assert(qb - qa >= 1) by (nonlinear_arith)
            requires
                b - a == fif * (qb - qa),
                b - a >= 1,
                fif >= 1,
        ;
        assert(fif * (qb - qa) >= fif) by (nonlinear_arith)
            requires
                qb - qa >= 1,
                fif >= 1,
        ;
    }
}

/// Each successive frame takes the next slot round-robin.
pub proof fn lemma_slot_rotation_step(start: int, n: int, fif: int)
    requires
        fif >= 1,
        n >= 0,
        0 <= start,
    ensures
        slot_at(start, n + 1, fif) == (slot_at(start, n, fif) + 1) % fif,
{
    let a = start + n;
    vstd::arithmetic::div_mod::lemma_fundamental_div_mod(a, fif);
    vstd::arithmetic::div_mod::lemma_mod_bound(a, fif);
    vstd::arithmetic::div_mod::lemma_mod_multiples_vanish(a / fif, a % fif + 1, fif);
}

/// One step of the steady-state per-frame protocol. Within one frame the
/// GPU-side ordering is a strict semaphore chain: the acquire signals the
/// slot's image-available semaphore, the submission waits on it at the
/// color-attachment-output stage and signals render-finished together
/// with the slot's fence, and the present waits on render-finished.
#[derive(Clone, Copy, Debug, PartialEq, Eq, Structural)]
pub enum FrameStep {
    /// Block the host on the slot's fence: the only host-observable
    /// ordering guarantee, gating reuse of the slot's command buffer.
    WaitSlotFence,
    /// Reset the slot's fence to unsignaled.
    ResetSlotFence,
    /// Acquire the next swapchain image; the slot's image-available
    /// semaphore is signalled GPU-side on completion.
    AcquireImage,
    /// Re-record the command buffer of the acquired image index — not
    /// the slot index, when the two counts differ.
    RecordCommands,
    /// Submit to the graphics queue: wait on image-available at the
    /// color-attachment-output stage, signal render-finished and the
    /// slot's fence on completion.
    SubmitQueue,
    /// Present the acquired image, waiting on render-finished.
    PresentImage,
}

/// The fixed order of one rendered frame, after the slot was taken and
/// the counter advanced. The fence wait comes first so that the
/// re-recording below it can never race the slot's previous GPU work,
/// and the present comes last in the semaphore chain.
pub fn frame_protocol() -> (steps: Vec<FrameStep>)
    ensures
        steps@ =~= seq![
            FrameStep::WaitSlotFence,
            FrameStep::ResetSlotFence,
            FrameStep::AcquireImage,
            FrameStep::RecordCommands,
            FrameStep::SubmitQueue,
            FrameStep::PresentImage,
        ],
{
    let mut steps: Vec<FrameStep> = Vec::new();
    steps.push(FrameStep::WaitSlotFence);
    steps.push(FrameStep::ResetSlotFence);
    steps.push(FrameStep::AcquireImage);
    steps.push(FrameStep::RecordCommands);
    steps.push(FrameStep::SubmitQueue);
    steps.push(FrameStep::PresentImage);
    steps
}

/// The frame scheduler's host-visible state: the bounded ring of frame
/// slots, each slot's fence protocol state, and whether a mid-frame
/// failure or resize has invalidated the swapchain-dependent resources.
/// One fence and one pair of semaphores exist per slot, so a slot index
/// names all three; command buffers are indexed by the acquired image.
pub struct FrameScheduler {
    /// How many frames may be in flight at once: two or three.
    pub frames_in_flight: usize,
    /// How many images the swapchain ring holds.
    pub image_count: usize,
    /// The slot the next frame will use.
    pub current_frame: usize,
    /// Each slot's fence, by slot index.
    pub fences: Vec<FenceState>,
    /// Set when the swapchain-dependent resources must be rebuilt before
    /// another frame may start.
    pub needs_rebuild: bool,
}

impl FrameScheduler {
    /// The scheduler's structural invariant.
    pub open spec fn wf(self) -> bool {
        &&& 2 <= self.frames_in_flight <= 3
        &&& self.image_count >= 1
        &&& self.current_frame < self.frames_in_flight
        &&& self.fences@.len() == self.frames_in_flight
    }

    /// Every slot's fence may be waited on: the quiescent state between
    /// frames, which each completed frame re-establishes.
    pub open spec fn all_waitable(self) -> bool {
        forall|k: int| 0 <= k < self.fences@.len() ==> fence_may_wait(#[trigger] self.fences@[k])
    }

    /// A fresh scheduler: slot zero first, every fence created signaled
    /// (so each slot's first wait completes at once), nothing to rebuild.
    pub fn new(frames_in_flight: usize, image_count: usize) -> (s: FrameScheduler)
        requires
            2 <= frames_in_flight <= 3,
            image_count >= 1,
        ensures
            s.wf(),
            s.frames_in_flight == frames_in_flight,
            s.image_count == image_count,
            s.current_frame == 0,
            s.fences@.len() == frames_in_flight,
            forall|k: int| 0 <= k < frames_in_flight ==> s.fences@[k] == FenceState::Signaled,
            s.all_waitable(),
            !s.needs_rebuild,
    {
        let mut fences: Vec<FenceState> = Vec::new();
        let mut k: usize = 0;
        while k < frames_in_flight
            invariant
                k <= frames_in_flight,
                fences@.len() == k,
                forall|j: int| 0 <= j < k ==> fences@[j] == FenceState::Signaled,
            decreases frames_in_flight - k,
        {
            fences.push(FenceState::Signaled);
            k = k + 1;
        }
        FrameScheduler {
            frames_in_flight,
            image_count,
            current_frame: 0,
            fences,
            needs_rebuild: false,
        }
    }

    /// Start a frame: hand out the current slot and advance the counter
    /// round-robin at once — before any fallible step, so that a failure
    /// mid-frame does not stall the rotation on retry.
    pub fn begin_frame(&mut self) -> (slot: usize)
        requires
            old(self).wf(),
            !old(self).needs_rebuild,
        ensures
            final(self).wf(),
            slot == old(self).current_frame,
            slot < old(self).frames_in_flight,
            final(self).current_frame == (old(self).current_frame + 1) % (
            old(self).frames_in_flight as int),
            final(self).frames_in_flight == old(self).frames_in_flight,
            final(self).image_count == old(self).image_count,
            final(self).fences@ == old(self).fences@,
            final(self).needs_rebuild == old(self).needs_rebuild,
    {
        let slot = self.current_frame;
        self.current_frame = (self.current_frame + 1) % self.frames_in_flight;
        slot
    }

    /// Record that the host waited on slot `slot`'s fence and the wait
    /// completed. Legal only on a waitable fence: a second wait without
    /// an intervening reset-and-submit cycle is ruled out here.
    pub fn note_waited(&mut self, slot: usize)
        requires
            old(self).wf(),
            slot < old(self).frames_in_flight,
            fence_may_wait(old(self).fences@[slot as int]),
        ensures
            final(self).wf(),
            final(self).fences@ == old(self).fences@.update(slot as int, FenceState::Consumed),
            fence_step(old(self).fences@[slot as int], FenceOp::Wait) == Some(
                final(self).fences@[slot as int],
            ),
            final(self).frames_in_flight == old(self).frames_in_flight,
            final(self).image_count == old(self).image_count,
            final(self).current_frame == old(self).current_frame,
            final(self).needs_rebuild == old(self).needs_rebuild,
    {
        self.fences.set(slot, FenceState::Consumed);
    }

    /// Record that slot `slot`'s fence was reset to unsignaled. Legal
    /// only after a wait consumed the previous signal.
    pub fn note_reset(&mut self, slot: usize)
        requires
            old(self).wf(),
            slot < old(self).frames_in_flight,
            old(self).fences@[slot as int] == FenceState::Consumed,
        ensures
            final(self).wf(),
            final(self).fences@ == old(self).fences@.update(slot as int, FenceState::Unsignaled),
            fence_step(old(self).fences@[slot as int], FenceOp::Reset) == Some(
                final(self).fences@[slot as int],
            ),
            final(self).frames_in_flight == old(self).frames_in_flight,
            final(self).image_count == old(self).image_count,
            final(self).current_frame == old(self).current_frame,
            final(self).needs_rebuild == old(self).needs_rebuild,
    {
        self.fences.set(slot, FenceState::Unsignaled);
    }

    /// Record that work signalling slot `slot`'s fence was submitted to
    /// the queue. Legal only against a reset fence; the slot is waitable
    /// again afterwards.
    pub fn note_submitted(&mut self, slot: usize)
        requires
            old(self).wf(),
            slot < old(self).frames_in_flight,
            old(self).fences@[slot as int] == FenceState::Unsignaled,
        ensures
            final(self).wf(),
            final(self).fences@ == old(self).fences@.update(slot as int, FenceState::InFlight),
            fence_step(old(self).fences@[slot as int], FenceOp::Submit) == Some(
                final(self).fences@[slot as int],
            ),
            fence_may_wait(final(self).fences@[slot as int]),
            final(self).frames_in_flight == old(self).frames_in_flight,
            final(self).image_count == old(self).image_count,
            final(self).current_frame == old(self).current_frame,
            final(self).needs_rebuild == old(self).needs_rebuild,
    {
        self.fences.set(slot, FenceState::InFlight);
    }

    /// Whether an acquired image index names one of the swapchain's
    /// images, so that it may select a command buffer and framebuffer.
    pub fn image_index_ok(&self, index: usize) -> (b: bool)
        ensures
            b == (index < self.image_count),
    {
        index < self.image_count
    }

    /// Record a failed acquire or present and classify it: a transient
    /// failure asks for a swapchain rebuild, anything else is fatal.
    /// Either way no further frame may start before `rebuilt`, since a
    /// frame abandoned mid-protocol leaves its fence unusable.
    pub fn frame_failed(&mut self, e: &FrameError) -> (r: Recovery)
        requires
            old(self).wf(),
        ensures
            final(self).wf(),
            r == spec_recovery_for(*e),
            final(self).needs_rebuild,
            final(self).frames_in_flight == old(self).frames_in_flight,
            final(self).image_count == old(self).image_count,
            final(self).current_frame == old(self).current_frame,
            final(self).fences@ == old(self).fences@,
    {
        self.needs_rebuild = true;
        crate::errors::recovery_for(e)
    }

    /// Note that the window was resized: the swapchain no longer matches
    /// the surface, so the next frame must be preceded by a rebuild.
    pub fn surface_changed(&mut self)
        requires
            old(self).wf(),
        ensures
            final(self).wf(),
            final(self).needs_rebuild,
            final(self).frames_in_flight == old(self).frames_in_flight,
            final(self).image_count == old(self).image_count,
            final(self).current_frame == old(self).current_frame,
            final(self).fences@ == old(self).fences@,
    {
        self.needs_rebuild = true;
    }

    /// Resume after the swapchain-dependent resources were rebuilt: the
    /// fences are fresh (created signaled), the rotation restarts at
    /// slot zero, and the new swapchain's image count applies.
    pub fn rebuilt(&mut self, image_count: usize)
        requires
            old(self).wf(),
            image_count >= 1,
        ensures
            final(self).wf(),
            final(self).frames_in_flight == old(self).frames_in_flight,
            final(self).image_count == image_count,
            final(self).current_frame == 0,
            final(self).fences@.len() == old(self).frames_in_flight,
            forall|k: int|
                0 <= k < final(self).fences@.len() ==> final(self).fences@[k]
                    == FenceState::Signaled,
            final(self).all_waitable(),
            !final(self).needs_rebuild,
    {
        let fif = self.frames_in_flight;
        let mut fences: Vec<FenceState> = Vec::new();
        let mut k: usize = 0;
        while k < fif
            invariant
                k <= fif,
                fences@.len() == k,
                forall|j: int| 0 <= j < k ==> fences@[j] == FenceState::Signaled,
            decreases fif - k,
        {
            fences.push(FenceState::Signaled);
            k = k + 1;
        }
        self.fences = fences;
        self.image_count = image_count;
        self.current_frame = 0;
        self.needs_rebuild = false;
    }
}

} // verus!
