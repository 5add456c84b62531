//! The per-frame submission protocol as a state machine: each event that the
//! caller observes (the resize flag, the outcome of acquiring an image, the
//! outcome of presenting) yields the next state and the action to perform.

use vstd::prelude::*;

verus! {

/// Where a `render` call stands.
#[derive(Clone, Copy, Debug, PartialEq, Eq, Structural)]
pub enum Phase {
    /// Between calls.
    Idle,
    /// An image has been asked of the swapchain.
    Acquiring,
    /// The frame's work for synchronization slot `slot` is under way.
    Drawing { slot: usize },
}

/// What the caller observed.
#[derive(Clone, Copy, Debug, PartialEq, Eq, Structural)]
pub enum FrameEvent {
    /// A `render` call begins; `resize_requested` is the resize flag as read.
    Start { resize_requested: bool },
    /// The swapchain handed out an image.
    Acquired,
    /// The swapchain could not hand out an image.
    AcquireFailed,
    /// The image was handed to presentation; `ok` tells whether that worked.
    Presented { ok: bool },
}

/// What the caller does next.
#[derive(Clone, Copy, Debug, PartialEq, Eq, Structural)]
pub enum FrameAction {
    /// Reconfigure the swapchain and clear the resize flag; the call ends
    /// without drawing.
    RecreateAndClearResize,
    /// Acquire the next image, waiting as long as it takes.
    Acquire,
    /// Reconfigure the swapchain; the call ends without drawing.
    RecreateAndSkip,
    /// Create the framebuffer of the acquired image, then perform
    /// `frame_ops(slot)` in order and report how presenting went.
    Draw { slot: usize },
    /// Reconfigure the swapchain when `recreate` holds, destroy the
    /// framebuffer; the call ends.
    Finish { recreate: bool },
}

/// One step of a drawing frame, on the objects of one synchronization slot.
#[derive(Clone, Copy, Debug, PartialEq, Eq, Structural)]
pub enum GpuOp {
    /// Wait, without limit, for the slot's fence.
    WaitFence(usize),
    /// Unsignal the slot's fence.
    ResetFence(usize),
    /// Reset the slot's command buffer, and nothing else of the pool.
    ResetCommandBuffer(usize),
    /// Write the uniform contents and upload them.
    UploadUniform,
    /// Record the slot's command buffer: viewport, scissor, pipeline, vertex
    /// buffer, descriptor set, render pass, one draw.
    Record(usize),
    /// Submit the slot's command buffer, signalling its semaphore and fence.
    Submit(usize),
    /// Present the image once the slot's semaphore is signalled.
    Present(usize),
}

/// The draw call of every frame: three vertices, one instance.
pub const VERTICES_PER_DRAW: u32 = 3;

/// Instances drawn per frame.
pub const INSTANCES_PER_DRAW: u32 = 1;

/// The synchronization slot of frame `frame` with `n` frames in flight.
pub open spec fn slot_of(frame: int, n: int) -> int {
    frame % n
}

/// The steps of a drawing frame in slot `slot`.
pub open spec fn ops_of(slot: usize) -> Seq<GpuOp> {
    seq![
        GpuOp::WaitFence(slot),
        GpuOp::ResetFence(slot),
        GpuOp::ResetCommandBuffer(slot),
        GpuOp::UploadUniform,
        GpuOp::Record(slot),
        GpuOp::Submit(slot),
        GpuOp::Present(slot),
    ]
}

/// The slot that an operation touches, if any.
pub open spec fn op_slot(op: GpuOp) -> Option<usize> {
    match op {
        GpuOp::WaitFence(s) => Some(s),
        GpuOp::ResetFence(s) => Some(s),
        GpuOp::ResetCommandBuffer(s) => Some(s),
        GpuOp::UploadUniform => None,
        GpuOp::Record(s) => Some(s),
        GpuOp::Submit(s) => Some(s),
        GpuOp::Present(s) => Some(s),
    }
}

/// The steps of a drawing frame in slot `slot`: wait for and reset the
/// slot's fence, reset its command buffer, upload the uniform, record,
/// submit, present.
pub fn frame_ops(slot: usize) -> (r: Vec<GpuOp>)
    ensures
        r@ == ops_of(slot),
{
    let r = vec![
        GpuOp::WaitFence(slot),
        GpuOp::ResetFence(slot),
        GpuOp::ResetCommandBuffer(slot),
        GpuOp::UploadUniform,
        GpuOp::Record(slot),
        GpuOp::Submit(slot),
        GpuOp::Present(slot),
    ];
    proof {
        assert(r@ =~= ops_of(slot));
    }
    r
}

/// Whether `e` is an event that can follow in phase `p`.
pub open spec fn event_expected(p: Phase, e: FrameEvent) -> bool {
    match p {
        Phase::Idle => e is Start,
        Phase::Acquiring => e is Acquired || e is AcquireFailed,
        Phase::Drawing { .. } => e is Presented,
    }
}

/// The frame state: the frame counter, the number of frames in flight, and
/// the phase of the current call.
pub struct Renderer {
    /// Frames drawn so far; never decreases.
    pub frame: u64,
    /// Synchronization slots: command buffers, semaphores and fences each.
    pub frames_in_flight: usize,
    pub phase: Phase,
}

/// The state after event `e`.
pub open spec fn next_state(s: Renderer, e: FrameEvent) -> Renderer {
    match e {
        FrameEvent::Start { resize_requested } => if resize_requested {
            s
        } else {
            Renderer { phase: Phase::Acquiring, ..s }
        },
        FrameEvent::Acquired => Renderer {
            phase: Phase::Drawing { slot: slot_of(s.frame as int, s.frames_in_flight as int) as usize },
            ..s
        },
        FrameEvent::AcquireFailed => Renderer { phase: Phase::Idle, ..s },
        FrameEvent::Presented { .. } => Renderer { phase: Phase::Idle, frame: (s.frame + 1) as u64, ..s },
    }
}

/// The action that event `e` calls for.
pub open spec fn action_of(s: Renderer, e: FrameEvent) -> FrameAction {
    match e {
        FrameEvent::Start { resize_requested } => if resize_requested {
            FrameAction::RecreateAndClearResize
        } else {
            FrameAction::Acquire
        },
        FrameEvent::Acquired => FrameAction::Draw {
            slot: slot_of(s.frame as int, s.frames_in_flight as int) as usize,
        },
        FrameEvent::AcquireFailed => FrameAction::RecreateAndSkip,
        FrameEvent::Presented { ok } => FrameAction::Finish { recreate: !ok },
    }
}

impl Renderer {
    pub open spec fn wf(&self) -> bool {
        &&& self.frames_in_flight >= 1
        &&& match self.phase {
            Phase::Drawing { slot } => slot == slot_of(self.frame as int, self.frames_in_flight as int),
            _ => true,
        }
    }

    /// A fresh frame state with `frames_in_flight` slots, before any frame.
    pub fn new(frames_in_flight: usize) -> (r: Renderer)
        requires
            frames_in_flight >= 1,
        ensures
            r.wf(),
            r.frame == 0,
            r.frames_in_flight == frames_in_flight,
            r.phase == Phase::Idle,
    {
        Renderer { frame: 0, frames_in_flight, phase: Phase::Idle }
    }

    /// The synchronization slot of the current frame.
    pub fn frame_index(&self) -> (r: usize)
        requires
            self.wf(),
        ensures
            r == slot_of(self.frame as int, self.frames_in_flight as int),
            r < self.frames_in_flight,
    {
        (self.frame % (self.frames_in_flight as u64)) as usize
    }

    /// Takes event `e` and returns the action it calls for.
    pub fn step(&mut self, e: FrameEvent) -> (r: FrameAction)
        requires
            old(self).wf(),
            event_expected(old(self).phase, e),
            e is Presented ==> old(self).frame < u64::MAX,
        ensures
            final(self).wf(),
            *final(self) == next_state(*old(self), e),
            r == action_of(*old(self), e),
    {
        match e {
            FrameEvent::Start { resize_requested } => {
                if resize_requested {
                    FrameAction::RecreateAndClearResize
                } else {
                    self.phase = Phase::Acquiring;
                    FrameAction::Acquire
                }
            },
            FrameEvent::Acquired => {
                let slot = self.frame_index();
                self.phase = Phase::Drawing { slot };
                FrameAction::Draw { slot }
            },
            FrameEvent::AcquireFailed => {
                self.phase = Phase::Idle;
                FrameAction::RecreateAndSkip
            },
            FrameEvent::Presented { ok } => {
                self.frame = self.frame + 1;
                self.phase = Phase::Idle;
                FrameAction::Finish { recreate: !ok }
            },
        }
    }
}

/// Frame indices cycle through `0..n` in order: frame 0 takes slot 0, each
/// frame takes the slot after its predecessor's, and a slot comes back
/// exactly `n` frames later, not before.
pub proof fn lemma_slots_cycle(frame: int, n: int)
    requires
        frame >= 0,
        n >= 1,
    ensures
        slot_of(0, n) == 0,
        0 <= slot_of(frame, n) < n,
        slot_of(frame + 1, n) == (slot_of(frame, n) + 1) % n,
        slot_of(frame + n, n) == slot_of(frame, n),
        forall|k: int| 0 < k < n ==> #[trigger] slot_of(frame + k, n) != slot_of(frame, n),
{
    assert(0 <= frame % n < n) by (nonlinear_arith)
        requires
            n >= 1,
    ;
    assert(frame == n * (frame / n) + frame % n) by (nonlinear_arith)
        requires
            n >= 1,
    ;
    assert((frame + 1) % n == (frame % n + 1) % n) by {
        vstd::arithmetic::div_mod::lemma_add_mod_noop(frame, 1, n);
        if n > 1 {
            vstd::arithmetic::div_mod::lemma_small_mod(1nat, n as nat);
        } else {
            assert(1int % 1 == 0);
        }
    }
    assert((frame + n) % n == frame % n) by {
        vstd::arithmetic::div_mod::lemma_add_mod_noop(frame, n, n);
        vstd::arithmetic::div_mod::lemma_mod_self_0(n);
        vstd::arithmetic::div_mod::lemma_mod_twice(frame, n);
    }
    assert forall|k: int| 0 < k < n implies #[trigger] slot_of(frame + k, n) != slot_of(frame, n) by {
        vstd::arithmetic::div_mod::lemma_add_mod_noop(frame, k, n);
        vstd::arithmetic::div_mod::lemma_small_mod(k as nat, n as nat);
        let a = frame % n;
        assert(0 <= a + k < 2 * n);
        if a + k < n {
            vstd::arithmetic::div_mod::lemma_small_mod((a + k) as nat, n as nat);
        } else {
            vstd::arithmetic::div_mod::lemma_mod_sub_multiples_vanish(a + k, n);
            vstd::arithmetic::div_mod::lemma_small_mod((a + k - n) as nat, n as nat);
        }
    }
}

/// A drawing frame waits on its slot's fence exactly once, and does so
/// before it resets, records or submits the slot's command buffer; it
/// touches no other slot.
pub proof fn lemma_fence_waited_before_reuse(slot: usize)
    ensures
        ops_of(slot)[0] == GpuOp::WaitFence(slot),
        forall|i: int| 0 <= i < ops_of(slot).len() && ops_of(slot)[i] == GpuOp::WaitFence(slot) ==> i == 0,
        forall|i: int|
            0 <= i < ops_of(slot).len() && (ops_of(slot)[i] == GpuOp::ResetCommandBuffer(slot)
                || ops_of(slot)[i] == GpuOp::Record(slot) || ops_of(slot)[i] == GpuOp::Submit(slot))
                ==> i > 0,
        forall|i: int| 0 <= i < ops_of(slot).len() ==> #[trigger] op_slot(ops_of(slot)[i]) is None
            || op_slot(ops_of(slot)[i]) == Some(slot),
{
}

/// With `n` frames in flight, the `n - 1` frames after a frame touch none of
/// its slot's objects, and the frame `n` later, which reuses the slot, waits
/// on the slot's fence exactly once before recording into its command buffer.
pub proof fn lemma_frames_in_flight_protocol(frame: int, n: int)
    requires
        frame >= 0,
        1 <= n <= usize::MAX,
    ensures
        forall|k: int, i: int|
            0 < k < n && 0 <= i < ops_of(slot_of(frame + k, n) as usize).len() ==> op_slot(
                #[trigger] ops_of(slot_of(frame + k, n) as usize)[i],
            ) != Some(slot_of(frame, n) as usize),
        slot_of(frame + n, n) == slot_of(frame, n),
        ops_of(slot_of(frame + n, n) as usize)[0] == GpuOp::WaitFence(slot_of(frame, n) as usize),
        forall|i: int|
            0 <= i < 7 && #[trigger] ops_of(slot_of(frame + n, n) as usize)[i] == GpuOp::WaitFence(
                slot_of(frame, n) as usize,
            ) ==> i == 0,
{
    lemma_slots_cycle(frame, n);
    assert forall|k: int, i: int|
        0 < k < n && 0 <= i < ops_of(slot_of(frame + k, n) as usize).len() implies op_slot(
            #[trigger] ops_of(slot_of(frame + k, n) as usize)[i],
        ) != Some(slot_of(frame, n) as usize) by {
        assert(frame + k >= 0);
        lemma_slots_cycle(frame + k, n);
        assert(slot_of(frame + k, n) != slot_of(frame, n));
        lemma_fence_waited_before_reuse(slot_of(frame + k, n) as usize);
        assert(op_slot(ops_of(slot_of(frame + k, n) as usize)[i]) is None || op_slot(
            ops_of(slot_of(frame + k, n) as usize)[i],
        ) == Some(slot_of(frame + k, n) as usize));
    }
    lemma_fence_waited_before_reuse(slot_of(frame, n) as usize);
}

/// How one `render` call moves the frame state, from between calls: a set
/// resize flag leaves the state as it was and asks for no image; a failed
/// acquisition ends the call with the counter unchanged and nothing drawn; a
/// drawn frame uses the current frame's slot and advances the counter by
/// one, whether or not presenting worked.
pub proof fn lemma_render_call(s: Renderer, present_ok: bool)
    requires
        s.wf(),
        s.phase == Phase::Idle,
        s.frame < u64::MAX,
    ensures
        next_state(s, FrameEvent::Start { resize_requested: true }) == s,
        action_of(s, FrameEvent::Start { resize_requested: true }) == FrameAction::RecreateAndClearResize,
        ({
            let a = next_state(s, FrameEvent::Start { resize_requested: false });
            &&& action_of(s, FrameEvent::Start { resize_requested: false }) == FrameAction::Acquire
            &&& action_of(a, FrameEvent::AcquireFailed) == FrameAction::RecreateAndSkip
            &&& next_state(a, FrameEvent::AcquireFailed) == s
        }),
        ({
            let a = next_state(s, FrameEvent::Start { resize_requested: false });
            let d = next_state(a, FrameEvent::Acquired);
            let e = next_state(d, FrameEvent::Presented { ok: present_ok });
            &&& action_of(a, FrameEvent::Acquired) == FrameAction::Draw {
                slot: slot_of(s.frame as int, s.frames_in_flight as int) as usize,
            }
            &&& action_of(d, FrameEvent::Presented { ok: present_ok }) == FrameAction::Finish {
                recreate: !present_ok,
            }
            &&& e.frame == s.frame + 1
            &&& e.frames_in_flight == s.frames_in_flight
            &&& e.phase == Phase::Idle
            &&& e.wf()
        }),
{
}

} // verus!
