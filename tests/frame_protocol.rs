use gfx_triangle::renderer::{
    frame_ops, FrameAction, FrameEvent, GpuOp, Phase, Renderer, INSTANCES_PER_DRAW,
    VERTICES_PER_DRAW,
};

/// Runs one drawing frame through the state machine, returning the slot drawn in.
fn draw_frame(r: &mut Renderer, present_ok: bool) -> usize {
    assert_eq!(r.step(FrameEvent::Start { resize_requested: false }), FrameAction::Acquire);
    let slot = match r.step(FrameEvent::Acquired) {
        FrameAction::Draw { slot } => slot,
        other => panic!("expected a draw, got {:?}", other),
    };
    assert_eq!(
        r.step(FrameEvent::Presented { ok: present_ok }),
        FrameAction::Finish { recreate: !present_ok }
    );
    slot
}

#[test]
fn five_frames_two_in_flight() {
    let mut r = Renderer::new(2);
    let mut submissions = 0;
    let mut slots = Vec::new();
    for _ in 0..5 {
        let slot = draw_frame(&mut r, true);
        let ops = frame_ops(slot);
        submissions += ops.iter().filter(|op| **op == GpuOp::Submit(slot)).count();
        slots.push(slot);
    }
    assert_eq!(submissions, 5);
    assert_eq!(VERTICES_PER_DRAW, 3);
    assert_eq!(INSTANCES_PER_DRAW, 1);
    assert_eq!(r.frame, 5);
    assert_eq!(r.phase, Phase::Idle);
    assert_eq!(slots, vec![0, 1, 0, 1, 0]);
}

#[test]
fn every_fence_is_waited_before_its_slot_is_recorded() {
    for slot in 0..3 {
        let ops = frame_ops(slot);
        let waits: Vec<usize> = (0..ops.len()).filter(|&i| ops[i] == GpuOp::WaitFence(slot)).collect();
        let record = ops.iter().position(|op| *op == GpuOp::Record(slot)).unwrap();
        let submit = ops.iter().position(|op| *op == GpuOp::Submit(slot)).unwrap();
        assert_eq!(waits.len(), 1);
        assert!(waits[0] < record);
        assert!(record < submit);
    }
}

#[test]
fn frame_ops_exact_sequence() {
    assert_eq!(
        frame_ops(1),
        vec![
            GpuOp::WaitFence(1),
            GpuOp::ResetFence(1),
            GpuOp::ResetCommandBuffer(1),
            GpuOp::UploadUniform,
            GpuOp::Record(1),
            GpuOp::Submit(1),
            GpuOp::Present(1),
        ]
    );
}

#[test]
fn slots_cycle_three_in_flight() {
    let mut r = Renderer::new(3);
    let slots: Vec<usize> = (0..7).map(|_| draw_frame(&mut r, true)).collect();
    assert_eq!(slots, vec![0, 1, 2, 0, 1, 2, 0]);
    assert_eq!(r.frame_index(), 1);
}

#[test]
fn single_frame_in_flight_always_slot_zero() {
    let mut r = Renderer::new(1);
    for _ in 0..4 {
        assert_eq!(draw_frame(&mut r, true), 0);
    }
    assert_eq!(r.frame, 4);
}

#[test]
fn resize_flag_skips_frame() {
    let mut r = Renderer::new(2);
    draw_frame(&mut r, true);
    let before = r.frame;
    assert_eq!(
        r.step(FrameEvent::Start { resize_requested: true }),
        FrameAction::RecreateAndClearResize
    );
    assert_eq!(r.frame, before);
    assert_eq!(r.phase, Phase::Idle);
    // The next call proceeds to acquisition as usual.
    assert_eq!(r.step(FrameEvent::Start { resize_requested: false }), FrameAction::Acquire);
}

#[test]
fn acquire_failure_recreates_and_returns() {
    let mut r = Renderer::new(2);
    assert_eq!(r.step(FrameEvent::Start { resize_requested: false }), FrameAction::Acquire);
    assert_eq!(r.step(FrameEvent::AcquireFailed), FrameAction::RecreateAndSkip);
    assert_eq!(r.frame, 0);
    assert_eq!(r.phase, Phase::Idle);
}

#[test]
fn present_failure_recreates_and_still_counts_frame() {
    let mut r = Renderer::new(2);
    assert_eq!(draw_frame(&mut r, false), 0);
    assert_eq!(r.frame, 1);
    assert_eq!(draw_frame(&mut r, true), 1);
}
