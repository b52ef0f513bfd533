use renderflow::accum::AtomicAccumulationBuffer;
use renderflow::context::FrameInput;
use renderflow::context::RenderLoopContext;
use renderflow::context::Resolution;
use renderflow::export::CaptureRequest;
use renderflow::export::ExportSession;
use renderflow::export::ExportSettings;

#[test]
fn cleared_accumulator_reads_zero_everywhere() {
    let mut b = AtomicAccumulationBuffer::create(8, 4, 3);
    assert_eq!(b.len(), 8 * 4 * 3);
    // a pass wrote into the accumulator
    b.data[0] = 17;
    b.data[50] = 1;
    let last = b.len() - 1;
    b.data[last] = 9;
    // clear before the next pass: a read-before-write pass sees only zeroes
    b.clear();
    for i in 0..b.len() {
        assert_eq!(b.read(i), 0);
    }
}

#[test]
fn accumulator_is_recreated_for_new_resolution() {
    let b = AtomicAccumulationBuffer::create(800, 600, 1);
    assert_eq!(b.len(), 800 * 600);
    let b2 = AtomicAccumulationBuffer::create(1920, 1080, 1);
    assert_eq!(b2.len(), 1920 * 1080);
    for i in [0usize, 123, 1920 * 1080 - 1] {
        assert_eq!(b2.read(i), 0);
    }
}

fn input(res: Resolution, clear: bool) -> FrameInput {
    FrameInput {
        elapsed_ms: 0,
        delta_ms: 16,
        resolution: res,
        clear_requested: clear,
        export_requested: false,
    }
}

#[test]
fn resize_rebuilds_pair_and_capture_uses_new_dimensions() {
    let small = Resolution { width: 800, height: 600 };
    let large = Resolution { width: 1920, height: 1080 };
    let mut ctx = RenderLoopContext::create(small, 1);
    let generation_before = ctx.feedback.pair.generation;

    // resize from 800x600 to 1920x1080 triggers a feedback-pair rebuild
    let rebuilt = ctx.apply_frame_input(&input(large, false));
    assert!(rebuilt);
    assert_eq!(ctx.feedback.pair.generation, generation_before + 1);
    assert_eq!(ctx.feedback.pair.width, 1920);
    assert_eq!(ctx.feedback.pair.height, 1080);

    // a capture requested immediately after must use the new dimensions
    let plan = ctx.plan_capture(5000);
    assert_eq!((plan.width, plan.height), (1920, 1080));
    assert_eq!(plan.padded_bytes_per_row, 7680);
    assert_eq!(plan.timestamp_ms, 5000);
}

#[test]
fn unchanged_input_rebuilds_nothing() {
    let res = Resolution { width: 800, height: 600 };
    let mut ctx = RenderLoopContext::create(res, 1);
    let generation_before = ctx.feedback.pair.generation;
    let rebuilt = ctx.apply_frame_input(&input(res, false));
    assert!(!rebuilt);
    assert_eq!(ctx.feedback.pair.generation, generation_before);
}

#[test]
fn explicit_clear_rebuilds_at_same_resolution() {
    let res = Resolution { width: 800, height: 600 };
    let mut ctx = RenderLoopContext::create(res, 1);
    let generation_before = ctx.feedback.pair.generation;
    let rebuilt = ctx.apply_frame_input(&input(res, true));
    assert!(rebuilt);
    assert_eq!(ctx.feedback.pair.generation, generation_before + 1);
    assert_eq!(ctx.feedback.pair.width, 800);
}

#[test]
fn frame_advances_parity_exactly_once() {
    let res = Resolution { width: 64, height: 64 };
    let mut ctx = RenderLoopContext::create(res, 1);
    let p0 = ctx.feedback.parity;
    ctx.apply_frame_input(&input(res, false));
    let (s, t) = ctx.prepare_pass();
    assert_ne!(s, t);
    let (s2, t2) = ctx.prepare_pass();
    // passes within one frame see the same slots
    assert_eq!((s, t), (s2, t2));
    ctx.end_frame();
    assert_eq!(ctx.feedback.parity, p0 + 1);
}

#[test]
fn export_session_hands_out_each_frame_once() {
    let settings = ExportSettings { width: 801, height: 600, fps: 30, total_frames: 3 };
    let mut s = ExportSession::begin(settings);
    assert!(s.is_exporting());
    let r0 = s.try_get_next_frame().unwrap();
    assert_eq!(r0, CaptureRequest { frame_index: 0, timestamp_ms: 0 });
    let r1 = s.try_get_next_frame().unwrap();
    assert_eq!(r1.frame_index, 1);
    assert_eq!(r1.timestamp_ms, 1000 / 30);
    let r2 = s.try_get_next_frame().unwrap();
    assert_eq!(r2.frame_index, 2);
    assert_eq!(r2.timestamp_ms, 2000 / 30);
    assert!(s.try_get_next_frame().is_none());
    assert!(s.try_get_next_frame().is_none());
    s.complete_export();
    assert!(!s.is_exporting());
}

#[test]
fn export_timestamps_follow_frame_rate() {
    let settings = ExportSettings { width: 64, height: 64, fps: 60, total_frames: 61 };
    let mut s = ExportSession::begin(settings);
    let mut last = None;
    for i in 0..61u32 {
        let req = s.try_get_next_frame().unwrap();
        assert_eq!(req.frame_index, i);
        assert_eq!(req.timestamp_ms, (i as u64) * 1000 / 60);
        if let Some(prev) = last {
            assert!(req.timestamp_ms >= prev);
        }
        last = Some(req.timestamp_ms);
    }
    assert_eq!(last, Some(1000));
    assert!(s.try_get_next_frame().is_none());
}
