use renderflow::feedback::FeedbackBufferManager;
use renderflow::feedback::FeedbackPair;

#[test]
fn parity_alternates_over_frames() {
    let mut m = FeedbackBufferManager::create(800, 600);
    // parity 0: source is slot B (1), target is slot A (0)
    let mut prev_target;
    let (s, t) = m.swap();
    assert_eq!((s, t), (1, 0));
    prev_target = t;
    for _ in 0..16 {
        m.advance_frame();
        let (s, t) = m.swap();
        // this frame reads what the previous frame wrote
        assert_eq!(s, prev_target);
        // source and target are never the same resource in one pass
        assert_ne!(s, t);
        prev_target = t;
    }
}

#[test]
fn parity_alternates_across_wraparound() {
    let mut m = FeedbackBufferManager {
        pair: FeedbackPair { width: 16, height: 16, generation: 0 },
        parity: u32::MAX,
    };
    let (s_last, t_last) = m.swap();
    // u32::MAX is odd: source is slot A (0)
    assert_eq!((s_last, t_last), (0, 1));
    m.advance_frame();
    assert_eq!(m.parity, 0);
    let (s0, t0) = m.swap();
    assert_eq!(s0, t_last);
    assert_ne!(s0, t0);
}

#[test]
fn reset_rebuilds_pair_and_keeps_parity() {
    let mut m = FeedbackBufferManager::create(800, 600);
    m.advance_frame();
    m.advance_frame();
    m.advance_frame();
    let parity_before = m.parity;
    let generation_before = m.pair.generation;
    m.reset(1024, 768);
    assert_eq!(m.pair.width, 1024);
    assert_eq!(m.pair.height, 768);
    assert_eq!(m.pair.generation, generation_before + 1);
    assert_eq!(m.parity, parity_before);
}
