use renderflow::layout::PipelineLayoutKind;
use renderflow::pipeline::PipelineRegistry;
use renderflow::pipeline::ProgramPair;
use renderflow::sequencer::ParamsBinding;
use renderflow::sequencer::ParamsKind;
use renderflow::sequencer::SegmentSwitchError;
use renderflow::sequencer::ShaderSegment;
use renderflow::sequencer::TimelineSequencer;
use renderflow::sequencer::params_binding_for;

fn segment(path: &str, duration_ms: u64, layout: PipelineLayoutKind, params: ParamsKind) -> ShaderSegment {
    ShaderSegment { path: path.to_string(), duration_ms, layout, params_kind: params }
}

fn three_segments() -> Vec<ShaderSegment> {
    vec![
        segment("a", 4000, PipelineLayoutKind::Texture, ParamsKind::Payme),
        segment("b", 4000, PipelineLayoutKind::Texture, ParamsKind::Droste),
        segment("c", 4000, PipelineLayoutKind::Buffer, ParamsKind::Sinh),
    ]
}

#[test]
fn active_segment_example_timeline() {
    let s = TimelineSequencer::create(three_segments());
    // cumulative 4000, 8000, 12000; 9.5 s lies in the third segment
    assert_eq!(s.active_segment(9500), 2);
    assert_eq!(s.active_segment(0), 0);
    assert_eq!(s.active_segment(3999), 0);
    assert_eq!(s.active_segment(4000), 1);
    assert_eq!(s.active_segment(7999), 1);
    assert_eq!(s.active_segment(8000), 2);
    assert_eq!(s.active_segment(11999), 2);
}

#[test]
fn active_segment_wraps_exactly_at_total() {
    let s = TimelineSequencer::create(three_segments());
    assert_eq!(s.active_segment(12000), 0);
    assert_eq!(s.active_segment(12001), 0);
    assert_eq!(s.active_segment(u64::MAX), 0);
}

#[test]
fn active_segment_idempotent_and_monotone() {
    let s = TimelineSequencer::create(three_segments());
    for e in [0u64, 1, 3999, 4000, 9500, 11999] {
        assert_eq!(s.active_segment(e), s.active_segment(e));
    }
    let mut last = 0usize;
    for e in 0..12000u64 {
        let idx = s.active_segment(e);
        assert!(idx >= last, "index decreased within one loop cycle");
        last = idx;
    }
}

#[test]
fn active_segment_empty_timeline() {
    let s = TimelineSequencer::create(Vec::new());
    assert_eq!(s.active_segment(0), 0);
    assert_eq!(s.active_segment(12345), 0);
}

#[test]
fn active_segment_skips_zero_duration() {
    let s = TimelineSequencer::create(vec![
        segment("empty", 0, PipelineLayoutKind::Texture, ParamsKind::Payme),
        segment("b", 5000, PipelineLayoutKind::Texture, ParamsKind::Payme),
    ]);
    assert_eq!(s.active_segment(0), 1);
    assert_eq!(s.active_segment(4999), 1);
    assert_eq!(s.active_segment(5000), 0);
}

#[test]
fn params_binding_fallback_policy() {
    assert_eq!(params_binding_for(ParamsKind::Payme), ParamsBinding::Payme);
    assert_eq!(params_binding_for(ParamsKind::GaborNoise), ParamsBinding::GaborNoise);
    assert_eq!(params_binding_for(ParamsKind::Sinh), ParamsBinding::Sinh);
    // kinds without a block of their own fall back to the standard block
    assert_eq!(params_binding_for(ParamsKind::Droste), ParamsBinding::Payme);
    assert_eq!(params_binding_for(ParamsKind::Spiral), ParamsBinding::Payme);
    assert_eq!(params_binding_for(ParamsKind::Voronoi), ParamsBinding::Payme);
}

#[test]
fn switch_aborts_when_source_unreadable() {
    let mut s = TimelineSequencer::create(three_segments());
    let mut reg = PipelineRegistry::create();
    let good = ProgramPair { program_id: 1, wants: renderflow::layout::pipeline_groups(PipelineLayoutKind::Texture) };
    s.switch_segment(&mut reg, 1, Some(good)).unwrap();
    assert_eq!(s.current_index, 1);
    let active_before = reg.active;
    let r = s.switch_segment(&mut reg, 2, None);
    assert_eq!(r.unwrap_err(), SegmentSwitchError::SourceUnreadable);
    assert_eq!(s.current_index, 1);
    assert_eq!(reg.active, active_before);
}

#[test]
fn switch_aborts_when_program_rejected() {
    let mut s = TimelineSequencer::create(three_segments());
    let mut reg = PipelineRegistry::create();
    let good = ProgramPair { program_id: 1, wants: renderflow::layout::pipeline_groups(PipelineLayoutKind::Texture) };
    s.switch_segment(&mut reg, 1, Some(good)).unwrap();
    let active_before = reg.active;
    // segment 2 declares the Buffer layout; hand it a Texture-shaped program
    let bad = ProgramPair { program_id: 2, wants: renderflow::layout::pipeline_groups(PipelineLayoutKind::Texture) };
    let r = s.switch_segment(&mut reg, 2, Some(bad));
    assert!(matches!(r, Err(SegmentSwitchError::CompileRejected(_))));
    assert_eq!(s.current_index, 1);
    assert_eq!(reg.active, active_before);
}

#[test]
fn switch_installs_matching_program() {
    let mut s = TimelineSequencer::create(three_segments());
    let mut reg = PipelineRegistry::create();
    let pair = ProgramPair { program_id: 7, wants: renderflow::layout::pipeline_groups(PipelineLayoutKind::Buffer) };
    let p = s.switch_segment(&mut reg, 2, Some(pair)).unwrap();
    assert_eq!(s.current_index, 2);
    assert_eq!(p.program_id, 7);
    assert_eq!(p.layout, PipelineLayoutKind::Buffer);
    assert_eq!(reg.active, Some(p));
}
