//! Timeline sequencer: maps elapsed wall time to the active segment in an
//! ordered list of shader segments, looping at the end of the timeline, and
//! switches pipeline and binding layout at segment boundaries. A switch
//! whose source cannot be read or whose program does not compile is aborted,
//! leaving the previous segment's pipeline active.

use crate::layout::PipelineLayoutKind;
use crate::pipeline::CompileError;
use crate::pipeline::PipelineObject;
use crate::pipeline::PipelineRegistry;
use crate::pipeline::ProgramPair;
use crate::pipeline::compatible_spec;
use vstd::prelude::*;

verus! {

/// Parameter-block variant a segment declares for its shader.
#[derive(Clone, Copy, Debug, PartialEq, Eq, Structural)]
pub enum ParamsKind {
    Payme,
    Droste,
    Spiral,
    Voronoi,
    GaborNoise,
    Sinh,
}

/// Parameter block actually bound for a segment. Kinds without a block of
/// their own fall back to the standard block — an intentional
/// default-fallback policy, not an error.
#[derive(Clone, Copy, Debug, PartialEq, Eq, Structural)]
pub enum ParamsBinding {
    Payme,
    GaborNoise,
    Sinh,
}

/// The parameter block bound for each declared kind, with the explicit
/// fallback to the standard block for kinds that have none of their own.
pub open spec fn params_binding_spec(kind: ParamsKind) -> ParamsBinding {
    match kind {
        ParamsKind::GaborNoise => ParamsBinding::GaborNoise,
        ParamsKind::Sinh => ParamsBinding::Sinh,
        _ => ParamsBinding::Payme,
    }
}

/// Selects the parameter-block binding for a segment's declared kind.
pub fn params_binding_for(kind: ParamsKind) -> (b: ParamsBinding)
    ensures
        b == params_binding_spec(kind),
{
    match kind {
        ParamsKind::GaborNoise => ParamsBinding::GaborNoise,
        ParamsKind::Sinh => ParamsBinding::Sinh,
        _ => ParamsBinding::Payme,
    }
}

/// One timeline entry: a shader program source path, how long it plays, and
/// which layout and parameter-block variant its pipeline needs.
#[derive(Debug)]
pub struct ShaderSegment {
    pub path: String,
    pub duration_ms: u64,
    pub layout: PipelineLayoutKind,
    pub params_kind: ParamsKind,
}

/// Sum of the first `i` segment durations.
pub open spec fn cum_duration_spec(segs: Seq<ShaderSegment>, i: int) -> int
    decreases i,
{
    if i <= 0 {
        0
    } else {
        cum_duration_spec(segs, i - 1) + segs[i - 1].duration_ms
    }
}

/// Duration of the whole timeline.
pub open spec fn total_duration_spec(segs: Seq<ShaderSegment>) -> int {
    cum_duration_spec(segs, segs.len() as int)
}

/// First segment at or after `i` whose cumulative duration exceeds
/// `elapsed`; 0 when none does (the timeline loops).
pub open spec fn active_index_from_spec(segs: Seq<ShaderSegment>, elapsed: int, i: int) -> int
    decreases segs.len() - i,
{
    if i >= segs.len() {
        0
    } else if elapsed < cum_duration_spec(segs, i + 1) {
        i
    } else {
        active_index_from_spec(segs, elapsed, i + 1)
    }
}

/// The active segment for an elapsed time: the first segment whose
/// cumulative duration exceeds `elapsed`, wrapping to 0 past the end.
pub open spec fn active_index_spec(segs: Seq<ShaderSegment>, elapsed: int) -> int {
    active_index_from_spec(segs, elapsed, 0)
}

/// Cumulative durations never decrease along the timeline.
pub proof fn lemma_cum_monotone(segs: Seq<ShaderSegment>, i: int, j: int)
    requires
        0 <= i <= j,
    ensures
        cum_duration_spec(segs, i) <= cum_duration_spec(segs, j),
    decreases j - i,
{
    if i < j {
        lemma_cum_monotone(segs, i, j - 1);
    }
}

/// The active index is a real position of the list (or 0 for an empty one).
pub proof fn lemma_active_from_in_range(segs: Seq<ShaderSegment>, elapsed: int, i: int)
    requires
        0 <= i,
    ensures
        segs.len() == 0 ==> active_index_from_spec(segs, elapsed, i) == 0,
        segs.len() > 0 ==> 0 <= active_index_from_spec(segs, elapsed, i) < segs.len(),
    decreases segs.len() - i,
{
    if i >= segs.len() {
    } else if elapsed < cum_duration_spec(segs, i + 1) {
    } else {
        lemma_active_from_in_range(segs, elapsed, i + 1);
    }
}

/// Within one loop cycle the active segment is exactly the one whose
/// cumulative window contains `elapsed`.
pub proof fn lemma_active_from_window(segs: Seq<ShaderSegment>, elapsed: int, i: int)
    requires
        0 <= i <= segs.len(),
        cum_duration_spec(segs, i) <= elapsed < total_duration_spec(segs),
    ensures
        i <= active_index_from_spec(segs, elapsed, i) < segs.len(),
        cum_duration_spec(segs, active_index_from_spec(segs, elapsed, i)) <= elapsed,
        elapsed < cum_duration_spec(segs, active_index_from_spec(segs, elapsed, i) + 1),
    decreases segs.len() - i,
{
    if i >= segs.len() {
        assert(false);
    } else if elapsed < cum_duration_spec(segs, i + 1) {
    } else {
        lemma_active_from_window(segs, elapsed, i + 1);
    }
}

/// The window of the active segment contains `elapsed` whenever `elapsed`
/// lies inside the timeline.
pub proof fn lemma_active_window(segs: Seq<ShaderSegment>, elapsed: int)
    requires
        0 <= elapsed < total_duration_spec(segs),
    ensures
        0 <= active_index_spec(segs, elapsed) < segs.len(),
        cum_duration_spec(segs, active_index_spec(segs, elapsed)) <= elapsed,
        elapsed < cum_duration_spec(segs, active_index_spec(segs, elapsed) + 1),
{
    if segs.len() == 0 {
        assert(total_duration_spec(segs) == 0);
    }
    lemma_active_from_window(segs, elapsed, 0);
}

/// The timeline loops: at or past the total duration the active segment
/// wraps to index 0 — exactly at `elapsed == total`, not later.
pub proof fn lemma_active_wraps(segs: Seq<ShaderSegment>, elapsed: int)
    requires
        elapsed >= total_duration_spec(segs),
    ensures
        active_index_spec(segs, elapsed) == 0,
{
    lemma_active_from_wraps(segs, elapsed, 0);
}

proof fn lemma_active_from_wraps(segs: Seq<ShaderSegment>, elapsed: int, i: int)
    requires
        0 <= i,
        elapsed >= total_duration_spec(segs),
    ensures
        active_index_from_spec(segs, elapsed, i) == 0,
    decreases segs.len() - i,
{
    if i >= segs.len() {
    } else {
        lemma_cum_monotone(segs, i + 1, segs.len() as int);
        lemma_active_from_wraps(segs, elapsed, i + 1);
    }
}

/// Within one loop cycle the active index is monotonically non-decreasing
/// in elapsed time.
pub proof fn lemma_active_monotone(segs: Seq<ShaderSegment>, e1: int, e2: int)
    requires
        0 <= e1 <= e2 < total_duration_spec(segs),
    ensures
        active_index_spec(segs, e1) <= active_index_spec(segs, e2),
{
    let i1 = active_index_spec(segs, e1);
    let i2 = active_index_spec(segs, e2);
    lemma_active_window(segs, e1);
    lemma_active_window(segs, e2);
    if i1 > i2 {
        lemma_cum_monotone(segs, i2 + 1, i1);
        assert(false);
    }
}

/// A segment switch is aborted when the new segment's source cannot be read
/// at the boundary, or when the program it compiled to does not fit the
/// declared layout.
#[derive(Clone, Copy, Debug, PartialEq, Eq, Structural)]
pub enum SegmentSwitchError {
    /// The segment's program source could not be read from disk; the
    /// previous segment's pipeline remains active, and the sequencer does
    /// not retry until the next boundary crossing re-evaluates the index.
    SourceUnreadable,
    /// The program compiled from the source does not match the segment's
    /// declared layout; the previous pipeline remains active.
    CompileRejected(CompileError),
}

/// Maps elapsed wall time to the active shader segment and drives the
/// pipeline/layout switch at segment boundaries.
pub struct TimelineSequencer {
    pub segments: Vec<ShaderSegment>,
    pub current_index: usize,
}

impl TimelineSequencer {
    /// The whole timeline fits the counter, and the current index points at
    /// a real segment (0 for an empty timeline).
    pub open spec fn wf(self) -> bool {
        &&& total_duration_spec(self.segments@) <= u64::MAX
        &&& (self.segments@.len() == 0 ==> self.current_index == 0)
        &&& (self.segments@.len() > 0 ==> self.current_index < self.segments@.len())
    }

    /// A sequencer over a static segment list, starting at the first
    /// segment.
    pub fn create(segments: Vec<ShaderSegment>) -> (s: Self)
        requires
            total_duration_spec(segments@) <= u64::MAX,
        ensures
            s.wf(),
            s.segments@ == segments@,
            s.current_index == 0,
    {
        TimelineSequencer { segments, current_index: 0 }
    }

    /// The active segment for `elapsed_ms`: durations accumulate in list
    /// order; the first segment whose cumulative duration exceeds the
    /// elapsed time is active; past the total the timeline wraps to 0. The
    /// result depends on the segment list and the elapsed time alone, so
    /// repeated calls with one elapsed time agree.
    pub fn active_segment(&self, elapsed_ms: u64) -> (idx: usize)
        requires
            total_duration_spec(self.segments@) <= u64::MAX,
        ensures
            idx == active_index_spec(self.segments@, elapsed_ms as int),
            self.segments@.len() > 0 ==> idx < self.segments@.len(),
            self.segments@.len() == 0 ==> idx == 0,
    {
        proof {
            lemma_active_from_in_range(self.segments@, elapsed_ms as int, 0);
        }
        let n = self.segments.len();
        let mut t: u64 = 0;
        let mut i: usize = 0;
        while i < n
            invariant
                i <= n,
                n == self.segments@.len(),
                total_duration_spec(self.segments@) <= u64::MAX,
                t == cum_duration_spec(self.segments@, i as int),
                active_index_spec(self.segments@, elapsed_ms as int) == active_index_from_spec(
                    self.segments@,
                    elapsed_ms as int,
                    i as int,
                ),
            decreases n - i,
        {
            let d = self.segments[i].duration_ms;
            proof {
                assert(cum_duration_spec(self.segments@, i + 1) == t + d);
                lemma_cum_monotone(self.segments@, i + 1, n as int);
            }
            let t2 = t + d;
            if elapsed_ms < t2 {
                return i;
            }
            t = t2;
            i = i + 1;
        }
        0
    }

    /// Whether the boundary for `elapsed_ms` has been crossed: the index of
    /// the newly active segment when it differs from the current one.
    pub fn pending_switch(&self, elapsed_ms: u64) -> (r: Option<usize>)
        requires
            total_duration_spec(self.segments@) <= u64::MAX,
        ensures
            match r {
                Some(idx) => idx == active_index_spec(self.segments@, elapsed_ms as int) && idx
                    != self.current_index,
                None => active_index_spec(self.segments@, elapsed_ms as int)
                    == self.current_index,
            },
    {
        let idx = self.active_segment(elapsed_ms);
        if idx != self.current_index {
            Some(idx)
        } else {
            None
        }
    }

    /// Completes a boundary crossing to `new_index`: the segment's program
    /// source was read (or not) and compiled into `source`; the pipeline is
    /// rebuilt against the segment's declared layout kind. On any failure
    /// the switch is aborted: the current segment and the previously active
    /// pipeline stay exactly as they were.
    pub fn switch_segment(
        &mut self,
        registry: &mut PipelineRegistry,
        new_index: usize,
        source: Option<ProgramPair>,
    ) -> (r: Result<PipelineObject, SegmentSwitchError>)
        requires
            new_index < old(self).segments@.len(),
            old(registry).builds < u64::MAX,
        ensures
            final (self).segments@ == old(self).segments@,
            match r {
                Ok(p) => {
                    &&& source matches Some(pair)
                    &&& compatible_spec(
                        pair.wants@,
                        old(self).segments@[new_index as int].layout,
                    )
                    &&& p.layout == old(self).segments@[new_index as int].layout
                    &&& p.program_id == pair.program_id
                    &&& p.generation == old(registry).builds
                    &&& final (self).current_index == new_index
                    &&& final (registry).active == Some(p)
                    &&& final (registry).builds == old(registry).builds + 1
                },
                Err(SegmentSwitchError::SourceUnreadable) => {
                    &&& source is None
                    &&& final (self).current_index == old(self).current_index
                    &&& final (registry).active == old(registry).active
                    &&& final (registry).builds == old(registry).builds
                },
                Err(SegmentSwitchError::CompileRejected(_)) => {
                    &&& source matches Some(pair)
                    &&& !compatible_spec(
                        pair.wants@,
                        old(self).segments@[new_index as int].layout,
                    )
                    &&& final (self).current_index == old(self).current_index
                    &&& final (registry).active == old(registry).active
                    &&& final (registry).builds == old(registry).builds
                },
            },
    {
        match source {
            None => Err(SegmentSwitchError::SourceUnreadable),
            Some(pair) => {
                let kind = self.segments[new_index].layout;
                match registry.build(&pair, kind) {
                    Ok(p) => {
                        self.current_index = new_index;
                        Ok(p)
                    },
                    Err(e) => Err(SegmentSwitchError::CompileRejected(e)),
                }
            },
        }
    }
}

} // verus!
