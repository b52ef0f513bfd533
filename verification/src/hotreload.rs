//! Hot reload of shader programs without stalling the render loop: a
//! four-state machine that polls source modification times once per frame,
//! recompiles when a watched path advanced, and publishes the replacement
//! for the next frame. Pipelines are never partially migrated.

use crate::pipeline::CompileError;
use crate::pipeline::PipelineObject;
use vstd::prelude::*;

verus! {

/// Where the watcher stands within one frame.
#[derive(Clone, Copy, Debug, PartialEq, Eq, Structural)]
pub enum WatcherState {
    /// Nothing in flight.
    Idle,
    /// Reading modification timestamps of all watched source paths.
    Checking,
    /// At least one watched path advanced; a recompile is running.
    Recompiling,
    /// The new program pair compiled; the render loop consumes it at the
    /// top of the next frame.
    Published,
}

/// Some watched path's timestamp advanced past what was last seen.
pub open spec fn any_advanced_spec(last_seen: Seq<u64>, stamps: Seq<u64>) -> bool {
    exists|i: int| 0 <= i < stamps.len() && stamps[i] > last_seen[i]
}

/// Polls source file modification times and drives recompilation. One
/// timestamp is remembered per watched path, in a fixed order.
pub struct HotReloadWatcher {
    pub state: WatcherState,
    pub last_seen: Vec<u64>,
}

impl HotReloadWatcher {
    /// Starts watching with the timestamps read at startup.
    pub fn create(initial: Vec<u64>) -> (w: Self)
        ensures
            w.state is Idle,
            w.last_seen@ == initial@,
    {
        HotReloadWatcher { state: WatcherState::Idle, last_seen: initial }
    }

    /// Once per frame, non-blocking: begin reading modification timestamps.
    pub fn begin_check(&mut self)
        requires
            old(self).state is Idle,
        ensures
            final (self).state is Checking,
            final (self).last_seen@ == old(self).last_seen@,
    {
        self.state = WatcherState::Checking;
    }

    /// Decides on the freshly read timestamps: if no path changed since the
    /// last check, back to `Idle`; if at least one advanced, remember the
    /// new timestamps and move to `Recompiling`.
    pub fn observe(&mut self, stamps: &Vec<u64>)
        requires
            old(self).state is Checking,
            stamps@.len() == old(self).last_seen@.len(),
        ensures
            any_advanced_spec(old(self).last_seen@, stamps@) ==> final (self).state
                is Recompiling && final (self).last_seen@ == stamps@,
            !any_advanced_spec(old(self).last_seen@, stamps@) ==> final (self).state is Idle
                && final (self).last_seen@ == old(self).last_seen@,
    {
        let n = stamps.len();
        let mut changed = false;
        let mut i: usize = 0;
        while i < n
            invariant
                i <= n,
                n == stamps@.len(),
                self.last_seen@.len() == n,
                self.last_seen@ == old(self).last_seen@,
                self.state == old(self).state,
                changed == exists|j: int|
                    0 <= j < i && stamps@[j] > self.last_seen@[j],
            decreases n - i,
        {
            if stamps[i] > self.last_seen[i] {
                changed = true;
                assert(stamps@[i as int] > self.last_seen@[i as int]);
            }
            i = i + 1;
        }
        if changed {
            let mut seen: Vec<u64> = Vec::new();
            let mut k: usize = 0;
            while k < n
                invariant
                    k <= n,
                    n == stamps@.len(),
                    seen@.len() == k,
                    forall|j: int| 0 <= j < k ==> seen@[j] == stamps@[j],
                decreases n - k,
            {
                seen.push(stamps[k]);
                k = k + 1;
            }
            proof {
                assert(seen@ =~= stamps@);
            }
            self.last_seen = seen;
            self.state = WatcherState::Recompiling;
        } else {
            self.state = WatcherState::Idle;
        }
    }

    /// Ends a recompilation: on success the replacement is published for the
    /// next frame; on a compile failure the previous programs stay active
    /// and the watcher goes back to polling — never terminating the process.
    pub fn finish_recompile(&mut self, success: bool)
        requires
            old(self).state is Recompiling,
        ensures
            success ==> final (self).state is Published,
            !success ==> final (self).state is Idle,
            final (self).last_seen@ == old(self).last_seen@,
    {
        if success {
            self.state = WatcherState::Published;
        } else {
            self.state = WatcherState::Idle;
        }
    }

    /// The render loop consumes the published replacement at the top of the
    /// next frame, so a frame in flight is never torn.
    pub fn acknowledge_published(&mut self)
        requires
            old(self).state is Published,
        ensures
            final (self).state is Idle,
            final (self).last_seen@ == old(self).last_seen@,
    {
        self.state = WatcherState::Idle;
    }
}

/// Swaps a full set of rebuilt pipelines in, all or nothing: when every
/// dependent pipeline rebuilt, each slot is replaced by its rebuilt object;
/// when even one rebuild failed, the entire reload is aborted and every
/// prior pipeline remains active. Returns whether the reload was applied.
pub fn apply_reload(
    active: &mut Vec<PipelineObject>,
    rebuilt: &Vec<Result<PipelineObject, CompileError>>,
) -> (applied: bool)
    requires
        rebuilt@.len() == old(active)@.len(),
    ensures
        applied == (forall|i: int| 0 <= i < rebuilt@.len() ==> (#[trigger] rebuilt@[i]) matches Ok(_)),
        applied ==> final (active)@.len() == old(active)@.len() && (forall|i: int|
            0 <= i < rebuilt@.len() ==> ((#[trigger] rebuilt@[i]) matches Ok(p) ==> final (
            active)@[i] == p)),
        !applied ==> final (active)@ == old(active)@,
{
    let n = rebuilt.len();
    let mut all_ok = true;
    let mut i: usize = 0;
    while i < n
        invariant
            i <= n,
            n == rebuilt@.len(),
            all_ok == (forall|j: int| 0 <= j < i ==> (#[trigger] rebuilt@[j]) matches Ok(_)),
        decreases n - i,
    {
        if rebuilt[i].is_err() {
            all_ok = false;
        }
        i = i + 1;
    }
    if all_ok {
        let mut k: usize = 0;
        while k < n
            invariant
                k <= n,
                n == rebuilt@.len(),
                active@.len() == n,
                forall|j: int| 0 <= j < n ==> (#[trigger] rebuilt@[j]) matches Ok(_),
                forall|j: int|
                    0 <= j < k ==> ((#[trigger] rebuilt@[j]) matches Ok(p) ==> active@[j] == p),
            decreases n - k,
        {
            match rebuilt[k] {
                Ok(p) => {
                    active.set(k, p);
                },
                Err(_) => {
                    proof {
                        assert(rebuilt@[k as int] matches Ok(_));
                    }
                },
            }
            k = k + 1;
        }
        true
    } else {
        false
    }
}

} // verus!
