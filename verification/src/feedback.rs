//! Ping-pong feedback buffers: a pair of same-sized image slots alternating
//! between source and target each frame, selected by a parity counter, and
//! rebuilt wholesale on resize or on an explicit clear request.

use vstd::prelude::*;

verus! {

/// Slot (0 or 1) read from during the pass with the given parity.
pub open spec fn source_slot_spec(parity: u32) -> int {
    if parity % 2 == 0 {
        1
    } else {
        0
    }
}

/// Slot (0 or 1) written to during the pass with the given parity.
pub open spec fn target_slot_spec(parity: u32) -> int {
    1 - source_slot_spec(parity)
}

/// The parity counter after one more rendered frame (monotonic, wraps).
pub open spec fn next_parity_spec(parity: u32) -> u32 {
    if parity == u32::MAX {
        0
    } else {
        (parity + 1) as u32
    }
}

/// Two image slots of identical dimensions with their binding sets. The
/// `generation` counter rises every time the pair is rebuilt, so references
/// into an earlier pair are recognizably stale.
#[derive(Clone, Copy, Debug, PartialEq, Eq, Structural)]
pub struct FeedbackPair {
    pub width: u32,
    pub height: u32,
    pub generation: u64,
}

impl FeedbackPair {
    /// A pair is well formed when its images are not empty.
    pub open spec fn wf(self) -> bool {
        self.width > 0 && self.height > 0
    }
}

/// Owns the feedback pair and the parity counter that alternates which slot
/// is source and which is target.
#[derive(Clone, Copy, Debug, PartialEq, Eq, Structural)]
pub struct FeedbackBufferManager {
    pub pair: FeedbackPair,
    pub parity: u32,
}

impl FeedbackBufferManager {
    pub open spec fn wf(self) -> bool {
        self.pair.wf()
    }

    /// Allocates a fresh pair of image slots for the given resolution.
    pub fn create(width: u32, height: u32) -> (m: Self)
        requires
            width > 0,
            height > 0,
        ensures
            m.wf(),
            m.pair.width == width,
            m.pair.height == height,
            m.pair.generation == 0,
            m.parity == 0,
    {
        FeedbackBufferManager {
            pair: FeedbackPair { width, height, generation: 0 },
            parity: 0,
        }
    }

    /// Slots to read from and write to for the current frame's pass. The two
    /// are never the same resource within one pass.
    pub fn swap(&self) -> (r: (usize, usize))
        ensures
            r.0 == source_slot_spec(self.parity),
            r.1 == target_slot_spec(self.parity),
            r.0 != r.1,
            r.0 < 2,
            r.1 < 2,
    {
        if self.parity % 2 == 0 {
            (1, 0)
        } else {
            (0, 1)
        }
    }

    /// Advances the parity counter: exactly once per rendered frame, no
    /// skipping and no double increment, wrapping at the counter's limit.
    pub fn advance_frame(&mut self)
        ensures
            final (self).parity == next_parity_spec(old(self).parity),
            final (self).pair == old(self).pair,
    {
        self.parity = self.parity.wrapping_add(1);
    }

    /// Rebuilds the pair for a new resolution or an explicit clear request.
    /// All references into the old pair become stale: the generation rises.
    /// The parity counter is untouched, so the frame cadence is preserved.
    pub fn reset(&mut self, width: u32, height: u32)
        requires
            width > 0,
            height > 0,
            old(self).pair.generation < u64::MAX,
        ensures
            final (self).wf(),
            final (self).pair.width == width,
            final (self).pair.height == height,
            final (self).pair.generation == old(self).pair.generation + 1,
            final (self).parity == old(self).parity,
    {
        self.pair = FeedbackPair {
            width,
            height,
            generation: self.pair.generation + 1,
        };
    }
}

/// The feedback-pair parity alternates strictly: the slot read in the frame
/// after parity `p` is the slot written at parity `p`, and within any one
/// frame the source and target slots differ.
pub proof fn lemma_parity_alternates(parity: u32)
    ensures
        source_slot_spec(next_parity_spec(parity)) == target_slot_spec(parity),
        source_slot_spec(parity) != target_slot_spec(parity),
{
}

/// The parity counter after `frames` rendered frames.
pub open spec fn parity_after_spec(start: u32, frames: nat) -> u32
    decreases frames,
{
    if frames == 0 {
        start
    } else {
        next_parity_spec(parity_after_spec(start, (frames - 1) as nat))
    }
}

/// For every frame count, frame `n` reads the slot frame `n - 1` wrote, and
/// never the slot it writes itself.
pub proof fn lemma_parity_alternates_over_frames(start: u32, frames: nat)
    requires
        frames > 0,
    ensures
        source_slot_spec(parity_after_spec(start, frames)) == target_slot_spec(
            parity_after_spec(start, (frames - 1) as nat),
        ),
        source_slot_spec(parity_after_spec(start, frames)) != target_slot_spec(
            parity_after_spec(start, frames),
        ),
{
    lemma_parity_alternates(parity_after_spec(start, (frames - 1) as nat));
}

} // verus!
