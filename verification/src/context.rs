//! The render-loop context: the explicit owner of the per-frame mutable
//! state — current resolution, feedback pair and parity, and the per-pixel
//! accumulator — passed to every component call instead of process-wide
//! globals.

use crate::accum::AtomicAccumulationBuffer;
use crate::capture::row_stride_spec;
use crate::capture::padded_bytes_per_row;
use crate::feedback::FeedbackBufferManager;
use crate::feedback::next_parity_spec;
use crate::feedback::source_slot_spec;
use crate::feedback::target_slot_spec;
use vstd::prelude::*;

verus! {

/// The drawable surface size, in pixels.
#[derive(Clone, Copy, Debug, PartialEq, Eq, Structural)]
pub struct Resolution {
    pub width: u32,
    pub height: u32,
}

impl Resolution {
    /// A resolution frames can be rendered at and captures stripped from.
    pub open spec fn wf(self) -> bool {
        &&& self.width > 0
        &&& self.height > 0
        &&& 4 * self.width + 256 <= u32::MAX + 1
        &&& 4 * self.width * self.height <= usize::MAX
    }
}

/// What the render loop receives from the windowing layer each frame.
#[derive(Clone, Copy, Debug, PartialEq, Eq, Structural)]
pub struct FrameInput {
    pub elapsed_ms: u64,
    pub delta_ms: u64,
    pub resolution: Resolution,
    pub clear_requested: bool,
    pub export_requested: bool,
}

/// The dimensions and time an off-screen capture pass must render with.
#[derive(Clone, Copy, Debug, PartialEq, Eq, Structural)]
pub struct CapturePlan {
    pub width: u32,
    pub height: u32,
    pub timestamp_ms: u64,
    pub padded_bytes_per_row: u32,
}

/// Owns the frame-to-frame shared mutable state of the render loop: the
/// feedback parity counter and the accumulator's clear-before-use step are
/// mutated here and nowhere else.
pub struct RenderLoopContext {
    pub resolution: Resolution,
    pub feedback: FeedbackBufferManager,
    pub accum: AtomicAccumulationBuffer,
}

impl RenderLoopContext {
    /// Feedback pair and accumulator always match the current resolution.
    pub open spec fn wf(self) -> bool {
        &&& self.resolution.wf()
        &&& self.feedback.wf()
        &&& self.feedback.pair.width == self.resolution.width
        &&& self.feedback.pair.height == self.resolution.height
        &&& self.accum.wf()
        &&& self.accum.width == self.resolution.width
        &&& self.accum.height == self.resolution.height
    }

    /// Sets up the context for the initial resolution.
    pub fn create(resolution: Resolution, accum_multiples: u32) -> (ctx: Self)
        requires
            resolution.wf(),
            resolution.width * resolution.height * accum_multiples <= usize::MAX,
        ensures
            ctx.wf(),
            ctx.resolution == resolution,
            ctx.feedback.parity == 0,
            ctx.feedback.pair.generation == 0,
            ctx.accum.multiples == accum_multiples,
            ctx.accum.is_cleared(),
    {
        RenderLoopContext {
            resolution,
            feedback: FeedbackBufferManager::create(resolution.width, resolution.height),
            accum: AtomicAccumulationBuffer::create(
                resolution.width,
                resolution.height,
                accum_multiples,
            ),
        }
    }

    /// Applies the frame's input at the top of the frame: a resolution
    /// change or an explicit clear request tears down and rebuilds both the
    /// feedback pair and the accumulator for the new resolution (references
    /// into the old pair become stale); otherwise nothing is touched. The
    /// parity counter is never skipped or double-advanced here.
    pub fn apply_frame_input(&mut self, input: &FrameInput) -> (rebuilt: bool)
        requires
            old(self).wf(),
            input.resolution.wf(),
            input.resolution.width * input.resolution.height * old(self).accum.multiples
                <= usize::MAX,
            old(self).feedback.pair.generation < u64::MAX,
        ensures
            final (self).wf(),
            rebuilt == (input.resolution != old(self).resolution || input.clear_requested),
            final (self).resolution == input.resolution,
            final (self).feedback.parity == old(self).feedback.parity,
            final (self).accum.multiples == old(self).accum.multiples,
            rebuilt ==> {
                &&& final (self).feedback.pair.generation == old(
                    self,
                ).feedback.pair.generation + 1
                &&& final (self).feedback.pair.width == input.resolution.width
                &&& final (self).feedback.pair.height == input.resolution.height
                &&& final (self).accum.is_cleared()
            },
            !rebuilt ==> {
                &&& final (self).feedback == old(self).feedback
                &&& final (self).accum.data@ == old(self).accum.data@
            },
    {
        let need = input.resolution != self.resolution || input.clear_requested;
        if need {
            self.feedback.reset(input.resolution.width, input.resolution.height);
            let multiples = self.accum.multiples;
            self.accum = AtomicAccumulationBuffer::create(
                input.resolution.width,
                input.resolution.height,
                multiples,
            );
            self.resolution = input.resolution;
            true
        } else {
            false
        }
    }

    /// Prepares one render pass that may write into the accumulator: zeroes
    /// the full buffer extent immediately beforehand and picks the feedback
    /// slots, which are never the same resource within the pass.
    pub fn prepare_pass(&mut self) -> (slots: (usize, usize))
        requires
            old(self).wf(),
        ensures
            final (self).wf(),
            final (self).resolution == old(self).resolution,
            final (self).feedback == old(self).feedback,
            final (self).accum.is_cleared(),
            final (self).accum.multiples == old(self).accum.multiples,
            slots.0 == source_slot_spec(old(self).feedback.parity),
            slots.1 == target_slot_spec(old(self).feedback.parity),
            slots.0 != slots.1,
    {
        self.accum.clear();
        self.feedback.swap()
    }

    /// Ends the rendered frame: the parity counter advances exactly once,
    /// and nothing else changes.
    pub fn end_frame(&mut self)
        ensures
            final (self).resolution == old(self).resolution,
            final (self).feedback.parity == next_parity_spec(old(self).feedback.parity),
            final (self).feedback.pair == old(self).feedback.pair,
            final (self).accum.data@ == old(self).accum.data@,
            final (self).accum.width == old(self).accum.width,
            final (self).accum.height == old(self).accum.height,
            final (self).accum.multiples == old(self).accum.multiples,
    {
        self.feedback.advance_frame();
    }

    /// Plans an off-screen capture at the context's *current* resolution: a
    /// capture requested right after a resize uses the new dimensions, never
    /// the old ones.
    pub fn plan_capture(&self, timestamp_ms: u64) -> (plan: CapturePlan)
        requires
            self.wf(),
        ensures
            plan.width == self.resolution.width,
            plan.height == self.resolution.height,
            plan.timestamp_ms == timestamp_ms,
            plan.padded_bytes_per_row == row_stride_spec(self.resolution.width as int),
    {
        CapturePlan {
            width: self.resolution.width,
            height: self.resolution.height,
            timestamp_ms,
            padded_bytes_per_row: padded_bytes_per_row(self.resolution.width),
        }
    }
}

} // verus!
