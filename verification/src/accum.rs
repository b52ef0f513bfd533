//! Per-pixel GPU accumulation buffer, modelled by its host-visible contents:
//! sized from the current resolution, zero-filled before every pass that
//! writes into it, and recreated (never resized in place) on resolution
//! changes.

use vstd::prelude::*;

verus! {

/// A per-pixel accumulator with `width * height * multiples` elements. The
/// `data` vector models what a read-before-write pass would observe in the
/// device buffer.
pub struct AtomicAccumulationBuffer {
    pub width: u32,
    pub height: u32,
    pub multiples: u32,
    pub data: Vec<u32>,
}

impl AtomicAccumulationBuffer {
    /// Capacity matches the resolution it was created for.
    pub open spec fn wf(self) -> bool {
        self.data@.len() == self.width * self.height * self.multiples
    }

    /// Every element holds zero: the only valid state at start of a pass.
    pub open spec fn is_cleared(self) -> bool {
        forall|i: int| 0 <= i < self.data@.len() ==> self.data@[i] == 0
    }

    /// Creates a zero-filled accumulator for the given resolution. A
    /// resolution change must come back through here: the buffer is
    /// recreated, not resized in place.
    pub fn create(width: u32, height: u32, multiples: u32) -> (b: Self)
        requires
            width * height * multiples <= usize::MAX,
        ensures
            b.wf(),
            b.is_cleared(),
            b.width == width,
            b.height == height,
            b.multiples == multiples,
    {
        let ghost target: int = (width as int) * height * multiples;
        assert((width as int) * (height as int) < 18446744073709551616) by (nonlinear_arith)
            requires
                0 <= width <= 4294967295,
                0 <= height <= 4294967295,
        ;
        let wh: u64 = (width as u64) * (height as u64);
        let n64: u64 = wh * (multiples as u64);
        let n: usize = n64 as usize;
        assert(n == target);
        let mut data: Vec<u32> = Vec::new();
        let mut i: usize = 0;
        while i < n
            invariant
                i <= n,
                n == target,
                data@.len() == i,
                forall|k: int| 0 <= k < i ==> data@[k] == 0,
            decreases n - i,
        {
            data.push(0);
            i = i + 1;
        }
        AtomicAccumulationBuffer { width, height, multiples, data }
    }

    /// Zero-fills the whole buffer extent. Required immediately before every
    /// pass that may write into the buffer; accumulated values never persist
    /// across frames.
    pub fn clear(&mut self)
        ensures
            final (self).wf() == old(self).wf(),
            final (self).is_cleared(),
            final (self).width == old(self).width,
            final (self).height == old(self).height,
            final (self).multiples == old(self).multiples,
            final (self).data@.len() == old(self).data@.len(),
    {
        let n = self.data.len();
        let mut i: usize = 0;
        while i < n
            invariant
                i <= n,
                n == self.data@.len(),
                self.width == old(self).width,
                self.height == old(self).height,
                self.multiples == old(self).multiples,
                forall|k: int| 0 <= k < i ==> self.data@[k] == 0,
            decreases n - i,
        {
            self.data.set(i, 0);
            i = i + 1;
        }
    }

    /// What a read-before-write pass observes at element `i`.
    pub fn read(&self, i: usize) -> (v: u32)
        requires
            i < self.data@.len(),
        ensures
            v == self.data@[i as int],
    {
        self.data[i]
    }

    /// Number of elements in the buffer.
    pub fn len(&self) -> (n: usize)
        ensures
            n == self.data@.len(),
    {
        self.data.len()
    }
}

/// After `clear()`, a read-before-write pass observes the zero value at
/// every element of the buffer.
pub proof fn lemma_cleared_reads_zero(b: AtomicAccumulationBuffer, i: int)
    requires
        b.is_cleared(),
        0 <= i < b.data@.len(),
    ensures
        b.data@[i] == 0,
{
}

} // verus!
