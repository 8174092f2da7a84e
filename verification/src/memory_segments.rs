use vstd::prelude::*;

use crate::relocatable::Relocatable;

verus! {

/// Errors that segment bookkeeping surfaces to a caller.
#[derive(Clone, Copy, Debug, PartialEq, Eq, Structural)]
pub enum MemoryError {
    /// No used-size record exists for the queried segment: used sizes have
    /// not been computed for the current run, or the segment is unknown.
    MissingSegmentUsedSizes,
}

/// Owns segment allocation for a run and, once sizes have been computed,
/// a per-segment used-size counter: the highest offset written plus one.
#[derive(Debug)]
pub struct MemorySegmentManager {
    pub num_segments: usize,
    pub segment_used_sizes: Option<Vec<usize>>,
}

impl MemorySegmentManager {
    /// The used size recorded for segment `index`: absent while used sizes
    /// are uncomputed, and for indices that no record covers.
    pub open spec fn used_size_of(self, index: int) -> Option<usize> {
        match self.segment_used_sizes {
            Option::Some(sizes) => if 0 <= index < sizes@.len() {
                Option::Some(sizes@[index])
            } else {
                Option::None
            },
            Option::None => Option::None,
        }
    }

    pub fn new() -> (r: Self)
        ensures
            r.num_segments == 0,
            r.segment_used_sizes is None,
    {
        MemorySegmentManager { num_segments: 0, segment_used_sizes: None }
    }

    /// Allocates a fresh segment and returns its base address
    /// `(segment_index, 0)`; indices are handed out consecutively, so the
    /// new index equals the previous segment count and is non-negative.
    pub fn add(&mut self) -> (r: Relocatable)
        requires
            old(self).num_segments < isize::MAX as usize,
        ensures
            final(self).num_segments == old(self).num_segments + 1,
            final(self).segment_used_sizes == old(self).segment_used_sizes,
            r.segment_index == old(self).num_segments as isize,
            r.offset == 0,
    {
        let index = self.num_segments;
        self.num_segments = self.num_segments + 1;
        Relocatable { segment_index: index as isize, offset: 0 }
    }

    /// Reports the recorded used size of segment `index`, or `None` while
    /// no record exists.
    pub fn get_segment_used_size(&self, index: usize) -> (r: Option<usize>)
        ensures
            r == self.used_size_of(index as int),
    {
        match &self.segment_used_sizes {
            Some(sizes) => {
                if index < sizes.len() {
                    Some(sizes[index])
                } else {
                    None
                }
            }
            None => None,
        }
    }

    /// Records the used sizes of all segments of the run, indexed by
    /// segment index.
    pub fn set_segment_used_sizes(&mut self, sizes: Vec<usize>)
        ensures
            final(self).num_segments == old(self).num_segments,
            final(self).segment_used_sizes == Some(sizes),
    {
        self.segment_used_sizes = Some(sizes);
    }
}

} // verus!
