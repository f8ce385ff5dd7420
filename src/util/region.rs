use std::ops::Range;
use vstd::prelude::*;

verus! {

/// A half-open region `[start, end)` of a sequence: `start` is the first
/// index covered, `end` is one past the last.
#[derive(Clone, Copy, Debug, PartialEq, Eq, Structural)]
pub struct Region {
    pub start: usize,
    pub end: usize,
}

impl Region {
    /// A region is well formed when it does not end before it starts.
    pub open spec fn wf(self) -> bool {
        self.start <= self.end
    }

    /// The number of items covered.
    pub open spec fn spec_len(self) -> int {
        self.end - self.start
    }

    pub fn new(start: usize, end: usize) -> (r: Region)
        ensures
            r.start == start,
            r.end == end,
    {
        Region { start, end }
    }

    /// Determine the number of items this region covers.
    pub fn len(&self) -> (r: usize)
        requires
            self.wf(),
        ensures
            r == self.spec_len(),
    {
        self.end - self.start
    }

    /// Translate the region `delta` positions further up the sequence.
    pub fn shift(&mut self, delta: usize)
        requires
            old(self).end + delta <= usize::MAX,
            old(self).wf(),
        ensures
            final(self).start == old(self).start + delta,
            final(self).end == old(self).end + delta,
            final(self).spec_len() == old(self).spec_len(),
    {
        self.start = self.start + delta;
        self.end = self.end + delta;
    }
}

/// A region covers the same positions as a `Range` with the same bounds.
impl From<Range<usize>> for Region {
    fn from(r: Range<usize>) -> Region {
        Region { start: r.start, end: r.end }
    }
}

impl vstd::std_specs::convert::FromSpecImpl<Range<usize>> for Region {
    open spec fn obeys_from_spec() -> bool {
        true
    }

    open spec fn from_spec(r: Range<usize>) -> Region {
        Region { start: r.start, end: r.end }
    }
}

} // verus!
