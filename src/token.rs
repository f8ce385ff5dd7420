use std::ops::Range;
use vstd::prelude::*;

use crate::util::Region;

verus! {

/// A token pairs a kind with the region of the original sequence that it
/// covers.
#[derive(Clone, Copy, Debug)]
pub struct Token<T> {
    /// Kind of the token.
    pub kind: T,
    /// The (half open) region of the sequence it covers.
    pub region: Region,
}

impl<T> Token<T> {
    pub fn new(kind: T, range: Range<usize>) -> (r: Token<T>)
        ensures
            r.kind == kind,
            r.region.start == range.start,
            r.region.end == range.end,
    {
        Token { kind, region: Region::from(range) }
    }

    /// First index of this token.
    pub fn start(&self) -> (r: usize)
        ensures
            r == self.region.start,
    {
        self.region.start
    }

    /// One past the last index of this token.
    pub fn end(&self) -> (r: usize)
        ensures
            r == self.region.end,
    {
        self.region.end
    }

    /// Number of items this token covers.
    pub fn len(&self) -> (r: usize)
        requires
            self.region.wf(),
        ensures
            r == self.region.spec_len(),
    {
        self.region.len()
    }

    /// The covered region as a `Range`.
    pub fn range(&self) -> (r: Range<usize>)
        ensures
            r.start == self.region.start,
            r.end == self.region.end,
    {
        self.start()..self.end()
    }

    /// Move the token `delta` positions further up the sequence.
    pub fn shift(&mut self, delta: usize)
        requires
            old(self).region.wf(),
            old(self).region.end + delta <= usize::MAX,
        ensures
            final(self).kind == old(self).kind,
            final(self).region.start == old(self).region.start + delta,
            final(self).region.end == old(self).region.end + delta,
    {
        self.region.shift(delta);
    }
}

} // verus!
