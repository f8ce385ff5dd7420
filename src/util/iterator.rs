use vstd::prelude::*;

verus! {

/// A cursor over a sequence that is read from its source only once, and in
/// order.  Items read so far are kept in a buffer, so that the cursor can be
/// moved back ("reset") to any position at or after its commit point.
/// Committing releases the buffered items before the current position.
pub struct ResetIterator {
    /// The underlying source, of which the first `pulled` items were taken.
    source: Vec<char>,
    /// Number of items taken from the source.
    pulled: usize,
    /// The items at positions `[start, pulled)`.
    items: Vec<char>,
    /// The commit point: lowest position the cursor may return to.
    start: usize,
    /// Current position: the next item to be read.
    offset: usize,
}

impl ResetIterator {
    /// The whole sequence, as the source will produce it.
    pub closed spec fn input(&self) -> Seq<char> {
        self.source@
    }

    /// The current position (the frontier).
    pub closed spec fn pos(&self) -> int {
        self.offset as int
    }

    /// The commit point.
    pub closed spec fn commit_point(&self) -> int {
        self.start as int
    }

    /// Positions read from the source so far.
    pub closed spec fn pulled(&self) -> int {
        self.pulled as int
    }

    /// The items currently held in the buffer.
    pub closed spec fn buffered(&self) -> Seq<char> {
        self.items@
    }

    /// Well formedness: the commit point is at or before the frontier, which
    /// is within the sequence, and the buffer holds exactly the items from
    /// the commit point up to the furthest position pulled.
    pub open spec fn wf(&self) -> bool {
        &&& 0 <= self.commit_point() <= self.pos() <= self.pulled() <= self.input().len()
        &&& self.input().len() <= usize::MAX
        &&& self.buffered() == self.input().subrange(self.commit_point(), self.pulled())
    }

    /// Same sequence and commit point; only the position and the buffer may
    /// have changed.
    pub open spec fn same_input(&self, other: &Self) -> bool {
        &&& self.input() == other.input()
        &&& self.commit_point() == other.commit_point()
    }

    /// Construct a cursor at the start of the given source.
    pub fn new(source: Vec<char>) -> (r: ResetIterator)
        ensures
            r.wf(),
            r.input() == source@,
            r.pos() == 0,
            r.commit_point() == 0,
            r.buffered().len() == 0,
    {
        // Reading the length records that it fits in a `usize`.
        let _ = source.len();
        let r = ResetIterator { source, pulled: 0, items: Vec::new(), start: 0, offset: 0 };
        assert(r.items@ =~= r.source@.subrange(0, 0));
        r
    }

    /// Ensure that the buffer reaches `n` items past the current position
    /// (unless the sequence ends before that).
    fn expand(&mut self, n: usize)
        requires
            old(self).wf(),
        ensures
            final(self).wf(),
            final(self).same_input(old(self)),
            final(self).pos() == old(self).pos(),
            final(self).pulled() >= old(self).pulled(),
            final(self).pulled() > final(self).pos() + n
                || final(self).pulled() == final(self).input().len(),
    {
        while self.pulled - self.offset <= n && self.pulled < self.source.len()
            invariant
                self.wf(),
                self.same_input(old(self)),
                self.pos() == old(self).pos(),
                self.pulled() >= old(self).pulled(),
            decreases self.input().len() - self.pulled(),
        {
            let item = self.source[self.pulled];
            self.items.push(item);
            self.pulled = self.pulled + 1;
            assert(self.items@ =~= self.source@.subrange(self.start as int, self.pulled as int));
        }
    }

    /// The current position within the original sequence.
    pub fn offset(&self) -> (r: usize)
        requires
            self.wf(),
        ensures
            r == self.pos(),
    {
        self.offset
    }

    /// The `n`th item past the current position (`n == 0` is the item that
    /// `next` returns), or `None` if the sequence ends before it.  The
    /// position does not change.
    pub fn lookahead(&mut self, n: usize) -> (r: Option<char>)
        requires
            old(self).wf(),
        ensures
            final(self).wf(),
            final(self).same_input(old(self)),
            final(self).pos() == old(self).pos(),
            final(self).pulled() > final(self).pos() + n
                || final(self).pulled() == final(self).input().len(),
            r == (if old(self).pos() + n < old(self).input().len() {
                Some(old(self).input()[old(self).pos() + n])
            } else {
                None::<char>
            }),
    {
        self.expand(n);
        let k = self.offset - self.start;
        if n < self.items.len() - k {
            Some(self.items[k + n])
        } else {
            None
        }
    }

    /// Up to `n` items from the current position, fewer where the sequence
    /// ends first.  The position does not change.
    pub fn slice(&mut self, n: usize) -> (r: Vec<char>)
        requires
            old(self).wf(),
        ensures
            final(self).wf(),
            final(self).same_input(old(self)),
            final(self).pos() == old(self).pos(),
            r@ == old(self).input().subrange(
                old(self).pos(),
                if old(self).pos() + n <= old(self).input().len() {
                    old(self).pos() + n
                } else {
                    old(self).input().len() as int
                },
            ),
    {
        self.expand(n);
        let k = self.offset - self.start;
        let available = self.items.len() - k;
        let m = if n < available {
            n
        } else {
            available
        };
        let mut r: Vec<char> = Vec::new();
        let mut i: usize = 0;
        while i < m
            invariant
                self.wf(),
                self.same_input(old(self)),
                self.pos() == old(self).pos(),
                k == self.pos() - self.commit_point(),
                i <= m <= self.pulled() - self.pos(),
                self.pos() + m == if old(self).pos() + n <= old(self).input().len() {
                    old(self).pos() + n
                } else {
                    old(self).input().len() as int
                },
                r@ == self.input().subrange(self.pos(), self.pos() + i),
            decreases m - i,
        {
            r.push(self.items[k + i]);
            i = i + 1;
            assert(r@ =~= self.input().subrange(self.pos(), self.pos() + i));
        }
        r
    }

    /// The longest run of items from the current position that all satisfy
    /// `predicate`.  The position does not change.
    pub fn slice_while<F: Fn(char) -> bool>(&mut self, predicate: F) -> (r: Vec<char>)
        requires
            old(self).wf(),
            forall|c: char| predicate.requires((c,)),
        ensures
            final(self).wf(),
            final(self).same_input(old(self)),
            final(self).pos() == old(self).pos(),
            old(self).pos() + r@.len() <= old(self).input().len(),
            r@ == old(self).input().subrange(old(self).pos(), old(self).pos() + r@.len()),
            forall|i: int| 0 <= i < r@.len() ==> predicate.ensures((r@[i],), true),
            old(self).pos() + r@.len() < old(self).input().len() ==> predicate.ensures(
                (old(self).input()[old(self).pos() + r@.len()],),
                false,
            ),
    {
        let mut r: Vec<char> = Vec::new();
        let mut i: usize = 0;
        loop
            invariant
                self.wf(),
                self.same_input(old(self)),
                self.pos() == old(self).pos(),
                forall|c: char| predicate.requires((c,)),
                i == r@.len(),
                self.pos() + i <= self.input().len(),
                r@ == self.input().subrange(self.pos(), self.pos() + i),
                forall|j: int| 0 <= j < r@.len() ==> predicate.ensures((r@[j],), true),
            ensures
                self.wf(),
                self.same_input(old(self)),
                self.pos() == old(self).pos(),
                self.pos() + r@.len() <= self.input().len(),
                r@ == self.input().subrange(self.pos(), self.pos() + r@.len()),
                forall|j: int| 0 <= j < r@.len() ==> predicate.ensures((r@[j],), true),
                self.pos() + r@.len() < self.input().len() ==> predicate.ensures(
                    (self.input()[self.pos() + r@.len()],),
                    false,
                ),
            decreases self.input().len() - self.pos() - i,
        {
            match self.lookahead(i) {
                Some(c) => {
                    if predicate(c) {
                        r.push(c);
                        i = i + 1;
                        assert(r@ =~= self.input().subrange(self.pos(), self.pos() + i));
                    } else {
                        break;
                    }
                },
                None => {
                    break;
                },
            }
        }
        r
    }

    /// Read the next item and advance past it, or return `None` at the end
    /// of the sequence (and keep returning it).
    pub fn next(&mut self) -> (r: Option<char>)
        requires
            old(self).wf(),
        ensures
            final(self).wf(),
            final(self).same_input(old(self)),
            old(self).pos() < old(self).input().len() ==> {
                &&& r == Some(old(self).input()[old(self).pos()])
                &&& final(self).pos() == old(self).pos() + 1
            },
            old(self).pos() >= old(self).input().len() ==> {
                &&& r == None::<char>
                &&& final(self).pos() == old(self).pos()
            },
    {
        let r = self.lookahead(0);
        if r.is_some() {
            self.offset = self.offset + 1;
        }
        r
    }

    /// Move the position back by `n` items.  It may not go back past the
    /// commit point, as the items before it are no longer held.
    pub fn reset(&mut self, n: usize)
        requires
            old(self).wf(),
            old(self).pos() - n >= old(self).commit_point(),
        ensures
            final(self).wf(),
            final(self).same_input(old(self)),
            final(self).pos() == old(self).pos() - n,
            final(self).pulled() == old(self).pulled(),
    {
        self.offset = self.offset - n;
    }

    /// Make the current position the commit point, releasing the buffered
    /// items before it.  Positions before it can no longer be returned to.
    pub fn commit(&mut self)
        requires
            old(self).wf(),
        ensures
            final(self).wf(),
            final(self).input() == old(self).input(),
            final(self).pos() == old(self).pos(),
            final(self).commit_point() == old(self).pos(),
            final(self).pulled() == old(self).pulled(),
            final(self).buffered().len() == old(self).pulled() - old(self).pos(),
    {
        let k = self.offset - self.start;
        self.items = self.items.split_off(k);
        self.start = self.offset;
        assert(self.items@ =~= self.source@.subrange(self.start as int, self.pulled as int));
    }
}

} // verus!
