use vstd::prelude::*;

use crate::util::ResetIterator;

verus! {

/// A pattern tested against the items that follow the cursor's position.
/// On success the matched items are consumed; on failure the cursor is left
/// exactly where it was.
pub trait Matcher: Sized {
    /// The number of items matched at position `pos` of `s`, or `None` when
    /// the pattern does not match there.
    spec fn spec_match(&self, s: Seq<char>, pos: int) -> Option<nat>;

    /// Whether the matcher is well formed: any caller-supplied predicate it
    /// holds can be called on every item and gives one answer for each.
    spec fn wf(&self) -> bool;

    /// Determine whether the items at the cursor's position match, consuming
    /// them when they do.
    fn matches(&self, input: &mut ResetIterator) -> (r: bool)
        requires
            self.wf(),
            old(input).wf(),
        ensures
            final(input).wf(),
            final(input).same_input(old(input)),
            r == self.spec_match(old(input).input(), old(input).pos()) is Some,
            r ==> final(input).pos() == old(input).pos() + self.spec_match(
                old(input).input(),
                old(input).pos(),
            )->Some_0,
            !r ==> final(input).pos() == old(input).pos(),
    ;
}

/// Builders that combine matchers into larger ones.
pub trait Combine: Matcher {
    /// A matcher for zero or more repetitions of this one.
    fn zero_or_more(self) -> (r: ZeroOrMore<Self>)
        ensures
            r == ZeroOrMore(self),
    ;

    /// A matcher for one or more repetitions of this one.
    fn one_or_more(self) -> (r: OneOrMore<Self>)
        ensures
            r == OneOrMore(self),
    ;

    /// A matcher that tries this one, and `other` where this one fails.
    fn or<M: Matcher>(self, other: M) -> (r: Or<Self, M>)
        ensures
            r == Or(self, other),
    ;

    /// A matcher for this one followed by `other`.
    fn followed_by<M: Matcher>(self, other: M) -> (r: Then<Self, M>)
        ensures
            r == Then(self, other),
    ;
}

impl<T: Matcher> Combine for T {
    fn zero_or_more(self) -> (r: ZeroOrMore<T>) {
        ZeroOrMore(self)
    }

    fn one_or_more(self) -> (r: OneOrMore<T>) {
        OneOrMore(self)
    }

    fn or<M: Matcher>(self, other: M) -> (r: Or<T, M>) {
        Or(self, other)
    }

    fn followed_by<M: Matcher>(self, other: M) -> (r: Then<T, M>) {
        Then(self, other)
    }
}

/// Whether position `pos` of `s` holds an item satisfying `p`.
pub open spec fn item_at(s: Seq<char>, pos: int, p: spec_fn(char) -> bool) -> Option<nat> {
    if 0 <= pos < s.len() && p(s[pos]) {
        Some(1)
    } else {
        None
    }
}

/// Total number of items consumed by applying `m` repeatedly from `pos`
/// until it fails or stops making progress.
pub open spec fn spec_repeat<M: Matcher>(m: M, s: Seq<char>, pos: int) -> nat
    decreases s.len() - pos,
{
    if 0 <= pos <= s.len() {
        match m.spec_match(s, pos) {
            Some(n) => if n > 0 && pos + n <= s.len() {
                n + spec_repeat(m, s, pos + n)
            } else {
                0
            },
            None => 0,
        }
    } else {
        0
    }
}

/// Read one item; if it fails `ok`, step back over it.
fn match_item(input: &mut ResetIterator, c: Option<char>, ok: bool) -> (r: bool)
    requires
        old(input).wf(),
        old(input).commit_point() < old(input).pos() || c is None,
    ensures
        final(input).wf(),
        final(input).same_input(old(input)),
        r == (c is Some && ok),
        r ==> final(input).pos() == old(input).pos(),
        c is Some && !ok ==> final(input).pos() == old(input).pos() - 1,
        c is None ==> final(input).pos() == old(input).pos(),
{
    match c {
        Some(_) => {
            if ok {
                true
            } else {
                input.reset(1);
                false
            }
        },
        None => false,
    }
}

/// A single item matches itself.
impl Matcher for char {
    open spec fn spec_match(&self, s: Seq<char>, pos: int) -> Option<nat> {
        item_at(s, pos, |c: char| c == *self)
    }

    open spec fn wf(&self) -> bool {
        true
    }

    fn matches(&self, input: &mut ResetIterator) -> (r: bool) {
        let c = input.next();
        let ok = match c {
            Some(t) => t == *self,
            None => false,
        };
        match_item(input, c, ok)
    }
}

/// A matcher for any one of a fixed collection of items.
#[derive(Clone, Debug)]
pub struct Any(pub Vec<char>);

impl Matcher for Any {
    open spec fn spec_match(&self, s: Seq<char>, pos: int) -> Option<nat> {
        item_at(s, pos, |c: char| self.0@.contains(c))
    }

    open spec fn wf(&self) -> bool {
        true
    }

    fn matches(&self, input: &mut ResetIterator) -> (r: bool) {
        let c = input.next();
        let ok = match c {
            Some(t) => contains(&self.0, t),
            None => false,
        };
        match_item(input, c, ok)
    }
}

/// Whether `v` holds `c`.
fn contains(v: &Vec<char>, c: char) -> (r: bool)
    ensures
        r == v@.contains(c),
{
    let mut i: usize = 0;
    while i < v.len()
        invariant
            i <= v.len(),
            forall|j: int| 0 <= j < i ==> v@[j] != c,
        decreases v.len() - i,
    {
        if v[i] == c {
            return true;
        }
        i = i + 1;
    }
    false
}

/// A matcher for any one item within an inclusive range `[lo, hi]`.
#[derive(Clone, Copy, Debug)]
pub struct Within(pub char, pub char);

impl Matcher for Within {
    open spec fn spec_match(&self, s: Seq<char>, pos: int) -> Option<nat> {
        item_at(s, pos, |c: char| self.0 <= c && c <= self.1)
    }

    open spec fn wf(&self) -> bool {
        true
    }

    fn matches(&self, input: &mut ResetIterator) -> (r: bool) {
        let c = input.next();
        let ok = match c {
            Some(t) => self.0 <= t && t <= self.1,
            None => false,
        };
        match_item(input, c, ok)
    }
}

/// A matcher for any one item that satisfies a caller-supplied predicate.
#[derive(Clone, Copy, Debug)]
pub struct Where<F: Fn(char) -> bool>(pub F);

impl<F: Fn(char) -> bool> Matcher for Where<F> {
    open spec fn spec_match(&self, s: Seq<char>, pos: int) -> Option<nat> {
        item_at(s, pos, |c: char| self.0.ensures((c,), true))
    }

    open spec fn wf(&self) -> bool {
        &&& forall|c: char| self.0.requires((c,))
        &&& forall|c: char, b: bool| #[trigger] self.0.ensures((c,), b) ==> (b || !self.0.ensures((c,), true))
    }

    fn matches(&self, input: &mut ResetIterator) -> (r: bool) {
        let c = input.next();
        let ok = match c {
            Some(t) => (self.0)(t),
            None => false,
        };
        match_item(input, c, ok)
    }
}

/// A matcher for one or more consecutive occurrences of a given matcher.
#[derive(Clone, Copy, Debug)]
pub struct OneOrMore<M: Matcher>(pub M);

impl<M: Matcher> Matcher for OneOrMore<M> {
    open spec fn spec_match(&self, s: Seq<char>, pos: int) -> Option<nat> {
        match self.0.spec_match(s, pos) {
            Some(n) => Some(n + spec_repeat(self.0, s, pos + n)),
            None => None,
        }
    }

    open spec fn wf(&self) -> bool {
        self.0.wf()
    }

    fn matches(&self, input: &mut ResetIterator) -> (r: bool) {
        if self.0.matches(input) {
            repeat(&self.0, input);
            true
        } else {
            false
        }
    }
}

/// A matcher for zero or more consecutive occurrences of a given matcher.
/// It always succeeds.
#[derive(Clone, Copy, Debug)]
pub struct ZeroOrMore<M: Matcher>(pub M);

impl<M: Matcher> Matcher for ZeroOrMore<M> {
    open spec fn spec_match(&self, s: Seq<char>, pos: int) -> Option<nat> {
        Some(spec_repeat(self.0, s, pos))
    }

    open spec fn wf(&self) -> bool {
        self.0.wf()
    }

    fn matches(&self, input: &mut ResetIterator) -> (r: bool) {
        repeat(&self.0, input);
        true
    }
}

/// Apply `m` until it fails, or succeeds without consuming anything.
fn repeat<M: Matcher>(m: &M, input: &mut ResetIterator)
    requires
        m.wf(),
        old(input).wf(),
    ensures
        final(input).wf(),
        final(input).same_input(old(input)),
        final(input).pos() == old(input).pos() + spec_repeat(
            *m,
            old(input).input(),
            old(input).pos(),
        ),
{
    loop
        invariant
            m.wf(),
            input.wf(),
            input.same_input(old(input)),
            old(input).pos() <= input.pos(),
            spec_repeat(*m, input.input(), old(input).pos()) == (input.pos() - old(input).pos())
                + spec_repeat(*m, input.input(), input.pos()),
        ensures
            input.wf(),
            input.same_input(old(input)),
            input.pos() == old(input).pos() + spec_repeat(
                *m,
                old(input).input(),
                old(input).pos(),
            ),
        decreases input.input().len() - input.pos(),
    {
        let before = input.offset();
        if !m.matches(input) {
            break;
        }
        if input.offset() == before {
            break;
        }
    }
}

/// A matcher that tries one matcher and, where it fails, another.  The
/// first one that matches decides the result.
#[derive(Clone, Copy, Debug)]
pub struct Or<Lhs: Matcher, Rhs: Matcher>(pub Lhs, pub Rhs);

impl<Lhs: Matcher, Rhs: Matcher> Matcher for Or<Lhs, Rhs> {
    open spec fn spec_match(&self, s: Seq<char>, pos: int) -> Option<nat> {
        match self.0.spec_match(s, pos) {
            Some(n) => Some(n),
            None => self.1.spec_match(s, pos),
        }
    }

    open spec fn wf(&self) -> bool {
        self.0.wf() && self.1.wf()
    }

    fn matches(&self, input: &mut ResetIterator) -> (r: bool) {
        self.0.matches(input) || self.1.matches(input)
    }
}

/// A matcher for one matcher immediately followed by another.  Where the
/// second fails, the items consumed by the first are given back.
#[derive(Clone, Copy, Debug)]
pub struct Then<Lhs: Matcher, Rhs: Matcher>(pub Lhs, pub Rhs);

impl<Lhs: Matcher, Rhs: Matcher> Matcher for Then<Lhs, Rhs> {
    open spec fn spec_match(&self, s: Seq<char>, pos: int) -> Option<nat> {
        match self.0.spec_match(s, pos) {
            Some(n1) => match self.1.spec_match(s, pos + n1) {
                Some(n2) => Some(n1 + n2),
                None => None,
            },
            None => None,
        }
    }

    open spec fn wf(&self) -> bool {
        self.0.wf() && self.1.wf()
    }

    fn matches(&self, input: &mut ResetIterator) -> (r: bool) {
        let offset = input.offset();
        if self.0.matches(input) {
            let n = input.offset() - offset;
            if self.1.matches(input) {
                return true;
            } else {
                input.reset(n);
            }
        }
        false
    }
}

/// Repetition: one or more repetitions of `m` match exactly where `m`
/// matches; zero or more repetitions always match, and consume nothing where
/// `m` does not match.
pub proof fn lemma_repetition<M: Matcher>(m: M, s: Seq<char>, pos: int)
    ensures
        OneOrMore(m).spec_match(s, pos) is Some <==> m.spec_match(s, pos) is Some,
        ZeroOrMore(m).spec_match(s, pos) is Some,
        m.spec_match(s, pos) is None ==> ZeroOrMore(m).spec_match(s, pos) == Some(0nat),
{
}

/// Alternation takes the first alternative wherever it matches, with its
/// consumption, whatever the second would match; elsewhere it is the second.
pub proof fn lemma_alternation<A: Matcher, B: Matcher>(a: A, b: B, s: Seq<char>, pos: int)
    ensures
        a.spec_match(s, pos) is Some ==> Or(a, b).spec_match(s, pos) == a.spec_match(s, pos),
        a.spec_match(s, pos) is None ==> Or(a, b).spec_match(s, pos) == b.spec_match(s, pos),
{
}

/// A sequence consumes the sum of what its two parts consume when both
/// match, one after the other; otherwise it fails (and, by the contract of
/// `matches`, consumes nothing).
pub proof fn lemma_sequence<A: Matcher, B: Matcher>(a: A, b: B, s: Seq<char>, pos: int)
    ensures
        ({
            let n1 = a.spec_match(s, pos)->Some_0;
            a.spec_match(s, pos) is Some && b.spec_match(s, pos + n1) is Some
                ==> Then(a, b).spec_match(s, pos) == Some(n1 + b.spec_match(s, pos + n1)->Some_0)
        }),
        a.spec_match(s, pos) is None ==> Then(a, b).spec_match(s, pos) is None,
        ({
            let n1 = a.spec_match(s, pos)->Some_0;
            a.spec_match(s, pos) is Some && b.spec_match(s, pos + n1) is None
                ==> Then(a, b).spec_match(s, pos) is None
        }),
{
}

} // verus!
