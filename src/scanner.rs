use vstd::prelude::*;

use crate::matcher::Matcher;
use crate::util::ResetIterator;

verus! {

/// Turns the items at the cursor's position into a token kind.  On success
/// the items of the token are consumed; on failure ("no match") the cursor
/// is left exactly where it was.
pub trait Scanner: Sized {
    /// The kind of token produced.
    type Token;

    /// The kind produced at position `pos` of `s`, with the number of items
    /// consumed, or `None` for no match.
    spec fn spec_scan(&self, s: Seq<char>, pos: int) -> Option<(Self::Token, nat)>;

    /// Whether the scanner is well formed: so are the matchers and the
    /// caller-supplied functions it holds.
    spec fn wf(&self) -> bool;

    /// Scan one token at the cursor's position.
    fn scan(&self, input: &mut ResetIterator) -> (r: Option<Self::Token>)
        requires
            self.wf(),
            old(input).wf(),
        ensures
            final(input).wf(),
            final(input).same_input(old(input)),
            match self.spec_scan(old(input).input(), old(input).pos()) {
                Some((k, n)) => r == Some(k) && final(input).pos() == old(input).pos() + n,
                None => r is None && final(input).pos() == old(input).pos(),
            },
    ;
}

/// Combination of scanners by priority.
pub trait Prioritise: Scanner {
    /// Combine two scanners: `other` is tried only where this one finds no
    /// match, so this one takes priority.
    fn or<Other: Scanner<Token = Self::Token>>(self, other: Other) -> (r: (Self, Other))
        ensures
            r == (self, other),
    ;
}

impl<A: Scanner, B: Scanner<Token = A::Token>> Prioritise for (A, B) {
    fn or<Other: Scanner<Token = A::Token>>(self, other: Other) -> (r: ((A, B), Other)) {
        (self, other)
    }
}

impl<M: Matcher, T: Copy> Prioritise for Unit<M, T> {
    fn or<Other: Scanner<Token = T>>(self, other: Other) -> (r: (Unit<M, T>, Other)) {
        (self, other)
    }
}

/// A pair of scanners tried in order: the first that matches decides.
impl<A: Scanner, B: Scanner<Token = A::Token>> Scanner for (A, B) {
    type Token = A::Token;

    open spec fn spec_scan(&self, s: Seq<char>, pos: int) -> Option<(A::Token, nat)> {
        match self.0.spec_scan(s, pos) {
            Some(r) => Some(r),
            None => self.1.spec_scan(s, pos),
        }
    }

    open spec fn wf(&self) -> bool {
        self.0.wf() && self.1.wf()
    }

    fn scan(&self, input: &mut ResetIterator) -> (r: Option<A::Token>) {
        match self.0.scan(input) {
            Some(t) => Some(t),
            None => self.1.scan(input),
        }
    }
}

/// A scanner that produces a given kind wherever a matcher matches.  This
/// is the building block of most scanners.
#[derive(Clone, Copy, Debug)]
pub struct Unit<M: Matcher, T>(pub M, pub T);

impl<M: Matcher, T: Copy> Scanner for Unit<M, T> {
    type Token = T;

    open spec fn spec_scan(&self, s: Seq<char>, pos: int) -> Option<(T, nat)> {
        match self.0.spec_match(s, pos) {
            Some(n) => Some((self.1, n)),
            None => None,
        }
    }

    open spec fn wf(&self) -> bool {
        self.0.wf()
    }

    fn scan(&self, input: &mut ResetIterator) -> (r: Option<T>) {
        if self.0.matches(input) {
            Some(self.1)
        } else {
            None
        }
    }
}

/// A scanner that produces a given kind at the end of the input, consuming
/// nothing.
#[derive(Clone, Copy, Debug)]
pub struct Eof<T>(pub T);

impl<T: Copy> Scanner for Eof<T> {
    type Token = T;

    open spec fn spec_scan(&self, s: Seq<char>, pos: int) -> Option<(T, nat)> {
        if pos >= s.len() {
            Some((self.0, 0))
        } else {
            None
        }
    }

    open spec fn wf(&self) -> bool {
        true
    }

    fn scan(&self, input: &mut ResetIterator) -> (r: Option<T>) {
        match input.lookahead(0) {
            Some(_) => None,
            None => Some(self.0),
        }
    }
}

impl<T: Copy> Prioritise for Eof<T> {
    fn or<Other: Scanner<Token = T>>(self, other: Other) -> (r: (Eof<T>, Other)) {
        (self, other)
    }
}

/// A scanner that classifies the next item with a caller-supplied function:
/// where it gives a kind, that kind is produced and the item consumed.
#[verifier::reject_recursive_types(T)]
pub struct Mapping<T, F: Fn(char) -> Option<T>> {
    mapper: F,
    kind: core::marker::PhantomData<T>,
}

impl<T, F: Fn(char) -> Option<T>> Mapping<T, F> {
    /// The classifying function.
    pub closed spec fn mapper(&self) -> F {
        self.mapper
    }

    pub fn new(mapper: F) -> (r: Mapping<T, F>)
        ensures
            r.mapper() == mapper,
    {
        Mapping { mapper, kind: core::marker::PhantomData }
    }
}

impl<T, F: Fn(char) -> Option<T>> Scanner for Mapping<T, F> {
    type Token = T;

    open spec fn spec_scan(&self, s: Seq<char>, pos: int) -> Option<(T, nat)> {
        if 0 <= pos < s.len() && exists|k: T| self.mapper().ensures((s[pos],), Some(k)) {
            Some((choose|k: T| self.mapper().ensures((s[pos],), Some(k)), 1))
        } else {
            None
        }
    }

    open spec fn wf(&self) -> bool {
        &&& forall|c: char| self.mapper().requires((c,))
        &&& forall|c: char, r1: Option<T>, r2: Option<T>|
            #[trigger] self.mapper().ensures((c,), r1) && #[trigger] self.mapper().ensures((c,), r2)
                ==> r1 == r2
    }

    fn scan(&self, input: &mut ResetIterator) -> (r: Option<T>) {
        match input.lookahead(0) {
            Some(c) => {
                let r = (self.mapper)(c);
                match &r {
                    Some(k) => {
                        proof {
                            let k2 = choose|k2: T| self.mapper().ensures((c,), Some(k2));
                            assert(self.mapper().ensures((c,), Some(*k)));
                            assert(self.mapper().ensures((c,), Some(k2)));
                        }
                        input.next();
                    },
                    None => {
                        assert forall|k: T| !self.mapper().ensures((c,), Some(k)) by {
                            if self.mapper().ensures((c,), Some(k)) {
                                assert(self.mapper().ensures((c,), None::<T>));
                            }
                        }
                    },
                }
                r
            },
            None => None,
        }
    }
}

impl<T, F: Fn(char) -> Option<T>> Prioritise for Mapping<T, F> {
    fn or<Other: Scanner<Token = T>>(self, other: Other) -> (r: (Mapping<T, F>, Other)) {
        (self, other)
    }
}

/// Priority: a pair of scanners gives the first one's result, kind and
/// consumption, wherever it matches, even where the second would match
/// something else; elsewhere it gives the second one's.
pub proof fn lemma_priority<A: Scanner, B: Scanner<Token = A::Token>>(
    a: A,
    b: B,
    s: Seq<char>,
    pos: int,
)
    ensures
        a.spec_scan(s, pos) is Some ==> (a, b).spec_scan(s, pos) == a.spec_scan(s, pos),
        a.spec_scan(s, pos) is None ==> (a, b).spec_scan(s, pos) == b.spec_scan(s, pos),
{
}

} // verus!
