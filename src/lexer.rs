use vstd::prelude::*;

use crate::scanner::Scanner;
use crate::token::Token;
use crate::util::{Region, ResetIterator};

verus! {

/// The tokens that `rules` produce from position `pos` of `s`: scanning
/// repeats from the end of each token, and stops at the first position where
/// the rules find no match, or match without consuming anything.
pub open spec fn spec_lex<S: Scanner>(rules: S, s: Seq<char>, pos: int) -> Seq<Token<S::Token>>
    decreases s.len() - pos,
{
    if 0 <= pos <= s.len() {
        match rules.spec_scan(s, pos) {
            Some((k, n)) => if n > 0 && pos + n <= s.len() {
                seq![Token { kind: k, region: Region { start: pos as usize, end: (pos + n) as usize } }]
                    + spec_lex(rules, s, pos + n)
            } else {
                Seq::empty()
            },
            None => Seq::empty(),
        }
    } else {
        Seq::empty()
    }
}

/// The tokens of `toks` are non-empty and follow one another without gap or
/// overlap, the first starting at `from`.
pub open spec fn contiguous<K>(toks: Seq<Token<K>>, from: int) -> bool {
    &&& forall|i: int| 0 <= i < toks.len() ==> #[trigger] toks[i].region.start < toks[i].region.end
    &&& toks.len() > 0 ==> toks[0].region.start == from
    &&& forall|i: int|
        0 < i < toks.len() ==> #[trigger] toks[i].region.start == toks[i - 1].region.end
}

/// The end of the last token of `toks`, or `from` where there is none.
pub open spec fn end_of<K>(toks: Seq<Token<K>>, from: int) -> int {
    if toks.len() > 0 {
        toks.last().region.end as int
    } else {
        from
    }
}

/// The tokens produced from any position cover, in order and without gap or
/// overlap, a stretch of the input that starts at that position: the prefix
/// `[pos, end)` where `end` is the end of the last token.
pub proof fn lemma_coverage<S: Scanner>(rules: S, s: Seq<char>, pos: int)
    requires
        0 <= pos <= s.len(),
        s.len() <= usize::MAX,
    ensures
        contiguous(spec_lex(rules, s, pos), pos),
        pos <= end_of(spec_lex(rules, s, pos), pos) <= s.len(),
    decreases s.len() - pos,
{
    let toks = spec_lex(rules, s, pos);
    match rules.spec_scan(s, pos) {
        Some((k, n)) => {
            if n > 0 && pos + n <= s.len() {
                lemma_coverage(rules, s, pos + n);
                let rest = spec_lex(rules, s, pos + n);
                assert(toks == seq![toks[0]] + rest);
                assert forall|i: int| 0 < i < toks.len() implies #[trigger] toks[i].region.start
                    == toks[i - 1].region.end by {
                    if i > 1 {
                        assert(toks[i] == rest[i - 1]);
                        assert(toks[i - 1] == rest[i - 2]);
                    }
                }
                assert forall|i: int| 0 <= i < toks.len() implies #[trigger] toks[i].region.start
                    < toks[i].region.end by {
                    if i > 0 {
                        assert(toks[i] == rest[i - 1]);
                    }
                }
                if rest.len() > 0 {
                    assert(toks.last() == rest.last());
                }
            }
        },
        None => {},
    }
}

/// A lexer: applies its rules repeatedly to an input, producing one token
/// per application.  Each token's end becomes the commit point, so no rule
/// ever backtracks into a token already produced.
pub struct Lexer<S: Scanner> {
    iter: ResetIterator,
    rules: S,
}

impl<S: Scanner> Lexer<S> {
    /// The whole input.
    pub closed spec fn input(&self) -> Seq<char> {
        self.iter.input()
    }

    /// The position from which the next token is scanned.
    pub closed spec fn pos(&self) -> int {
        self.iter.pos()
    }

    /// The scanner applied.
    pub closed spec fn rules(&self) -> S {
        self.rules
    }

    /// The tokens still to be produced.
    pub open spec fn remaining(&self) -> Seq<Token<S::Token>> {
        spec_lex(self.rules(), self.input(), self.pos())
    }

    /// Well formedness: the cursor is well formed, and committed up to its
    /// position, the end of the last token produced.
    pub closed spec fn wf(&self) -> bool {
        &&& self.rules.wf()
        &&& self.iter.wf()
        &&& self.iter.commit_point() == self.iter.pos()
    }

    /// Construct a lexer for `input` using the given scanner.
    pub fn new(input: Vec<char>, rules: S) -> (r: Lexer<S>)
        requires
            rules.wf(),
        ensures
            r.wf(),
            r.input() == input@,
            r.rules() == rules,
            r.pos() == 0,
            r.remaining() == spec_lex(rules, input@, 0),
    {
        Lexer { iter: ResetIterator::new(input), rules }
    }

    /// Produce the next token, or `None` once the rules find no match (or
    /// match without consuming anything, which would otherwise repeat
    /// forever at the same position).
    pub fn next(&mut self) -> (r: Option<Token<S::Token>>)
        requires
            old(self).wf(),
        ensures
            final(self).wf(),
            final(self).input() == old(self).input(),
            final(self).rules() == old(self).rules(),
            match r {
                Some(t) => {
                    &&& old(self).remaining().len() > 0
                    &&& t == old(self).remaining()[0]
                    &&& final(self).remaining() == old(self).remaining().drop_first()
                    &&& final(self).pos() == t.region.end
                    &&& t.region.start == old(self).pos() < t.region.end
                },
                None => {
                    &&& old(self).remaining().len() == 0
                    &&& final(self).pos() == old(self).pos()
                },
            },
    {
        let start = self.iter.offset();
        match self.rules.scan(&mut self.iter) {
            Some(t) => {
                let end = self.iter.offset();
                if end == start {
                    return None;
                }
                self.iter.commit();
                Some(Token::new(t, start..end))
            },
            None => None,
        }
    }

    /// Produce all remaining tokens.
    pub fn collect(self) -> (r: Vec<Token<S::Token>>)
        requires
            self.wf(),
        ensures
            r@ == self.remaining(),
            contiguous(r@, self.pos()),
            self.pos() <= end_of(r@, self.pos()) <= self.input().len(),
    {
        let mut lexer = self;
        let mut r: Vec<Token<S::Token>> = Vec::new();
        proof {
            lemma_coverage(self.rules(), self.input(), self.pos());
        }
        loop
            invariant
                lexer.wf(),
                lexer.input() == self.input(),
                lexer.rules() == self.rules(),
                self.remaining() == r@ + lexer.remaining(),
            ensures
                r@ == self.remaining(),
            decreases lexer.input().len() - lexer.pos(),
        {
            match lexer.next() {
                Some(t) => {
                    r.push(t);
                    assert(self.remaining() == r@ + lexer.remaining());
                },
                None => {
                    assert(r@ == r@ + lexer.remaining());
                    break;
                },
            }
        }
        r
    }
}

} // verus!
