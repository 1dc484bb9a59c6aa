use vstd::prelude::*;

use crate::errors::AndError;
use crate::errors::FinishError;
use crate::errors::FinishFailure;
use crate::errors::OptError;
use crate::parser::Parser;
use crate::parser::Step;

verus! {

/// Parser that runs `one`, then `two` on the remainder; both must succeed.
///
/// Any failure, in either stage, rolls back to the input present before
/// `one` was attempted and reports the failing stage's error.
#[derive(Clone, Copy, Debug, PartialEq, Eq)]
pub struct And<A, B> {
    /// The first stage.
    pub one: A,
    /// The second stage, run on what the first stage left.
    pub two: B,
}

impl<A: Parser, B: Parser> Parser for And<A, B> {
    type Output = (A::Output, B::Output);

    type Error = AndError<A::Error, B::Error>;

    open spec fn ok(&self, input: Seq<u8>) -> bool {
        self.one.ok(input) && self.two.ok(input.skip(self.one.consumed(input)))
    }

    open spec fn consumed(&self, input: Seq<u8>) -> int {
        self.one.consumed(input) + self.two.consumed(input.skip(self.one.consumed(input)))
    }

    open spec fn produces(&self, input: Seq<u8>, out: (A::Output, B::Output)) -> bool {
        &&& self.one.produces(input, out.0)
        &&& self.two.produces(input.skip(self.one.consumed(input)), out.1)
    }

    open spec fn fails_with(&self, input: Seq<u8>, err: AndError<A::Error, B::Error>) -> bool {
        match err {
            AndError::One(e) => !self.one.ok(input) && self.one.fails_with(input, e),
            AndError::Two(e) => {
                &&& self.one.ok(input)
                &&& !self.two.ok(input.skip(self.one.consumed(input)))
                &&& self.two.fails_with(input.skip(self.one.consumed(input)), e)
            },
        }
    }

    proof fn lemma_consumed_in_bounds(&self, input: Seq<u8>) {
        self.one.lemma_consumed_in_bounds(input);
        self.two.lemma_consumed_in_bounds(input.skip(self.one.consumed(input)));
    }

    fn parse<'a>(&self, input: &'a [u8]) -> (step: Step<
        'a,
        (A::Output, B::Output),
        AndError<A::Error, B::Error>,
    >) {
        proof {
            self.one.lemma_consumed_in_bounds(input@);
        }
        match self.one.parse(input) {
            (rest, Ok(x)) => {
                proof {
                    self.two.lemma_consumed_in_bounds(rest@);
                }
                match self.two.parse(rest) {
                    (rest2, Ok(y)) => {
                        proof {
                            assert(rest2@ =~= input@.skip(self.consumed(input@)));
                        }
                        (rest2, Ok((x, y)))
                    },
                    (_, Err(e)) => (input, Err(AndError::Two(e))),
                }
            },
            (_, Err(e)) => (input, Err(AndError::One(e))),
        }
    }
}

/// Builds the parser that runs `one` and then `two`; both must succeed.
pub fn and<A: Parser, B: Parser>(one: A, two: B) -> (p: And<A, B>)
    ensures
        p == (And { one, two }),
{
    And { one, two }
}

/// Parser that attempts its child once and cannot itself fail.
///
/// A child success is handed back as present with the child's advanced
/// input; a child failure is discarded entirely and reported as absent with
/// the pre-attempt input.
#[derive(Clone, Copy, Debug, PartialEq, Eq)]
pub struct Opt<P> {
    /// The parser to attempt.
    pub child: P,
}

impl<P: Parser> Parser for Opt<P> {
    type Output = Option<P::Output>;

    type Error = OptError;

    open spec fn ok(&self, input: Seq<u8>) -> bool {
        true
    }

    open spec fn consumed(&self, input: Seq<u8>) -> int {
        if self.child.ok(input) {
            self.child.consumed(input)
        } else {
            0
        }
    }

    open spec fn produces(&self, input: Seq<u8>, out: Option<P::Output>) -> bool {
        match out {
            Some(v) => self.child.ok(input) && self.child.produces(input, v),
            None => !self.child.ok(input),
        }
    }

    open spec fn fails_with(&self, input: Seq<u8>, err: OptError) -> bool {
        false
    }

    proof fn lemma_consumed_in_bounds(&self, input: Seq<u8>) {
        self.child.lemma_consumed_in_bounds(input);
    }

    fn parse<'a>(&self, input: &'a [u8]) -> (step: Step<'a, Option<P::Output>, OptError>) {
        match self.child.parse(input) {
            (rest, Ok(x)) => (rest, Ok(Some(x))),
            (_, Err(_)) => (input, Ok(None)),
        }
    }
}

/// Builds the parser that attempts `child` once and cannot itself fail.
pub fn opt<P: Parser>(child: P) -> (p: Opt<P>)
    ensures
        p == (Opt { child }),
{
    Opt { child }
}

/// The tagged result of [`Or`]: which alternative matched, with its value.
#[derive(Clone, Copy, Debug, PartialEq, Eq)]
pub enum OrOutput<O1, O2> {
    /// The first alternative matched.
    One(O1),
    /// The first alternative failed and the second matched.
    Two(O2),
}

/// Parser that tries `one` and, where `one` fails, tries `two` from the same
/// starting point: exclusive, first-match-wins alternation.
///
/// Of the two documented alternation semantics this type deliberately picks
/// the exclusive one: `one`'s failure is swallowed and `two`'s failure is
/// fatal.  The result says which alternative matched.
#[derive(Clone, Copy, Debug, PartialEq, Eq)]
pub struct Or<A, B> {
    /// The alternative tried first.
    pub one: A,
    /// The alternative tried from the same starting point where the first
    /// fails.
    pub two: B,
}

impl<A: Parser, B: Parser> Parser for Or<A, B> {
    type Output = OrOutput<A::Output, B::Output>;

    type Error = B::Error;

    open spec fn ok(&self, input: Seq<u8>) -> bool {
        self.one.ok(input) || self.two.ok(input)
    }

    open spec fn consumed(&self, input: Seq<u8>) -> int {
        if self.one.ok(input) {
            self.one.consumed(input)
        } else {
            self.two.consumed(input)
        }
    }

    open spec fn produces(&self, input: Seq<u8>, out: OrOutput<A::Output, B::Output>) -> bool {
        match out {
            OrOutput::One(v) => self.one.ok(input) && self.one.produces(input, v),
            OrOutput::Two(v) => !self.one.ok(input) && self.two.produces(input, v),
        }
    }

    open spec fn fails_with(&self, input: Seq<u8>, err: B::Error) -> bool {
        !self.one.ok(input) && !self.two.ok(input) && self.two.fails_with(input, err)
    }

    proof fn lemma_consumed_in_bounds(&self, input: Seq<u8>) {
        self.one.lemma_consumed_in_bounds(input);
        self.two.lemma_consumed_in_bounds(input);
    }

    fn parse<'a>(&self, input: &'a [u8]) -> (step: Step<
        'a,
        OrOutput<A::Output, B::Output>,
        B::Error,
    >) {
        match self.one.parse(input) {
            (rest, Ok(x)) => (rest, Ok(OrOutput::One(x))),
            (_, Err(_)) => match self.two.parse(input) {
                (rest, Ok(y)) => (rest, Ok(OrOutput::Two(y))),
                (_, Err(e)) => (input, Err(e)),
            },
        }
    }
}

/// Builds the parser that tries `one` and falls back to `two`.
pub fn or<A: Parser, B: Parser>(one: A, two: B) -> (p: Or<A, B>)
    ensures
        p == (Or { one, two }),
{
    Or { one, two }
}

/// Parser that runs its child and additionally requires the child to
/// consume the entire input.
///
/// A success on a proper prefix is turned into an unconsumed-remainder
/// failure; a child failure propagates.  Either way the pre-attempt input is
/// handed back on failure.
#[derive(Clone, Copy, Debug, PartialEq, Eq)]
pub struct Finish<P> {
    /// The parser that must consume the whole input.
    pub child: P,
}

impl<P: Parser> Parser for Finish<P> {
    type Output = P::Output;

    type Error = FinishFailure<P::Error>;

    open spec fn ok(&self, input: Seq<u8>) -> bool {
        self.child.ok(input) && self.child.consumed(input) == input.len()
    }

    open spec fn consumed(&self, input: Seq<u8>) -> int {
        input.len() as int
    }

    open spec fn produces(&self, input: Seq<u8>, out: P::Output) -> bool {
        self.child.produces(input, out)
    }

    open spec fn fails_with(&self, input: Seq<u8>, err: FinishFailure<P::Error>) -> bool {
        match err {
            FinishFailure::Child(e) => !self.child.ok(input) && self.child.fails_with(input, e),
            FinishFailure::Leftover(f) => {
                &&& self.child.ok(input)
                &&& self.child.consumed(input) < input.len()
                &&& f.remaining + self.child.consumed(input) == input.len()
            },
        }
    }

    proof fn lemma_consumed_in_bounds(&self, input: Seq<u8>) {
    }

    fn parse<'a>(&self, input: &'a [u8]) -> (step: Step<'a, P::Output, FinishFailure<P::Error>>) {
        proof {
            self.child.lemma_consumed_in_bounds(input@);
        }
        match self.child.parse(input) {
            (rest, Ok(x)) => {
                if rest.len() == 0 {
                    (rest, Ok(x))
                } else {
                    (input, Err(FinishFailure::Leftover(FinishError { remaining: rest.len() })))
                }
            },
            (_, Err(e)) => (input, Err(FinishFailure::Child(e))),
        }
    }
}

/// Builds the parser that runs `child` and requires it to consume the whole
/// input.
pub fn finish<P: Parser>(child: P) -> (p: Finish<P>)
    ensures
        p == (Finish { child }),
{
    Finish { child }
}

} // verus!
