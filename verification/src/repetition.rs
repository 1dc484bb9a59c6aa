use vstd::prelude::*;

use crate::errors::SeqError;
use crate::parser::Parser;
use crate::parser::Step;

verus! {

/// The input left after `child` has been run `k` times in a row on `input`,
/// each repetition starting where the one before it stopped.
pub open spec fn rep_rest<P: Parser>(child: P, input: Seq<u8>, k: int) -> Seq<u8>
    decreases k,
{
    if k <= 0 {
        input
    } else {
        let before = rep_rest(child, input, k - 1);
        before.skip(child.consumed(before))
    }
}

/// Whether the first `k` repetitions of `child` on `input` all succeed.
pub open spec fn rep_ok_upto<P: Parser>(child: P, input: Seq<u8>, k: int) -> bool
    decreases k,
{
    k <= 0 || (rep_ok_upto(child, input, k - 1) && child.ok(rep_rest(child, input, k - 1)))
}

/// How many bytes the first `k` repetitions of `child` on `input` consume:
/// the sum of what each repetition consumes.
pub open spec fn rep_consumed<P: Parser>(child: P, input: Seq<u8>, k: int) -> int
    decreases k,
{
    if k <= 0 {
        0
    } else {
        rep_consumed(child, input, k - 1) + child.consumed(rep_rest(child, input, k - 1))
    }
}

/// Where the first `k` repetitions succeed, they consume between zero and
/// all of the input, and the input they leave is the given input advanced by
/// exactly what they consumed.
pub proof fn lemma_rep_rest_is_skip<P: Parser>(child: P, input: Seq<u8>, k: int)
    requires
        rep_ok_upto(child, input, k),
    ensures
        0 <= rep_consumed(child, input, k) <= input.len(),
        rep_rest(child, input, k) == input.skip(rep_consumed(child, input, k)),
        rep_rest(child, input, k).len() == input.len() - rep_consumed(child, input, k),
    decreases k,
{
    if k <= 0 {
        assert(rep_rest(child, input, k) =~= input.skip(0));
    } else {
        lemma_rep_rest_is_skip(child, input, k - 1);
        let before = rep_rest(child, input, k - 1);
        child.lemma_consumed_in_bounds(before);
        assert(rep_rest(child, input, k) =~= input.skip(rep_consumed(child, input, k)));
    }
}

/// Whether `k` repetitions of `child` on `input` may produce the outputs
/// `s`, in call order: the i-th output is one the child may produce on what
/// the first `i` repetitions left.
pub open spec fn rep_produces<P: Parser>(
    child: P,
    input: Seq<u8>,
    k: int,
    s: Seq<P::Output>,
) -> bool {
    &&& s.len() == k
    &&& forall|i: int| 0 <= i < k ==> child.produces(rep_rest(child, input, i), #[trigger] s[i])
}

/// Peeling one repetition off the front: running `child` `k` times on
/// `input` is running it once and then `k - 1` times on what that one run
/// left.
pub proof fn lemma_rep_head_unroll<P: Parser>(child: P, input: Seq<u8>, k: int)
    requires
        k >= 1,
    ensures
        rep_rest(child, input, k) == rep_rest(
            child,
            input.skip(child.consumed(input)),
            k - 1,
        ),
        rep_ok_upto(child, input, k) <==> (child.ok(input) && rep_ok_upto(
            child,
            input.skip(child.consumed(input)),
            k - 1,
        )),
        rep_consumed(child, input, k) == child.consumed(input) + rep_consumed(
            child,
            input.skip(child.consumed(input)),
            k - 1,
        ),
    decreases k,
{
    let tail = input.skip(child.consumed(input));
    if k == 1 {
        assert(rep_rest(child, input, 0) == input);
        assert(rep_rest(child, tail, 0) == tail);
        assert(rep_ok_upto(child, input, 0) && rep_ok_upto(child, tail, 0));
        assert(rep_consumed(child, input, 0) == 0 && rep_consumed(child, tail, 0) == 0);
        assert(rep_ok_upto(child, input, 1) == (rep_ok_upto(child, input, 0) && child.ok(
            rep_rest(child, input, 0),
        )));
        assert(rep_consumed(child, input, 1) == rep_consumed(child, input, 0) + child.consumed(
            rep_rest(child, input, 0),
        ));
    } else {
        lemma_rep_head_unroll(child, input, k - 1);
        assert(rep_rest(child, input, k) == rep_rest(child, input, k - 1).skip(
            child.consumed(rep_rest(child, input, k - 1)),
        ));
        assert(rep_rest(child, tail, k - 1) == rep_rest(child, tail, k - 2).skip(
            child.consumed(rep_rest(child, tail, k - 2)),
        ));
        assert(rep_ok_upto(child, input, k) == (rep_ok_upto(child, input, k - 1) && child.ok(
            rep_rest(child, input, k - 1),
        )));
        assert(rep_ok_upto(child, tail, k - 1) == (rep_ok_upto(child, tail, k - 2) && child.ok(
            rep_rest(child, tail, k - 2),
        )));
        assert(rep_consumed(child, input, k) == rep_consumed(child, input, k - 1) + child.consumed(
            rep_rest(child, input, k - 1),
        ));
        assert(rep_consumed(child, tail, k - 1) == rep_consumed(child, tail, k - 2)
            + child.consumed(rep_rest(child, tail, k - 2)));
    }
}

/// Success of the first `k` repetitions is downward closed: where the first
/// `k` repetitions all succeed, so do the first `j`, for any `j <= k`.
pub proof fn lemma_rep_ok_monotone<P: Parser>(child: P, input: Seq<u8>, j: int, k: int)
    requires
        j <= k,
        rep_ok_upto(child, input, k),
    ensures
        rep_ok_upto(child, input, j),
    decreases k - j,
{
    if j < k {
        lemma_rep_ok_monotone(child, input, j, k - 1);
    }
}

/// Parser that runs its child exactly `count` times, threading the
/// remaining input from one repetition into the next and collecting the
/// outputs in call order.
///
/// `count == 0` trivially succeeds with an empty collection.  On the k-th
/// repetition's failure the whole parser fails, rolls back to the input
/// present before the first repetition, and reports the failing index, the
/// offset at which the failing repetition began, and the child's error.
/// This is the one parser that allocates a variable-length result.
#[derive(Clone, Copy, Debug, PartialEq, Eq)]
pub struct Repeat<P> {
    /// How many times to run the child.
    pub count: usize,
    /// The parser to repeat.
    pub child: P,
}

impl<P: Parser> Parser for Repeat<P> {
    type Output = Vec<P::Output>;

    type Error = SeqError<P::Error>;

    open spec fn ok(&self, input: Seq<u8>) -> bool {
        rep_ok_upto(self.child, input, self.count as int)
    }

    open spec fn consumed(&self, input: Seq<u8>) -> int {
        rep_consumed(self.child, input, self.count as int)
    }

    open spec fn produces(&self, input: Seq<u8>, out: Vec<P::Output>) -> bool {
        rep_produces(self.child, input, self.count as int, out@)
    }

    open spec fn fails_with(&self, input: Seq<u8>, err: SeqError<P::Error>) -> bool {
        &&& err.step < self.count
        &&& rep_ok_upto(self.child, input, err.step as int)
        &&& !self.child.ok(rep_rest(self.child, input, err.step as int))
        &&& err.at == rep_consumed(self.child, input, err.step as int)
        &&& self.child.fails_with(rep_rest(self.child, input, err.step as int), err.child_error)
    }

    proof fn lemma_consumed_in_bounds(&self, input: Seq<u8>) {
        if self.ok(input) {
            lemma_rep_rest_is_skip(self.child, input, self.count as int);
        }
    }

    fn parse<'a>(&self, input: &'a [u8]) -> (step: Step<'a, Vec<P::Output>, SeqError<P::Error>>) {
        let mut out: Vec<P::Output> = Vec::new();
        let mut cur: &'a [u8] = input;
        let mut idx: usize = 0;
        while idx < self.count
            invariant
                idx <= self.count,
                rep_ok_upto(self.child, input@, idx as int),
                cur@ == rep_rest(self.child, input@, idx as int),
                rep_produces(self.child, input@, idx as int, out@),
            decreases self.count - idx,
        {
            match self.child.parse(cur) {
                (rest, Ok(x)) => {
                    proof {
                        assert(rep_rest(self.child, input@, idx + 1) == cur@.skip(
                            self.child.consumed(cur@),
                        ));
                        assert(rep_ok_upto(self.child, input@, idx + 1));
                    }
                    out.push(x);
                    cur = rest;
                    idx = idx + 1;
                },
                (_, Err(e)) => {
                    proof {
                        lemma_rep_rest_is_skip(self.child, input@, idx as int);
                        if rep_ok_upto(self.child, input@, self.count as int) {
                            lemma_rep_ok_monotone(
                                self.child,
                                input@,
                                idx as int + 1,
                                self.count as int,
                            );
                        }
                    }
                    let at = input.len() - cur.len();
                    return (
                        input,
                        Err(SeqError { at, step: idx, child_error: e }),
                    );
                },
            }
        }
        proof {
            lemma_rep_rest_is_skip(self.child, input@, self.count as int);
        }
        (cur, Ok(out))
    }
}

} // verus!
