use vstd::prelude::*;

use crate::errors::ByteError;
use crate::errors::TagError;
use crate::errors::TakeError;
use crate::parser::Parser;
use crate::parser::Step;
use vstd::slice::slice_index_get;
use vstd::slice::slice_subrange;
use vstd::slice::slice_to_vec;

verus! {

/// Parser that consumes exactly one byte and produces it.
#[derive(Clone, Copy, Debug, PartialEq, Eq)]
pub struct Byte;

impl Parser for Byte {
    type Output = u8;

    type Error = ByteError;

    open spec fn ok(&self, input: Seq<u8>) -> bool {
        input.len() >= 1
    }

    open spec fn consumed(&self, input: Seq<u8>) -> int {
        1
    }

    open spec fn produces(&self, input: Seq<u8>, out: u8) -> bool {
        out == input[0]
    }

    open spec fn fails_with(&self, input: Seq<u8>, err: ByteError) -> bool {
        input.len() == 0
    }

    proof fn lemma_consumed_in_bounds(&self, input: Seq<u8>) {
    }

    fn parse<'a>(&self, input: &'a [u8]) -> (step: Step<'a, u8, ByteError>) {
        if input.len() >= 1 {
            let out = *slice_index_get(input, 0);
            let rest = slice_subrange(input, 1, input.len());
            (rest, Ok(out))
        } else {
            (input, Err(ByteError))
        }
    }
}

/// Builds the parser that consumes exactly one byte.
pub fn byte() -> (p: Byte)
    ensures
        p == Byte,
{
    Byte
}

/// Parser that consumes exactly `count` bytes and produces them.
///
/// `count == 0` succeeds on every input, the empty one included.
#[derive(Clone, Copy, Debug, PartialEq, Eq)]
pub struct Take {
    /// How many bytes to consume.
    pub count: usize,
}

impl Parser for Take {
    type Output = Vec<u8>;

    type Error = TakeError;

    open spec fn ok(&self, input: Seq<u8>) -> bool {
        self.count <= input.len()
    }

    open spec fn consumed(&self, input: Seq<u8>) -> int {
        self.count as int
    }

    open spec fn produces(&self, input: Seq<u8>, out: Vec<u8>) -> bool {
        out@ == input.take(self.count as int)
    }

    open spec fn fails_with(&self, input: Seq<u8>, err: TakeError) -> bool {
        err.requested == self.count && err.available == input.len()
    }

    proof fn lemma_consumed_in_bounds(&self, input: Seq<u8>) {
    }

    fn parse<'a>(&self, input: &'a [u8]) -> (step: Step<'a, Vec<u8>, TakeError>) {
        if self.count <= input.len() {
            let out = slice_to_vec(slice_subrange(input, 0, self.count));
            let rest = slice_subrange(input, self.count, input.len());
            (rest, Ok(out))
        } else {
            (input, Err(TakeError { requested: self.count, available: input.len() }))
        }
    }
}

/// Builds the parser that consumes exactly `count` bytes.
pub fn take(count: usize) -> (p: Take)
    ensures
        p == (Take { count }),
{
    Take { count }
}

/// Parser that matches the exact byte sequence `key` at the front of the
/// input and produces the matched bytes.
///
/// On any mismatch or shortfall it fails, reporting where the input stopped
/// matching, and rolls back to the pre-attempt input.
#[derive(Clone, Copy, Debug, PartialEq, Eq)]
pub struct Tag<'k> {
    /// The bytes the input must begin with.
    pub key: &'k [u8],
}

impl<'k> Parser for Tag<'k> {
    type Output = Vec<u8>;

    type Error = TagError;

    open spec fn ok(&self, input: Seq<u8>) -> bool {
        input.len() >= self.key@.len() && input.take(self.key@.len() as int) == self.key@
    }

    open spec fn consumed(&self, input: Seq<u8>) -> int {
        self.key@.len() as int
    }

    open spec fn produces(&self, input: Seq<u8>, out: Vec<u8>) -> bool {
        out@ == self.key@
    }

    open spec fn fails_with(&self, input: Seq<u8>, err: TagError) -> bool {
        &&& !self.ok(input)
        &&& err.at < self.key@.len()
        &&& forall|j: int| 0 <= j < err.at ==> j < input.len() && input[j] == self.key@[j]
        &&& (err.at >= input.len() || input[err.at as int] != self.key@[err.at as int])
    }

    proof fn lemma_consumed_in_bounds(&self, input: Seq<u8>) {
    }

    fn parse<'a>(&self, input: &'a [u8]) -> (step: Step<'a, Vec<u8>, TagError>) {
        let klen = self.key.len();
        let mut i: usize = 0;
        while i < klen
            invariant
                i <= klen,
                i <= input@.len(),
                klen == self.key@.len(),
                forall|j: int| 0 <= j < i ==> j < input@.len() && input@[j] == self.key@[j],
            decreases klen - i,
        {
            if i >= input.len() {
                proof {
                    assert(input@.len() < self.key@.len());
                }
                return (input, Err(TagError { at: i }));
            }
            if *slice_index_get(input, i) != *slice_index_get(self.key, i) {
                proof {
                    if input@.len() >= klen {
                        assert(input@.take(klen as int)[i as int] == input@[i as int]);
                    }
                }
                return (input, Err(TagError { at: i }));
            }
            i += 1;
        }
        proof {
            assert(input@.take(klen as int) =~= self.key@);
        }
        let out = slice_to_vec(slice_subrange(input, 0, klen));
        let rest = slice_subrange(input, klen, input.len());
        (rest, Ok(out))
    }
}

/// Builds the parser that matches the exact byte sequence `key`.
pub fn tag<'k>(key: &'k [u8]) -> (p: Tag<'k>)
    ensures
        p == (Tag { key }),
{
    Tag { key }
}

} // verus!
