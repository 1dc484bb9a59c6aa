use vstd::prelude::*;

use crate::errors::TakeError;
use crate::parser::Parser;
use crate::parser::Step;
use vstd::slice::slice_index_get;
use vstd::slice::slice_subrange;

verus! {

/// The unsigned 16-bit value that two little-endian bytes hold.
pub open spec fn spec_u16_from_le_bytes(s: Seq<u8>) -> u16
    recommends
        s.len() == 2,
{
    (s[0] as u16) | ((s[1] as u16) << 8)
}

/// The two little-endian bytes that hold an unsigned 16-bit value.
pub open spec fn spec_u16_to_le_bytes(x: u16) -> Seq<u8> {
    seq![
        (x & 0xff) as u8,
        ((x >> 8) & 0xff) as u8,
    ]
}

/// The unsigned 16-bit value that two big-endian bytes hold.
pub open spec fn spec_u16_from_be_bytes(s: Seq<u8>) -> u16
    recommends
        s.len() == 2,
{
    ((s[0] as u16) << 8) | (s[1] as u16)
}

/// The two big-endian bytes that hold an unsigned 16-bit value.
pub open spec fn spec_u16_to_be_bytes(x: u16) -> Seq<u8> {
    seq![
        ((x >> 8) & 0xff) as u8,
        (x & 0xff) as u8,
    ]
}

/// The unsigned 32-bit value that four little-endian bytes hold.
pub open spec fn spec_u32_from_le_bytes(s: Seq<u8>) -> u32
    recommends
        s.len() == 4,
{
    (s[0] as u32) | ((s[1] as u32) << 8) | ((s[2] as u32) << 16) | ((s[3] as u32) << 24)
}

/// The four little-endian bytes that hold an unsigned 32-bit value.
pub open spec fn spec_u32_to_le_bytes(x: u32) -> Seq<u8> {
    seq![
        (x & 0xff) as u8,
        ((x >> 8) & 0xff) as u8,
        ((x >> 16) & 0xff) as u8,
        ((x >> 24) & 0xff) as u8,
    ]
}

/// The unsigned 32-bit value that four big-endian bytes hold.
pub open spec fn spec_u32_from_be_bytes(s: Seq<u8>) -> u32
    recommends
        s.len() == 4,
{
    ((s[0] as u32) << 24) | ((s[1] as u32) << 16) | ((s[2] as u32) << 8) | (s[3] as u32)
}

/// The four big-endian bytes that hold an unsigned 32-bit value.
pub open spec fn spec_u32_to_be_bytes(x: u32) -> Seq<u8> {
    seq![
        ((x >> 24) & 0xff) as u8,
        ((x >> 16) & 0xff) as u8,
        ((x >> 8) & 0xff) as u8,
        (x & 0xff) as u8,
    ]
}

/// The unsigned 64-bit value that eight little-endian bytes hold.
pub open spec fn spec_u64_from_le_bytes(s: Seq<u8>) -> u64
    recommends
        s.len() == 8,
{
    (s[0] as u64) | ((s[1] as u64) << 8) | ((s[2] as u64) << 16) | ((s[3] as u64) << 24) | ((s[4] as u64) << 32) | ((s[5] as u64) << 40) | ((s[6] as u64) << 48) | ((s[7] as u64) << 56)
}

/// The eight little-endian bytes that hold an unsigned 64-bit value.
pub open spec fn spec_u64_to_le_bytes(x: u64) -> Seq<u8> {
    seq![
        (x & 0xff) as u8,
        ((x >> 8) & 0xff) as u8,
        ((x >> 16) & 0xff) as u8,
        ((x >> 24) & 0xff) as u8,
        ((x >> 32) & 0xff) as u8,
        ((x >> 40) & 0xff) as u8,
        ((x >> 48) & 0xff) as u8,
        ((x >> 56) & 0xff) as u8,
    ]
}

/// The unsigned 64-bit value that eight big-endian bytes hold.
pub open spec fn spec_u64_from_be_bytes(s: Seq<u8>) -> u64
    recommends
        s.len() == 8,
{
    ((s[0] as u64) << 56) | ((s[1] as u64) << 48) | ((s[2] as u64) << 40) | ((s[3] as u64) << 32) | ((s[4] as u64) << 24) | ((s[5] as u64) << 16) | ((s[6] as u64) << 8) | (s[7] as u64)
}

/// The eight big-endian bytes that hold an unsigned 64-bit value.
pub open spec fn spec_u64_to_be_bytes(x: u64) -> Seq<u8> {
    seq![
        ((x >> 56) & 0xff) as u8,
        ((x >> 48) & 0xff) as u8,
        ((x >> 40) & 0xff) as u8,
        ((x >> 32) & 0xff) as u8,
        ((x >> 24) & 0xff) as u8,
        ((x >> 16) & 0xff) as u8,
        ((x >> 8) & 0xff) as u8,
        (x & 0xff) as u8,
    ]
}

/// The unsigned 128-bit value that sixteen little-endian bytes hold.
pub open spec fn spec_u128_from_le_bytes(s: Seq<u8>) -> u128
    recommends
        s.len() == 16,
{
    (s[0] as u128) | ((s[1] as u128) << 8) | ((s[2] as u128) << 16) | ((s[3] as u128) << 24) | ((s[4] as u128) << 32) | ((s[5] as u128) << 40) | ((s[6] as u128) << 48) | ((s[7] as u128) << 56) | ((s[8] as u128) << 64) | ((s[9] as u128) << 72) | ((s[10] as u128) << 80) | ((s[11] as u128) << 88) | ((s[12] as u128) << 96) | ((s[13] as u128) << 104) | ((s[14] as u128) << 112) | ((s[15] as u128) << 120)
}

/// The sixteen little-endian bytes that hold an unsigned 128-bit value.
pub open spec fn spec_u128_to_le_bytes(x: u128) -> Seq<u8> {
    seq![
        (x & 0xff) as u8,
        ((x >> 8) & 0xff) as u8,
        ((x >> 16) & 0xff) as u8,
        ((x >> 24) & 0xff) as u8,
        ((x >> 32) & 0xff) as u8,
        ((x >> 40) & 0xff) as u8,
        ((x >> 48) & 0xff) as u8,
        ((x >> 56) & 0xff) as u8,
        ((x >> 64) & 0xff) as u8,
        ((x >> 72) & 0xff) as u8,
        ((x >> 80) & 0xff) as u8,
        ((x >> 88) & 0xff) as u8,
        ((x >> 96) & 0xff) as u8,
        ((x >> 104) & 0xff) as u8,
        ((x >> 112) & 0xff) as u8,
        ((x >> 120) & 0xff) as u8,
    ]
}

/// The unsigned 128-bit value that sixteen big-endian bytes hold.
pub open spec fn spec_u128_from_be_bytes(s: Seq<u8>) -> u128
    recommends
        s.len() == 16,
{
    ((s[0] as u128) << 120) | ((s[1] as u128) << 112) | ((s[2] as u128) << 104) | ((s[3] as u128) << 96) | ((s[4] as u128) << 88) | ((s[5] as u128) << 80) | ((s[6] as u128) << 72) | ((s[7] as u128) << 64) | ((s[8] as u128) << 56) | ((s[9] as u128) << 48) | ((s[10] as u128) << 40) | ((s[11] as u128) << 32) | ((s[12] as u128) << 24) | ((s[13] as u128) << 16) | ((s[14] as u128) << 8) | (s[15] as u128)
}

/// The sixteen big-endian bytes that hold an unsigned 128-bit value.
pub open spec fn spec_u128_to_be_bytes(x: u128) -> Seq<u8> {
    seq![
        ((x >> 120) & 0xff) as u8,
        ((x >> 112) & 0xff) as u8,
        ((x >> 104) & 0xff) as u8,
        ((x >> 96) & 0xff) as u8,
        ((x >> 88) & 0xff) as u8,
        ((x >> 80) & 0xff) as u8,
        ((x >> 72) & 0xff) as u8,
        ((x >> 64) & 0xff) as u8,
        ((x >> 56) & 0xff) as u8,
        ((x >> 48) & 0xff) as u8,
        ((x >> 40) & 0xff) as u8,
        ((x >> 32) & 0xff) as u8,
        ((x >> 24) & 0xff) as u8,
        ((x >> 16) & 0xff) as u8,
        ((x >> 8) & 0xff) as u8,
        (x & 0xff) as u8,
    ]
}

/// Parser for an unsigned 16-bit little-endian integer.
#[derive(Clone, Copy, Debug, PartialEq, Eq)]
pub struct U16Le;

impl Parser for U16Le {
    type Output = u16;

    type Error = TakeError;

    open spec fn ok(&self, input: Seq<u8>) -> bool {
        input.len() >= 2
    }

    open spec fn consumed(&self, input: Seq<u8>) -> int {
        2
    }

    open spec fn produces(&self, input: Seq<u8>, out: u16) -> bool {
        out == spec_u16_from_le_bytes(input.take(2))
    }

    open spec fn fails_with(&self, input: Seq<u8>, err: TakeError) -> bool {
        err.requested == 2 && err.available == input.len()
    }

    proof fn lemma_consumed_in_bounds(&self, input: Seq<u8>) {
    }

    fn parse<'a>(&self, input: &'a [u8]) -> (step: Step<'a, u16, TakeError>) {
        if input.len() >= 2 {
            let b0 = *slice_index_get(input, 0);
            let b1 = *slice_index_get(input, 1);
            let x: u16 = (b0 as u16) | ((b1 as u16) << 8);
            proof {
                assert(input@.take(2)[0] == input@[0]);
                assert(input@.take(2)[1] == input@[1]);
            }
            (slice_subrange(input, 2, input.len()), Ok(x))
        } else {
            (input, Err(TakeError { requested: 2, available: input.len() }))
        }
    }
}

/// Builds the parser for an unsigned 16-bit little-endian integer.
pub fn u16l() -> (p: U16Le)
    ensures
        p == U16Le,
{
    U16Le
}

/// Parser for a signed 16-bit little-endian integer.
#[derive(Clone, Copy, Debug, PartialEq, Eq)]
pub struct I16Le;

impl Parser for I16Le {
    type Output = i16;

    type Error = TakeError;

    open spec fn ok(&self, input: Seq<u8>) -> bool {
        input.len() >= 2
    }

    open spec fn consumed(&self, input: Seq<u8>) -> int {
        2
    }

    open spec fn produces(&self, input: Seq<u8>, out: i16) -> bool {
        out == spec_u16_from_le_bytes(input.take(2)) as i16
    }

    open spec fn fails_with(&self, input: Seq<u8>, err: TakeError) -> bool {
        err.requested == 2 && err.available == input.len()
    }

    proof fn lemma_consumed_in_bounds(&self, input: Seq<u8>) {
    }

    fn parse<'a>(&self, input: &'a [u8]) -> (step: Step<'a, i16, TakeError>) {
        if input.len() >= 2 {
            let b0 = *slice_index_get(input, 0);
            let b1 = *slice_index_get(input, 1);
            let x: u16 = (b0 as u16) | ((b1 as u16) << 8);
            proof {
                assert(input@.take(2)[0] == input@[0]);
                assert(input@.take(2)[1] == input@[1]);
            }
            (slice_subrange(input, 2, input.len()), Ok(#[verifier::truncate] (x as i16)))
        } else {
            (input, Err(TakeError { requested: 2, available: input.len() }))
        }
    }
}

/// Builds the parser for a signed 16-bit little-endian integer.
pub fn i16l() -> (p: I16Le)
    ensures
        p == I16Le,
{
    I16Le
}

/// Parser for an unsigned 16-bit big-endian integer.
#[derive(Clone, Copy, Debug, PartialEq, Eq)]
pub struct U16Be;

impl Parser for U16Be {
    type Output = u16;

    type Error = TakeError;

    open spec fn ok(&self, input: Seq<u8>) -> bool {
        input.len() >= 2
    }

    open spec fn consumed(&self, input: Seq<u8>) -> int {
        2
    }

    open spec fn produces(&self, input: Seq<u8>, out: u16) -> bool {
        out == spec_u16_from_be_bytes(input.take(2))
    }

    open spec fn fails_with(&self, input: Seq<u8>, err: TakeError) -> bool {
        err.requested == 2 && err.available == input.len()
    }

    proof fn lemma_consumed_in_bounds(&self, input: Seq<u8>) {
    }

    fn parse<'a>(&self, input: &'a [u8]) -> (step: Step<'a, u16, TakeError>) {
        if input.len() >= 2 {
            let b0 = *slice_index_get(input, 0);
            let b1 = *slice_index_get(input, 1);
            let x: u16 = ((b0 as u16) << 8) | (b1 as u16);
            proof {
                assert(input@.take(2)[0] == input@[0]);
                assert(input@.take(2)[1] == input@[1]);
            }
            (slice_subrange(input, 2, input.len()), Ok(x))
        } else {
            (input, Err(TakeError { requested: 2, available: input.len() }))
        }
    }
}

/// Builds the parser for an unsigned 16-bit big-endian integer.
pub fn u16b() -> (p: U16Be)
    ensures
        p == U16Be,
{
    U16Be
}

/// Parser for a signed 16-bit big-endian integer.
#[derive(Clone, Copy, Debug, PartialEq, Eq)]
pub struct I16Be;

impl Parser for I16Be {
    type Output = i16;

    type Error = TakeError;

    open spec fn ok(&self, input: Seq<u8>) -> bool {
        input.len() >= 2
    }

    open spec fn consumed(&self, input: Seq<u8>) -> int {
        2
    }

    open spec fn produces(&self, input: Seq<u8>, out: i16) -> bool {
        out == spec_u16_from_be_bytes(input.take(2)) as i16
    }

    open spec fn fails_with(&self, input: Seq<u8>, err: TakeError) -> bool {
        err.requested == 2 && err.available == input.len()
    }

    proof fn lemma_consumed_in_bounds(&self, input: Seq<u8>) {
    }

    fn parse<'a>(&self, input: &'a [u8]) -> (step: Step<'a, i16, TakeError>) {
        if input.len() >= 2 {
            let b0 = *slice_index_get(input, 0);
            let b1 = *slice_index_get(input, 1);
            let x: u16 = ((b0 as u16) << 8) | (b1 as u16);
            proof {
                assert(input@.take(2)[0] == input@[0]);
                assert(input@.take(2)[1] == input@[1]);
            }
            (slice_subrange(input, 2, input.len()), Ok(#[verifier::truncate] (x as i16)))
        } else {
            (input, Err(TakeError { requested: 2, available: input.len() }))
        }
    }
}

/// Builds the parser for a signed 16-bit big-endian integer.
pub fn i16b() -> (p: I16Be)
    ensures
        p == I16Be,
{
    I16Be
}

/// Parser for an unsigned 32-bit little-endian integer.
#[derive(Clone, Copy, Debug, PartialEq, Eq)]
pub struct U32Le;

impl Parser for U32Le {
    type Output = u32;

    type Error = TakeError;

    open spec fn ok(&self, input: Seq<u8>) -> bool {
        input.len() >= 4
    }

    open spec fn consumed(&self, input: Seq<u8>) -> int {
        4
    }

    open spec fn produces(&self, input: Seq<u8>, out: u32) -> bool {
        out == spec_u32_from_le_bytes(input.take(4))
    }

    open spec fn fails_with(&self, input: Seq<u8>, err: TakeError) -> bool {
        err.requested == 4 && err.available == input.len()
    }

    proof fn lemma_consumed_in_bounds(&self, input: Seq<u8>) {
    }

    fn parse<'a>(&self, input: &'a [u8]) -> (step: Step<'a, u32, TakeError>) {
        if input.len() >= 4 {
            let b0 = *slice_index_get(input, 0);
            let b1 = *slice_index_get(input, 1);
            let b2 = *slice_index_get(input, 2);
            let b3 = *slice_index_get(input, 3);
            let x: u32 = (b0 as u32) | ((b1 as u32) << 8) | ((b2 as u32) << 16) | ((b3 as u32) << 24);
            proof {
                assert(input@.take(4)[0] == input@[0]);
                assert(input@.take(4)[1] == input@[1]);
                assert(input@.take(4)[2] == input@[2]);
                assert(input@.take(4)[3] == input@[3]);
            }
            (slice_subrange(input, 4, input.len()), Ok(x))
        } else {
            (input, Err(TakeError { requested: 4, available: input.len() }))
        }
    }
}

/// Builds the parser for an unsigned 32-bit little-endian integer.
pub fn u32l() -> (p: U32Le)
    ensures
        p == U32Le,
{
    U32Le
}

/// Parser for a signed 32-bit little-endian integer.
#[derive(Clone, Copy, Debug, PartialEq, Eq)]
pub struct I32Le;

impl Parser for I32Le {
    type Output = i32;

    type Error = TakeError;

    open spec fn ok(&self, input: Seq<u8>) -> bool {
        input.len() >= 4
    }

    open spec fn consumed(&self, input: Seq<u8>) -> int {
        4
    }

    open spec fn produces(&self, input: Seq<u8>, out: i32) -> bool {
        out == spec_u32_from_le_bytes(input.take(4)) as i32
    }

    open spec fn fails_with(&self, input: Seq<u8>, err: TakeError) -> bool {
        err.requested == 4 && err.available == input.len()
    }

    proof fn lemma_consumed_in_bounds(&self, input: Seq<u8>) {
    }

    fn parse<'a>(&self, input: &'a [u8]) -> (step: Step<'a, i32, TakeError>) {
        if input.len() >= 4 {
            let b0 = *slice_index_get(input, 0);
            let b1 = *slice_index_get(input, 1);
            let b2 = *slice_index_get(input, 2);
            let b3 = *slice_index_get(input, 3);
            let x: u32 = (b0 as u32) | ((b1 as u32) << 8) | ((b2 as u32) << 16) | ((b3 as u32) << 24);
            proof {
                assert(input@.take(4)[0] == input@[0]);
                assert(input@.take(4)[1] == input@[1]);
                assert(input@.take(4)[2] == input@[2]);
                assert(input@.take(4)[3] == input@[3]);
            }
            (slice_subrange(input, 4, input.len()), Ok(#[verifier::truncate] (x as i32)))
        } else {
            (input, Err(TakeError { requested: 4, available: input.len() }))
        }
    }
}

/// Builds the parser for a signed 32-bit little-endian integer.
pub fn i32l() -> (p: I32Le)
    ensures
        p == I32Le,
{
    I32Le
}

/// Parser for an unsigned 32-bit big-endian integer.
#[derive(Clone, Copy, Debug, PartialEq, Eq)]
pub struct U32Be;

impl Parser for U32Be {
    type Output = u32;

    type Error = TakeError;

    open spec fn ok(&self, input: Seq<u8>) -> bool {
        input.len() >= 4
    }

    open spec fn consumed(&self, input: Seq<u8>) -> int {
        4
    }

    open spec fn produces(&self, input: Seq<u8>, out: u32) -> bool {
        out == spec_u32_from_be_bytes(input.take(4))
    }

    open spec fn fails_with(&self, input: Seq<u8>, err: TakeError) -> bool {
        err.requested == 4 && err.available == input.len()
    }

    proof fn lemma_consumed_in_bounds(&self, input: Seq<u8>) {
    }

    fn parse<'a>(&self, input: &'a [u8]) -> (step: Step<'a, u32, TakeError>) {
        if input.len() >= 4 {
            let b0 = *slice_index_get(input, 0);
            let b1 = *slice_index_get(input, 1);
            let b2 = *slice_index_get(input, 2);
            let b3 = *slice_index_get(input, 3);
            let x: u32 = ((b0 as u32) << 24) | ((b1 as u32) << 16) | ((b2 as u32) << 8) | (b3 as u32);
            proof {
                assert(input@.take(4)[0] == input@[0]);
                assert(input@.take(4)[1] == input@[1]);
                assert(input@.take(4)[2] == input@[2]);
                assert(input@.take(4)[3] == input@[3]);
            }
            (slice_subrange(input, 4, input.len()), Ok(x))
        } else {
            (input, Err(TakeError { requested: 4, available: input.len() }))
        }
    }
}

/// Builds the parser for an unsigned 32-bit big-endian integer.
pub fn u32b() -> (p: U32Be)
    ensures
        p == U32Be,
{
    U32Be
}

/// Parser for a signed 32-bit big-endian integer.
#[derive(Clone, Copy, Debug, PartialEq, Eq)]
pub struct I32Be;

impl Parser for I32Be {
    type Output = i32;

    type Error = TakeError;

    open spec fn ok(&self, input: Seq<u8>) -> bool {
        input.len() >= 4
    }

    open spec fn consumed(&self, input: Seq<u8>) -> int {
        4
    }

    open spec fn produces(&self, input: Seq<u8>, out: i32) -> bool {
        out == spec_u32_from_be_bytes(input.take(4)) as i32
    }

    open spec fn fails_with(&self, input: Seq<u8>, err: TakeError) -> bool {
        err.requested == 4 && err.available == input.len()
    }

    proof fn lemma_consumed_in_bounds(&self, input: Seq<u8>) {
    }

    fn parse<'a>(&self, input: &'a [u8]) -> (step: Step<'a, i32, TakeError>) {
        if input.len() >= 4 {
            let b0 = *slice_index_get(input, 0);
            let b1 = *slice_index_get(input, 1);
            let b2 = *slice_index_get(input, 2);
            let b3 = *slice_index_get(input, 3);
            let x: u32 = ((b0 as u32) << 24) | ((b1 as u32) << 16) | ((b2 as u32) << 8) | (b3 as u32);
            proof {
                assert(input@.take(4)[0] == input@[0]);
                assert(input@.take(4)[1] == input@[1]);
                assert(input@.take(4)[2] == input@[2]);
                assert(input@.take(4)[3] == input@[3]);
            }
            (slice_subrange(input, 4, input.len()), Ok(#[verifier::truncate] (x as i32)))
        } else {
            (input, Err(TakeError { requested: 4, available: input.len() }))
        }
    }
}

/// Builds the parser for a signed 32-bit big-endian integer.
pub fn i32b() -> (p: I32Be)
    ensures
        p == I32Be,
{
    I32Be
}

/// Parser for an unsigned 64-bit little-endian integer.
#[derive(Clone, Copy, Debug, PartialEq, Eq)]
pub struct U64Le;

impl Parser for U64Le {
    type Output = u64;

    type Error = TakeError;

    open spec fn ok(&self, input: Seq<u8>) -> bool {
        input.len() >= 8
    }

    open spec fn consumed(&self, input: Seq<u8>) -> int {
        8
    }

    open spec fn produces(&self, input: Seq<u8>, out: u64) -> bool {
        out == spec_u64_from_le_bytes(input.take(8))
    }

    open spec fn fails_with(&self, input: Seq<u8>, err: TakeError) -> bool {
        err.requested == 8 && err.available == input.len()
    }

    proof fn lemma_consumed_in_bounds(&self, input: Seq<u8>) {
    }

    fn parse<'a>(&self, input: &'a [u8]) -> (step: Step<'a, u64, TakeError>) {
        if input.len() >= 8 {
            let b0 = *slice_index_get(input, 0);
            let b1 = *slice_index_get(input, 1);
            let b2 = *slice_index_get(input, 2);
            let b3 = *slice_index_get(input, 3);
            let b4 = *slice_index_get(input, 4);
            let b5 = *slice_index_get(input, 5);
            let b6 = *slice_index_get(input, 6);
            let b7 = *slice_index_get(input, 7);
            let x: u64 = (b0 as u64) | ((b1 as u64) << 8) | ((b2 as u64) << 16) | ((b3 as u64) << 24) | ((b4 as u64) << 32) | ((b5 as u64) << 40) | ((b6 as u64) << 48) | ((b7 as u64) << 56);
            proof {
                assert(input@.take(8)[0] == input@[0]);
                assert(input@.take(8)[1] == input@[1]);
                assert(input@.take(8)[2] == input@[2]);
                assert(input@.take(8)[3] == input@[3]);
                assert(input@.take(8)[4] == input@[4]);
                assert(input@.take(8)[5] == input@[5]);
                assert(input@.take(8)[6] == input@[6]);
                assert(input@.take(8)[7] == input@[7]);
            }
            (slice_subrange(input, 8, input.len()), Ok(x))
        } else {
            (input, Err(TakeError { requested: 8, available: input.len() }))
        }
    }
}

/// Builds the parser for an unsigned 64-bit little-endian integer.
pub fn u64l() -> (p: U64Le)
    ensures
        p == U64Le,
{
    U64Le
}

/// Parser for a signed 64-bit little-endian integer.
#[derive(Clone, Copy, Debug, PartialEq, Eq)]
pub struct I64Le;

impl Parser for I64Le {
    type Output = i64;

    type Error = TakeError;

    open spec fn ok(&self, input: Seq<u8>) -> bool {
        input.len() >= 8
    }

    open spec fn consumed(&self, input: Seq<u8>) -> int {
        8
    }

    open spec fn produces(&self, input: Seq<u8>, out: i64) -> bool {
        out == spec_u64_from_le_bytes(input.take(8)) as i64
    }

    open spec fn fails_with(&self, input: Seq<u8>, err: TakeError) -> bool {
        err.requested == 8 && err.available == input.len()
    }

    proof fn lemma_consumed_in_bounds(&self, input: Seq<u8>) {
    }

    fn parse<'a>(&self, input: &'a [u8]) -> (step: Step<'a, i64, TakeError>) {
        if input.len() >= 8 {
            let b0 = *slice_index_get(input, 0);
            let b1 = *slice_index_get(input, 1);
            let b2 = *slice_index_get(input, 2);
            let b3 = *slice_index_get(input, 3);
            let b4 = *slice_index_get(input, 4);
            let b5 = *slice_index_get(input, 5);
            let b6 = *slice_index_get(input, 6);
            let b7 = *slice_index_get(input, 7);
            let x: u64 = (b0 as u64) | ((b1 as u64) << 8) | ((b2 as u64) << 16) | ((b3 as u64) << 24) | ((b4 as u64) << 32) | ((b5 as u64) << 40) | ((b6 as u64) << 48) | ((b7 as u64) << 56);
            proof {
                assert(input@.take(8)[0] == input@[0]);
                assert(input@.take(8)[1] == input@[1]);
                assert(input@.take(8)[2] == input@[2]);
                assert(input@.take(8)[3] == input@[3]);
                assert(input@.take(8)[4] == input@[4]);
                assert(input@.take(8)[5] == input@[5]);
                assert(input@.take(8)[6] == input@[6]);
                assert(input@.take(8)[7] == input@[7]);
            }
            (slice_subrange(input, 8, input.len()), Ok(#[verifier::truncate] (x as i64)))
        } else {
            (input, Err(TakeError { requested: 8, available: input.len() }))
        }
    }
}

/// Builds the parser for a signed 64-bit little-endian integer.
pub fn i64l() -> (p: I64Le)
    ensures
        p == I64Le,
{
    I64Le
}

/// Parser for an unsigned 64-bit big-endian integer.
#[derive(Clone, Copy, Debug, PartialEq, Eq)]
pub struct U64Be;

impl Parser for U64Be {
    type Output = u64;

    type Error = TakeError;

    open spec fn ok(&self, input: Seq<u8>) -> bool {
        input.len() >= 8
    }

    open spec fn consumed(&self, input: Seq<u8>) -> int {
        8
    }

    open spec fn produces(&self, input: Seq<u8>, out: u64) -> bool {
        out == spec_u64_from_be_bytes(input.take(8))
    }

    open spec fn fails_with(&self, input: Seq<u8>, err: TakeError) -> bool {
        err.requested == 8 && err.available == input.len()
    }

    proof fn lemma_consumed_in_bounds(&self, input: Seq<u8>) {
    }

    fn parse<'a>(&self, input: &'a [u8]) -> (step: Step<'a, u64, TakeError>) {
        if input.len() >= 8 {
            let b0 = *slice_index_get(input, 0);
            let b1 = *slice_index_get(input, 1);
            let b2 = *slice_index_get(input, 2);
            let b3 = *slice_index_get(input, 3);
            let b4 = *slice_index_get(input, 4);
            let b5 = *slice_index_get(input, 5);
            let b6 = *slice_index_get(input, 6);
            let b7 = *slice_index_get(input, 7);
            let x: u64 = ((b0 as u64) << 56) | ((b1 as u64) << 48) | ((b2 as u64) << 40) | ((b3 as u64) << 32) | ((b4 as u64) << 24) | ((b5 as u64) << 16) | ((b6 as u64) << 8) | (b7 as u64);
            proof {
                assert(input@.take(8)[0] == input@[0]);
                assert(input@.take(8)[1] == input@[1]);
                assert(input@.take(8)[2] == input@[2]);
                assert(input@.take(8)[3] == input@[3]);
                assert(input@.take(8)[4] == input@[4]);
                assert(input@.take(8)[5] == input@[5]);
                assert(input@.take(8)[6] == input@[6]);
                assert(input@.take(8)[7] == input@[7]);
            }
            (slice_subrange(input, 8, input.len()), Ok(x))
        } else {
            (input, Err(TakeError { requested: 8, available: input.len() }))
        }
    }
}

/// Builds the parser for an unsigned 64-bit big-endian integer.
pub fn u64b() -> (p: U64Be)
    ensures
        p == U64Be,
{
    U64Be
}

/// Parser for a signed 64-bit big-endian integer.
#[derive(Clone, Copy, Debug, PartialEq, Eq)]
pub struct I64Be;

impl Parser for I64Be {
    type Output = i64;

    type Error = TakeError;

    open spec fn ok(&self, input: Seq<u8>) -> bool {
        input.len() >= 8
    }

    open spec fn consumed(&self, input: Seq<u8>) -> int {
        8
    }

    open spec fn produces(&self, input: Seq<u8>, out: i64) -> bool {
        out == spec_u64_from_be_bytes(input.take(8)) as i64
    }

    open spec fn fails_with(&self, input: Seq<u8>, err: TakeError) -> bool {
        err.requested == 8 && err.available == input.len()
    }

    proof fn lemma_consumed_in_bounds(&self, input: Seq<u8>) {
    }

    fn parse<'a>(&self, input: &'a [u8]) -> (step: Step<'a, i64, TakeError>) {
        if input.len() >= 8 {
            let b0 = *slice_index_get(input, 0);
            let b1 = *slice_index_get(input, 1);
            let b2 = *slice_index_get(input, 2);
            let b3 = *slice_index_get(input, 3);
            let b4 = *slice_index_get(input, 4);
            let b5 = *slice_index_get(input, 5);
            let b6 = *slice_index_get(input, 6);
            let b7 = *slice_index_get(input, 7);
            let x: u64 = ((b0 as u64) << 56) | ((b1 as u64) << 48) | ((b2 as u64) << 40) | ((b3 as u64) << 32) | ((b4 as u64) << 24) | ((b5 as u64) << 16) | ((b6 as u64) << 8) | (b7 as u64);
            proof {
                assert(input@.take(8)[0] == input@[0]);
                assert(input@.take(8)[1] == input@[1]);
                assert(input@.take(8)[2] == input@[2]);
                assert(input@.take(8)[3] == input@[3]);
                assert(input@.take(8)[4] == input@[4]);
                assert(input@.take(8)[5] == input@[5]);
                assert(input@.take(8)[6] == input@[6]);
                assert(input@.take(8)[7] == input@[7]);
            }
            (slice_subrange(input, 8, input.len()), Ok(#[verifier::truncate] (x as i64)))
        } else {
            (input, Err(TakeError { requested: 8, available: input.len() }))
        }
    }
}

/// Builds the parser for a signed 64-bit big-endian integer.
pub fn i64b() -> (p: I64Be)
    ensures
        p == I64Be,
{
    I64Be
}

/// Parser for an unsigned 128-bit little-endian integer.
#[derive(Clone, Copy, Debug, PartialEq, Eq)]
pub struct U128Le;

impl Parser for U128Le {
    type Output = u128;

    type Error = TakeError;

    open spec fn ok(&self, input: Seq<u8>) -> bool {
        input.len() >= 16
    }

    open spec fn consumed(&self, input: Seq<u8>) -> int {
        16
    }

    open spec fn produces(&self, input: Seq<u8>, out: u128) -> bool {
        out == spec_u128_from_le_bytes(input.take(16))
    }

    open spec fn fails_with(&self, input: Seq<u8>, err: TakeError) -> bool {
        err.requested == 16 && err.available == input.len()
    }

    proof fn lemma_consumed_in_bounds(&self, input: Seq<u8>) {
    }

    fn parse<'a>(&self, input: &'a [u8]) -> (step: Step<'a, u128, TakeError>) {
        if input.len() >= 16 {
            let b0 = *slice_index_get(input, 0);
            let b1 = *slice_index_get(input, 1);
            let b2 = *slice_index_get(input, 2);
            let b3 = *slice_index_get(input, 3);
            let b4 = *slice_index_get(input, 4);
            let b5 = *slice_index_get(input, 5);
            let b6 = *slice_index_get(input, 6);
            let b7 = *slice_index_get(input, 7);
            let b8 = *slice_index_get(input, 8);
            let b9 = *slice_index_get(input, 9);
            let b10 = *slice_index_get(input, 10);
            let b11 = *slice_index_get(input, 11);
            let b12 = *slice_index_get(input, 12);
            let b13 = *slice_index_get(input, 13);
            let b14 = *slice_index_get(input, 14);
            let b15 = *slice_index_get(input, 15);
            let x: u128 = (b0 as u128) | ((b1 as u128) << 8) | ((b2 as u128) << 16) | ((b3 as u128) << 24) | ((b4 as u128) << 32) | ((b5 as u128) << 40) | ((b6 as u128) << 48) | ((b7 as u128) << 56) | ((b8 as u128) << 64) | ((b9 as u128) << 72) | ((b10 as u128) << 80) | ((b11 as u128) << 88) | ((b12 as u128) << 96) | ((b13 as u128) << 104) | ((b14 as u128) << 112) | ((b15 as u128) << 120);
            proof {
                assert(input@.take(16)[0] == input@[0]);
                assert(input@.take(16)[1] == input@[1]);
                assert(input@.take(16)[2] == input@[2]);
                assert(input@.take(16)[3] == input@[3]);
                assert(input@.take(16)[4] == input@[4]);
                assert(input@.take(16)[5] == input@[5]);
                assert(input@.take(16)[6] == input@[6]);
                assert(input@.take(16)[7] == input@[7]);
                assert(input@.take(16)[8] == input@[8]);
                assert(input@.take(16)[9] == input@[9]);
                assert(input@.take(16)[10] == input@[10]);
                assert(input@.take(16)[11] == input@[11]);
                assert(input@.take(16)[12] == input@[12]);
                assert(input@.take(16)[13] == input@[13]);
                assert(input@.take(16)[14] == input@[14]);
                assert(input@.take(16)[15] == input@[15]);
            }
            (slice_subrange(input, 16, input.len()), Ok(x))
        } else {
            (input, Err(TakeError { requested: 16, available: input.len() }))
        }
    }
}

/// Builds the parser for an unsigned 128-bit little-endian integer.
pub fn u128l() -> (p: U128Le)
    ensures
        p == U128Le,
{
    U128Le
}

/// Parser for a signed 128-bit little-endian integer.
#[derive(Clone, Copy, Debug, PartialEq, Eq)]
pub struct I128Le;

impl Parser for I128Le {
    type Output = i128;

    type Error = TakeError;

    open spec fn ok(&self, input: Seq<u8>) -> bool {
        input.len() >= 16
    }

    open spec fn consumed(&self, input: Seq<u8>) -> int {
        16
    }

    open spec fn produces(&self, input: Seq<u8>, out: i128) -> bool {
        out == spec_u128_from_le_bytes(input.take(16)) as i128
    }

    open spec fn fails_with(&self, input: Seq<u8>, err: TakeError) -> bool {
        err.requested == 16 && err.available == input.len()
    }

    proof fn lemma_consumed_in_bounds(&self, input: Seq<u8>) {
    }

    fn parse<'a>(&self, input: &'a [u8]) -> (step: Step<'a, i128, TakeError>) {
        if input.len() >= 16 {
            let b0 = *slice_index_get(input, 0);
            let b1 = *slice_index_get(input, 1);
            let b2 = *slice_index_get(input, 2);
            let b3 = *slice_index_get(input, 3);
            let b4 = *slice_index_get(input, 4);
            let b5 = *slice_index_get(input, 5);
            let b6 = *slice_index_get(input, 6);
            let b7 = *slice_index_get(input, 7);
            let b8 = *slice_index_get(input, 8);
            let b9 = *slice_index_get(input, 9);
            let b10 = *slice_index_get(input, 10);
            let b11 = *slice_index_get(input, 11);
            let b12 = *slice_index_get(input, 12);
            let b13 = *slice_index_get(input, 13);
            let b14 = *slice_index_get(input, 14);
            let b15 = *slice_index_get(input, 15);
            let x: u128 = (b0 as u128) | ((b1 as u128) << 8) | ((b2 as u128) << 16) | ((b3 as u128) << 24) | ((b4 as u128) << 32) | ((b5 as u128) << 40) | ((b6 as u128) << 48) | ((b7 as u128) << 56) | ((b8 as u128) << 64) | ((b9 as u128) << 72) | ((b10 as u128) << 80) | ((b11 as u128) << 88) | ((b12 as u128) << 96) | ((b13 as u128) << 104) | ((b14 as u128) << 112) | ((b15 as u128) << 120);
            proof {
                assert(input@.take(16)[0] == input@[0]);
                assert(input@.take(16)[1] == input@[1]);
                assert(input@.take(16)[2] == input@[2]);
                assert(input@.take(16)[3] == input@[3]);
                assert(input@.take(16)[4] == input@[4]);
                assert(input@.take(16)[5] == input@[5]);
                assert(input@.take(16)[6] == input@[6]);
                assert(input@.take(16)[7] == input@[7]);
                assert(input@.take(16)[8] == input@[8]);
                assert(input@.take(16)[9] == input@[9]);
                assert(input@.take(16)[10] == input@[10]);
                assert(input@.take(16)[11] == input@[11]);
                assert(input@.take(16)[12] == input@[12]);
                assert(input@.take(16)[13] == input@[13]);
                assert(input@.take(16)[14] == input@[14]);
                assert(input@.take(16)[15] == input@[15]);
            }
            (slice_subrange(input, 16, input.len()), Ok(#[verifier::truncate] (x as i128)))
        } else {
            (input, Err(TakeError { requested: 16, available: input.len() }))
        }
    }
}

/// Builds the parser for a signed 128-bit little-endian integer.
pub fn i128l() -> (p: I128Le)
    ensures
        p == I128Le,
{
    I128Le
}

/// Parser for an unsigned 128-bit big-endian integer.
#[derive(Clone, Copy, Debug, PartialEq, Eq)]
pub struct U128Be;

impl Parser for U128Be {
    type Output = u128;

    type Error = TakeError;

    open spec fn ok(&self, input: Seq<u8>) -> bool {
        input.len() >= 16
    }

    open spec fn consumed(&self, input: Seq<u8>) -> int {
        16
    }

    open spec fn produces(&self, input: Seq<u8>, out: u128) -> bool {
        out == spec_u128_from_be_bytes(input.take(16))
    }

    open spec fn fails_with(&self, input: Seq<u8>, err: TakeError) -> bool {
        err.requested == 16 && err.available == input.len()
    }

    proof fn lemma_consumed_in_bounds(&self, input: Seq<u8>) {
    }

    fn parse<'a>(&self, input: &'a [u8]) -> (step: Step<'a, u128, TakeError>) {
        if input.len() >= 16 {
            let b0 = *slice_index_get(input, 0);
            let b1 = *slice_index_get(input, 1);
            let b2 = *slice_index_get(input, 2);
            let b3 = *slice_index_get(input, 3);
            let b4 = *slice_index_get(input, 4);
            let b5 = *slice_index_get(input, 5);
            let b6 = *slice_index_get(input, 6);
            let b7 = *slice_index_get(input, 7);
            let b8 = *slice_index_get(input, 8);
            let b9 = *slice_index_get(input, 9);
            let b10 = *slice_index_get(input, 10);
            let b11 = *slice_index_get(input, 11);
            let b12 = *slice_index_get(input, 12);
            let b13 = *slice_index_get(input, 13);
            let b14 = *slice_index_get(input, 14);
            let b15 = *slice_index_get(input, 15);
            let x: u128 = ((b0 as u128) << 120) | ((b1 as u128) << 112) | ((b2 as u128) << 104) | ((b3 as u128) << 96) | ((b4 as u128) << 88) | ((b5 as u128) << 80) | ((b6 as u128) << 72) | ((b7 as u128) << 64) | ((b8 as u128) << 56) | ((b9 as u128) << 48) | ((b10 as u128) << 40) | ((b11 as u128) << 32) | ((b12 as u128) << 24) | ((b13 as u128) << 16) | ((b14 as u128) << 8) | (b15 as u128);
            proof {
                assert(input@.take(16)[0] == input@[0]);
                assert(input@.take(16)[1] == input@[1]);
                assert(input@.take(16)[2] == input@[2]);
                assert(input@.take(16)[3] == input@[3]);
                assert(input@.take(16)[4] == input@[4]);
                assert(input@.take(16)[5] == input@[5]);
                assert(input@.take(16)[6] == input@[6]);
                assert(input@.take(16)[7] == input@[7]);
                assert(input@.take(16)[8] == input@[8]);
                assert(input@.take(16)[9] == input@[9]);
                assert(input@.take(16)[10] == input@[10]);
                assert(input@.take(16)[11] == input@[11]);
                assert(input@.take(16)[12] == input@[12]);
                assert(input@.take(16)[13] == input@[13]);
                assert(input@.take(16)[14] == input@[14]);
                assert(input@.take(16)[15] == input@[15]);
            }
            (slice_subrange(input, 16, input.len()), Ok(x))
        } else {
            (input, Err(TakeError { requested: 16, available: input.len() }))
        }
    }
}

/// Builds the parser for an unsigned 128-bit big-endian integer.
pub fn u128b() -> (p: U128Be)
    ensures
        p == U128Be,
{
    U128Be
}

/// Parser for a signed 128-bit big-endian integer.
#[derive(Clone, Copy, Debug, PartialEq, Eq)]
pub struct I128Be;

impl Parser for I128Be {
    type Output = i128;

    type Error = TakeError;

    open spec fn ok(&self, input: Seq<u8>) -> bool {
        input.len() >= 16
    }

    open spec fn consumed(&self, input: Seq<u8>) -> int {
        16
    }

    open spec fn produces(&self, input: Seq<u8>, out: i128) -> bool {
        out == spec_u128_from_be_bytes(input.take(16)) as i128
    }

    open spec fn fails_with(&self, input: Seq<u8>, err: TakeError) -> bool {
        err.requested == 16 && err.available == input.len()
    }

    proof fn lemma_consumed_in_bounds(&self, input: Seq<u8>) {
    }

    fn parse<'a>(&self, input: &'a [u8]) -> (step: Step<'a, i128, TakeError>) {
        if input.len() >= 16 {
            let b0 = *slice_index_get(input, 0);
            let b1 = *slice_index_get(input, 1);
            let b2 = *slice_index_get(input, 2);
            let b3 = *slice_index_get(input, 3);
            let b4 = *slice_index_get(input, 4);
            let b5 = *slice_index_get(input, 5);
            let b6 = *slice_index_get(input, 6);
            let b7 = *slice_index_get(input, 7);
            let b8 = *slice_index_get(input, 8);
            let b9 = *slice_index_get(input, 9);
            let b10 = *slice_index_get(input, 10);
            let b11 = *slice_index_get(input, 11);
            let b12 = *slice_index_get(input, 12);
            let b13 = *slice_index_get(input, 13);
            let b14 = *slice_index_get(input, 14);
            let b15 = *slice_index_get(input, 15);
            let x: u128 = ((b0 as u128) << 120) | ((b1 as u128) << 112) | ((b2 as u128) << 104) | ((b3 as u128) << 96) | ((b4 as u128) << 88) | ((b5 as u128) << 80) | ((b6 as u128) << 72) | ((b7 as u128) << 64) | ((b8 as u128) << 56) | ((b9 as u128) << 48) | ((b10 as u128) << 40) | ((b11 as u128) << 32) | ((b12 as u128) << 24) | ((b13 as u128) << 16) | ((b14 as u128) << 8) | (b15 as u128);
            proof {
                assert(input@.take(16)[0] == input@[0]);
                assert(input@.take(16)[1] == input@[1]);
                assert(input@.take(16)[2] == input@[2]);
                assert(input@.take(16)[3] == input@[3]);
                assert(input@.take(16)[4] == input@[4]);
                assert(input@.take(16)[5] == input@[5]);
                assert(input@.take(16)[6] == input@[6]);
                assert(input@.take(16)[7] == input@[7]);
                assert(input@.take(16)[8] == input@[8]);
                assert(input@.take(16)[9] == input@[9]);
                assert(input@.take(16)[10] == input@[10]);
                assert(input@.take(16)[11] == input@[11]);
                assert(input@.take(16)[12] == input@[12]);
                assert(input@.take(16)[13] == input@[13]);
                assert(input@.take(16)[14] == input@[14]);
                assert(input@.take(16)[15] == input@[15]);
            }
            (slice_subrange(input, 16, input.len()), Ok(#[verifier::truncate] (x as i128)))
        } else {
            (input, Err(TakeError { requested: 16, available: input.len() }))
        }
    }
}

/// Builds the parser for a signed 128-bit big-endian integer.
pub fn i128b() -> (p: I128Be)
    ensures
        p == I128Be,
{
    I128Be
}

} // verus!
