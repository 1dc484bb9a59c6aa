use vstd::prelude::*;

use crate::combinators::And;
use crate::combinators::Finish;
use crate::combinators::Opt;
use crate::errors::FinishFailure;
use crate::errors::OptError;
use crate::errors::SeqError;
use crate::errors::TagError;
use crate::numbers::spec_u128_to_be_bytes;
use crate::numbers::spec_u128_to_le_bytes;
use crate::numbers::spec_u16_to_be_bytes;
use crate::numbers::spec_u16_to_le_bytes;
use crate::numbers::spec_u32_to_be_bytes;
use crate::numbers::spec_u32_to_le_bytes;
use crate::numbers::spec_u64_to_be_bytes;
use crate::numbers::spec_u64_to_le_bytes;
use crate::numbers::I128Be;
use crate::numbers::I128Le;
use crate::numbers::I16Be;
use crate::numbers::I16Le;
use crate::numbers::I32Be;
use crate::numbers::I32Le;
use crate::numbers::I64Be;
use crate::numbers::I64Le;
use crate::numbers::U128Be;
use crate::numbers::U128Le;
use crate::numbers::U16Be;
use crate::numbers::U16Le;
use crate::numbers::U32Be;
use crate::numbers::U32Le;
use crate::numbers::U64Be;
use crate::numbers::U64Le;
use crate::parser::Parser;
use crate::primitives::Tag;
use crate::primitives::Take;
use crate::repetition::lemma_rep_head_unroll;
use crate::repetition::lemma_rep_ok_monotone;
use crate::repetition::rep_consumed;
use crate::repetition::rep_produces;
use crate::repetition::rep_rest;
use crate::repetition::rep_ok_upto;
use crate::repetition::Repeat;

verus! {

/// On a buffer holding at least `count` bytes, `take(count)` succeeds,
/// produces exactly the first `count` bytes, and consumes exactly `count`,
/// so exactly `input.len() - count` bytes remain; on a shorter buffer it
/// fails (and, by the parsing contract, hands the buffer back unchanged).
pub proof fn lemma_take_exact(count: usize, input: Seq<u8>)
    ensures
        (Take { count }).ok(input) <==> count <= input.len(),
        (Take { count }).consumed(input) == count,
        forall|out: Vec<u8>|
            (Take { count }).produces(input, out) ==> out@ == input.take(count as int),
{
}

/// `take(0)` succeeds on every input, the empty one included, produces the
/// empty output and consumes nothing.
pub proof fn lemma_take_zero(input: Seq<u8>)
    ensures
        (Take { count: 0 }).ok(input),
        (Take { count: 0 }).consumed(input) == 0,
        forall|out: Vec<u8>| (Take { count: 0 }).produces(input, out) ==> out@ == Seq::<u8>::empty(),
{
    assert(input.take(0) =~= Seq::<u8>::empty());
}

/// `tag` succeeds exactly where the input's prefix of the key's length
/// equals the key; it then produces the key and consumes that prefix.  On
/// any mismatch or shortfall it fails, reporting the first position at
/// which the input stops matching (and, by the parsing contract, hands the
/// input back unchanged).
pub proof fn lemma_tag_match<'k>(t: Tag<'k>, input: Seq<u8>)
    ensures
        t.ok(input) <==> (input.len() >= t.key@.len() && input.take(t.key@.len() as int)
            == t.key@),
        t.consumed(input) == t.key@.len(),
        forall|out: Vec<u8>| t.produces(input, out) ==> out@ == t.key@,
        forall|err: TagError| t.fails_with(input, err) ==> !t.ok(input) && err.at < t.key@.len(),
{
}

/// Repeating a child `count >= 1` times is the same parser as the child
/// followed by `count - 1` further repetitions: same success, same number
/// of bytes consumed, and the same outputs, the child's first.  Applied
/// `count` times over, this says that `seq(count, child)` matches the
/// `count`-fold sequencing of `child` with itself.
pub proof fn lemma_seq_unrolls_to_and<P: Parser>(count: usize, child: P, input: Seq<u8>)
    requires
        count >= 1,
    ensures
        (Repeat { count, child }).ok(input) <==> (And {
            one: child,
            two: Repeat { count: (count - 1) as usize, child },
        }).ok(input),
        (Repeat { count, child }).consumed(input) == (And {
            one: child,
            two: Repeat { count: (count - 1) as usize, child },
        }).consumed(input),
        forall|v: P::Output, vs: Vec<P::Output>|
            #[trigger] (And { one: child, two: Repeat { count: (count - 1) as usize, child } }).produces(
                input,
                (v, vs),
            ) <==> rep_produces(child, input, count as int, seq![v] + vs@),
{
    let tail = input.skip(child.consumed(input));
    lemma_rep_head_unroll(child, input, count as int);
    assert forall|i: int| 1 <= i < count implies rep_rest(child, input, i) == rep_rest(
        child,
        tail,
        i - 1,
    ) by {
        lemma_rep_head_unroll(child, input, i);
    }
    assert forall|v: P::Output, vs: Vec<P::Output>|
        #[trigger] (And { one: child, two: Repeat { count: (count - 1) as usize, child } }).produces(
            input,
            (v, vs),
        ) <==> rep_produces(child, input, count as int, seq![v] + vs@) by {
        let s = seq![v] + vs@;
        assert(s[0] == v);
        assert(forall|j: int| 0 <= j < vs@.len() ==> s[j + 1] == vs@[j]);
        assert(rep_rest(child, input, 0) == input);
        if (And { one: child, two: Repeat { count: (count - 1) as usize, child } }).produces(
            input,
            (v, vs),
        ) {
            assert forall|i: int| 0 <= i < count implies child.produces(
                rep_rest(child, input, i),
                #[trigger] s[i],
            ) by {
                if i >= 1 {
                    assert(s[i] == vs@[i - 1]);
                    assert(child.produces(rep_rest(child, tail, i - 1), vs@[i - 1]));
                }
            }
        }
        if rep_produces(child, input, count as int, s) {
            assert forall|j: int| 0 <= j < count - 1 implies child.produces(
                rep_rest(child, tail, j),
                #[trigger] vs@[j],
            ) by {
                assert(s[j + 1] == vs@[j]);
                assert(child.produces(rep_rest(child, input, j + 1), s[j + 1]));
            }
        }
    }
}

/// Where the `k`-th repetition is the first to fail, `seq` reports exactly
/// that index, the offset at which that repetition began, and the child's
/// own error from that point; the whole repetition fails (and, by the
/// parsing contract, rolls back to the input before the first repetition).
pub proof fn lemma_seq_failing_index<P: Parser>(
    count: usize,
    child: P,
    input: Seq<u8>,
    err: SeqError<P::Error>,
)
    requires
        (Repeat { count, child }).fails_with(input, err),
    ensures
        !(Repeat { count, child }).ok(input),
        err.step < count,
        !child.ok(rep_rest(child, input, err.step as int)),
        forall|k: int| 0 <= k < err.step ==> child.ok(rep_rest(child, input, k)),
        err.at == rep_consumed(child, input, err.step as int),
        child.fails_with(rep_rest(child, input, err.step as int), err.child_error),
{
    if rep_ok_upto(child, input, count as int) {
        lemma_rep_ok_monotone(child, input, err.step as int + 1, count as int);
    }
    assert forall|k: int| 0 <= k < err.step implies child.ok(rep_rest(child, input, k)) by {
        lemma_rep_ok_monotone(child, input, k + 1, err.step as int);
    }
}

/// `opt` never fails: it succeeds on every input, reports the child's
/// success as a present value with the child's consumption, and the child's
/// failure as an absent value with nothing consumed.
pub proof fn lemma_opt_never_fails<P: Parser>(child: P, input: Seq<u8>)
    ensures
        (Opt { child }).ok(input),
        forall|err: OptError| !(Opt { child }).fails_with(input, err),
        forall|out: Option<P::Output>|
            (Opt { child }).produces(input, out) ==> (out is Some <==> child.ok(input)),
        !child.ok(input) ==> (Opt { child }).consumed(input) == 0,
{
}

/// Wrapping `opt` in `opt` changes nothing observable: the doubled parser
/// also always succeeds, consumes exactly what the single one consumes, and
/// produces the single one's outcome wrapped as present.
pub proof fn lemma_opt_idempotent<P: Parser>(child: P, input: Seq<u8>)
    ensures
        (Opt { child: Opt { child } }).ok(input),
        (Opt { child: Opt { child } }).consumed(input) == (Opt { child }).consumed(input),
        forall|out: Option<Option<P::Output>>|
            (Opt { child: Opt { child } }).produces(input, out) ==> (out matches Some(inner) && (Opt {
                child,
            }).produces(input, inner)),
{
}

/// `finish` succeeds exactly where its child succeeds and leaves zero bytes
/// remaining; it then produces what the child produces.  Where the child
/// succeeds on a proper prefix, the failure reports exactly how many bytes
/// were left over.
pub proof fn lemma_finish_exact<P: Parser>(child: P, input: Seq<u8>)
    ensures
        (Finish { child }).ok(input) <==> (child.ok(input) && child.consumed(input)
            == input.len()),
        forall|out: P::Output|
            (Finish { child }).produces(input, out) == child.produces(input, out),
        forall|err: FinishFailure<P::Error>|
            (Finish { child }).fails_with(input, err) && err is Leftover ==> child.ok(input)
                && err->Leftover_0.remaining == input.len() - child.consumed(input),
        forall|err: FinishFailure<P::Error>|
            (Finish { child }).fails_with(input, err) && err is Child ==> !child.ok(input)
                && child.fails_with(input, err->Child_0),
{
}

/// Round trip for `u16l`: encoding an unsigned 16-bit value as
/// its 2 little-endian bytes and decoding them yields exactly that
/// value, with zero bytes remaining.
pub proof fn lemma_u16l_roundtrip(v: u16)
    ensures
        spec_u16_to_le_bytes(v).len() == 2,
        U16Le.ok(spec_u16_to_le_bytes(v)),
        U16Le.consumed(spec_u16_to_le_bytes(v)) == spec_u16_to_le_bytes(v).len(),
        forall|out: u16| #[trigger] U16Le.produces(spec_u16_to_le_bytes(v), out) ==> out == v,
{
    let s = spec_u16_to_le_bytes(v);
    assert(s.take(2) =~= s);
    assert((((v & 0xff) as u8) as u16) | (((((v >> 8) & 0xff) as u8) as u16) << 8) == v) by (bit_vector);
}

/// Round trip for `i16l`: encoding a signed 16-bit value as its
/// 2 little-endian bytes and decoding them yields exactly that value,
/// with zero bytes remaining.
pub proof fn lemma_i16l_roundtrip(v: i16)
    ensures
        spec_u16_to_le_bytes(v as u16).len() == 2,
        I16Le.ok(spec_u16_to_le_bytes(v as u16)),
        I16Le.consumed(spec_u16_to_le_bytes(v as u16)) == spec_u16_to_le_bytes(v as u16).len(),
        forall|out: i16| #[trigger] I16Le.produces(spec_u16_to_le_bytes(v as u16), out) ==> out == v,
{
    let u = v as u16;
    let s = spec_u16_to_le_bytes(u);
    assert(s.take(2) =~= s);
    assert((((u & 0xff) as u8) as u16) | (((((u >> 8) & 0xff) as u8) as u16) << 8) == u) by (bit_vector);
    assert(((v as u16) as i16) == v) by (bit_vector);
}

/// Round trip for `u16b`: encoding an unsigned 16-bit value as
/// its 2 big-endian bytes and decoding them yields exactly that
/// value, with zero bytes remaining.
pub proof fn lemma_u16b_roundtrip(v: u16)
    ensures
        spec_u16_to_be_bytes(v).len() == 2,
        U16Be.ok(spec_u16_to_be_bytes(v)),
        U16Be.consumed(spec_u16_to_be_bytes(v)) == spec_u16_to_be_bytes(v).len(),
        forall|out: u16| #[trigger] U16Be.produces(spec_u16_to_be_bytes(v), out) ==> out == v,
{
    let s = spec_u16_to_be_bytes(v);
    assert(s.take(2) =~= s);
    assert((((((v >> 8) & 0xff) as u8) as u16) << 8) | (((v & 0xff) as u8) as u16) == v) by (bit_vector);
}

/// Round trip for `i16b`: encoding a signed 16-bit value as its
/// 2 big-endian bytes and decoding them yields exactly that value,
/// with zero bytes remaining.
pub proof fn lemma_i16b_roundtrip(v: i16)
    ensures
        spec_u16_to_be_bytes(v as u16).len() == 2,
        I16Be.ok(spec_u16_to_be_bytes(v as u16)),
        I16Be.consumed(spec_u16_to_be_bytes(v as u16)) == spec_u16_to_be_bytes(v as u16).len(),
        forall|out: i16| #[trigger] I16Be.produces(spec_u16_to_be_bytes(v as u16), out) ==> out == v,
{
    let u = v as u16;
    let s = spec_u16_to_be_bytes(u);
    assert(s.take(2) =~= s);
    assert((((((u >> 8) & 0xff) as u8) as u16) << 8) | (((u & 0xff) as u8) as u16) == u) by (bit_vector);
    assert(((v as u16) as i16) == v) by (bit_vector);
}

/// Round trip for `u32l`: encoding an unsigned 32-bit value as
/// its 4 little-endian bytes and decoding them yields exactly that
/// value, with zero bytes remaining.
pub proof fn lemma_u32l_roundtrip(v: u32)
    ensures
        spec_u32_to_le_bytes(v).len() == 4,
        U32Le.ok(spec_u32_to_le_bytes(v)),
        U32Le.consumed(spec_u32_to_le_bytes(v)) == spec_u32_to_le_bytes(v).len(),
        forall|out: u32| #[trigger] U32Le.produces(spec_u32_to_le_bytes(v), out) ==> out == v,
{
    let s = spec_u32_to_le_bytes(v);
    assert(s.take(4) =~= s);
    assert((((v & 0xff) as u8) as u32) | (((((v >> 8) & 0xff) as u8) as u32) << 8) | (((((v >> 16) & 0xff) as u8) as u32) << 16) | (((((v >> 24) & 0xff) as u8) as u32) << 24) == v) by (bit_vector);
}

/// Round trip for `i32l`: encoding a signed 32-bit value as its
/// 4 little-endian bytes and decoding them yields exactly that value,
/// with zero bytes remaining.
pub proof fn lemma_i32l_roundtrip(v: i32)
    ensures
        spec_u32_to_le_bytes(v as u32).len() == 4,
        I32Le.ok(spec_u32_to_le_bytes(v as u32)),
        I32Le.consumed(spec_u32_to_le_bytes(v as u32)) == spec_u32_to_le_bytes(v as u32).len(),
        forall|out: i32| #[trigger] I32Le.produces(spec_u32_to_le_bytes(v as u32), out) ==> out == v,
{
    let u = v as u32;
    let s = spec_u32_to_le_bytes(u);
    assert(s.take(4) =~= s);
    assert((((u & 0xff) as u8) as u32) | (((((u >> 8) & 0xff) as u8) as u32) << 8) | (((((u >> 16) & 0xff) as u8) as u32) << 16) | (((((u >> 24) & 0xff) as u8) as u32) << 24) == u) by (bit_vector);
    assert(((v as u32) as i32) == v) by (bit_vector);
}

/// Round trip for `u32b`: encoding an unsigned 32-bit value as
/// its 4 big-endian bytes and decoding them yields exactly that
/// value, with zero bytes remaining.
pub proof fn lemma_u32b_roundtrip(v: u32)
    ensures
        spec_u32_to_be_bytes(v).len() == 4,
        U32Be.ok(spec_u32_to_be_bytes(v)),
        U32Be.consumed(spec_u32_to_be_bytes(v)) == spec_u32_to_be_bytes(v).len(),
        forall|out: u32| #[trigger] U32Be.produces(spec_u32_to_be_bytes(v), out) ==> out == v,
{
    let s = spec_u32_to_be_bytes(v);
    assert(s.take(4) =~= s);
    assert((((((v >> 24) & 0xff) as u8) as u32) << 24) | (((((v >> 16) & 0xff) as u8) as u32) << 16) | (((((v >> 8) & 0xff) as u8) as u32) << 8) | (((v & 0xff) as u8) as u32) == v) by (bit_vector);
}

/// Round trip for `i32b`: encoding a signed 32-bit value as its
/// 4 big-endian bytes and decoding them yields exactly that value,
/// with zero bytes remaining.
pub proof fn lemma_i32b_roundtrip(v: i32)
    ensures
        spec_u32_to_be_bytes(v as u32).len() == 4,
        I32Be.ok(spec_u32_to_be_bytes(v as u32)),
        I32Be.consumed(spec_u32_to_be_bytes(v as u32)) == spec_u32_to_be_bytes(v as u32).len(),
        forall|out: i32| #[trigger] I32Be.produces(spec_u32_to_be_bytes(v as u32), out) ==> out == v,
{
    let u = v as u32;
    let s = spec_u32_to_be_bytes(u);
    assert(s.take(4) =~= s);
    assert((((((u >> 24) & 0xff) as u8) as u32) << 24) | (((((u >> 16) & 0xff) as u8) as u32) << 16) | (((((u >> 8) & 0xff) as u8) as u32) << 8) | (((u & 0xff) as u8) as u32) == u) by (bit_vector);
    assert(((v as u32) as i32) == v) by (bit_vector);
}

/// Round trip for `u64l`: encoding an unsigned 64-bit value as
/// its 8 little-endian bytes and decoding them yields exactly that
/// value, with zero bytes remaining.
pub proof fn lemma_u64l_roundtrip(v: u64)
    ensures
        spec_u64_to_le_bytes(v).len() == 8,
        U64Le.ok(spec_u64_to_le_bytes(v)),
        U64Le.consumed(spec_u64_to_le_bytes(v)) == spec_u64_to_le_bytes(v).len(),
        forall|out: u64| #[trigger] U64Le.produces(spec_u64_to_le_bytes(v), out) ==> out == v,
{
    let s = spec_u64_to_le_bytes(v);
    assert(s.take(8) =~= s);
    assert((((v & 0xff) as u8) as u64) | (((((v >> 8) & 0xff) as u8) as u64) << 8) | (((((v >> 16) & 0xff) as u8) as u64) << 16) | (((((v >> 24) & 0xff) as u8) as u64) << 24) | (((((v >> 32) & 0xff) as u8) as u64) << 32) | (((((v >> 40) & 0xff) as u8) as u64) << 40) | (((((v >> 48) & 0xff) as u8) as u64) << 48) | (((((v >> 56) & 0xff) as u8) as u64) << 56) == v) by (bit_vector);
}

/// Round trip for `i64l`: encoding a signed 64-bit value as its
/// 8 little-endian bytes and decoding them yields exactly that value,
/// with zero bytes remaining.
pub proof fn lemma_i64l_roundtrip(v: i64)
    ensures
        spec_u64_to_le_bytes(v as u64).len() == 8,
        I64Le.ok(spec_u64_to_le_bytes(v as u64)),
        I64Le.consumed(spec_u64_to_le_bytes(v as u64)) == spec_u64_to_le_bytes(v as u64).len(),
        forall|out: i64| #[trigger] I64Le.produces(spec_u64_to_le_bytes(v as u64), out) ==> out == v,
{
    let u = v as u64;
    let s = spec_u64_to_le_bytes(u);
    assert(s.take(8) =~= s);
    assert((((u & 0xff) as u8) as u64) | (((((u >> 8) & 0xff) as u8) as u64) << 8) | (((((u >> 16) & 0xff) as u8) as u64) << 16) | (((((u >> 24) & 0xff) as u8) as u64) << 24) | (((((u >> 32) & 0xff) as u8) as u64) << 32) | (((((u >> 40) & 0xff) as u8) as u64) << 40) | (((((u >> 48) & 0xff) as u8) as u64) << 48) | (((((u >> 56) & 0xff) as u8) as u64) << 56) == u) by (bit_vector);
    assert(((v as u64) as i64) == v) by (bit_vector);
}

/// Round trip for `u64b`: encoding an unsigned 64-bit value as
/// its 8 big-endian bytes and decoding them yields exactly that
/// value, with zero bytes remaining.
pub proof fn lemma_u64b_roundtrip(v: u64)
    ensures
        spec_u64_to_be_bytes(v).len() == 8,
        U64Be.ok(spec_u64_to_be_bytes(v)),
        U64Be.consumed(spec_u64_to_be_bytes(v)) == spec_u64_to_be_bytes(v).len(),
        forall|out: u64| #[trigger] U64Be.produces(spec_u64_to_be_bytes(v), out) ==> out == v,
{
    let s = spec_u64_to_be_bytes(v);
    assert(s.take(8) =~= s);
    assert((((((v >> 56) & 0xff) as u8) as u64) << 56) | (((((v >> 48) & 0xff) as u8) as u64) << 48) | (((((v >> 40) & 0xff) as u8) as u64) << 40) | (((((v >> 32) & 0xff) as u8) as u64) << 32) | (((((v >> 24) & 0xff) as u8) as u64) << 24) | (((((v >> 16) & 0xff) as u8) as u64) << 16) | (((((v >> 8) & 0xff) as u8) as u64) << 8) | (((v & 0xff) as u8) as u64) == v) by (bit_vector);
}

/// Round trip for `i64b`: encoding a signed 64-bit value as its
/// 8 big-endian bytes and decoding them yields exactly that value,
/// with zero bytes remaining.
pub proof fn lemma_i64b_roundtrip(v: i64)
    ensures
        spec_u64_to_be_bytes(v as u64).len() == 8,
        I64Be.ok(spec_u64_to_be_bytes(v as u64)),
        I64Be.consumed(spec_u64_to_be_bytes(v as u64)) == spec_u64_to_be_bytes(v as u64).len(),
        forall|out: i64| #[trigger] I64Be.produces(spec_u64_to_be_bytes(v as u64), out) ==> out == v,
{
    let u = v as u64;
    let s = spec_u64_to_be_bytes(u);
    assert(s.take(8) =~= s);
    assert((((((u >> 56) & 0xff) as u8) as u64) << 56) | (((((u >> 48) & 0xff) as u8) as u64) << 48) | (((((u >> 40) & 0xff) as u8) as u64) << 40) | (((((u >> 32) & 0xff) as u8) as u64) << 32) | (((((u >> 24) & 0xff) as u8) as u64) << 24) | (((((u >> 16) & 0xff) as u8) as u64) << 16) | (((((u >> 8) & 0xff) as u8) as u64) << 8) | (((u & 0xff) as u8) as u64) == u) by (bit_vector);
    assert(((v as u64) as i64) == v) by (bit_vector);
}

/// Round trip for `u128l`: encoding an unsigned 128-bit value as
/// its 16 little-endian bytes and decoding them yields exactly that
/// value, with zero bytes remaining.
pub proof fn lemma_u128l_roundtrip(v: u128)
    ensures
        spec_u128_to_le_bytes(v).len() == 16,
        U128Le.ok(spec_u128_to_le_bytes(v)),
        U128Le.consumed(spec_u128_to_le_bytes(v)) == spec_u128_to_le_bytes(v).len(),
        forall|out: u128| #[trigger] U128Le.produces(spec_u128_to_le_bytes(v), out) ==> out == v,
{
    let s = spec_u128_to_le_bytes(v);
    assert(s.take(16) =~= s);
    assert((((v & 0xff) as u8) as u128) | (((((v >> 8) & 0xff) as u8) as u128) << 8) | (((((v >> 16) & 0xff) as u8) as u128) << 16) | (((((v >> 24) & 0xff) as u8) as u128) << 24) | (((((v >> 32) & 0xff) as u8) as u128) << 32) | (((((v >> 40) & 0xff) as u8) as u128) << 40) | (((((v >> 48) & 0xff) as u8) as u128) << 48) | (((((v >> 56) & 0xff) as u8) as u128) << 56) | (((((v >> 64) & 0xff) as u8) as u128) << 64) | (((((v >> 72) & 0xff) as u8) as u128) << 72) | (((((v >> 80) & 0xff) as u8) as u128) << 80) | (((((v >> 88) & 0xff) as u8) as u128) << 88) | (((((v >> 96) & 0xff) as u8) as u128) << 96) | (((((v >> 104) & 0xff) as u8) as u128) << 104) | (((((v >> 112) & 0xff) as u8) as u128) << 112) | (((((v >> 120) & 0xff) as u8) as u128) << 120) == v) by (bit_vector);
}

/// Round trip for `i128l`: encoding a signed 128-bit value as its
/// 16 little-endian bytes and decoding them yields exactly that value,
/// with zero bytes remaining.
pub proof fn lemma_i128l_roundtrip(v: i128)
    ensures
        spec_u128_to_le_bytes(v as u128).len() == 16,
        I128Le.ok(spec_u128_to_le_bytes(v as u128)),
        I128Le.consumed(spec_u128_to_le_bytes(v as u128)) == spec_u128_to_le_bytes(v as u128).len(),
        forall|out: i128| #[trigger] I128Le.produces(spec_u128_to_le_bytes(v as u128), out) ==> out == v,
{
    let u = v as u128;
    let s = spec_u128_to_le_bytes(u);
    assert(s.take(16) =~= s);
    assert((((u & 0xff) as u8) as u128) | (((((u >> 8) & 0xff) as u8) as u128) << 8) | (((((u >> 16) & 0xff) as u8) as u128) << 16) | (((((u >> 24) & 0xff) as u8) as u128) << 24) | (((((u >> 32) & 0xff) as u8) as u128) << 32) | (((((u >> 40) & 0xff) as u8) as u128) << 40) | (((((u >> 48) & 0xff) as u8) as u128) << 48) | (((((u >> 56) & 0xff) as u8) as u128) << 56) | (((((u >> 64) & 0xff) as u8) as u128) << 64) | (((((u >> 72) & 0xff) as u8) as u128) << 72) | (((((u >> 80) & 0xff) as u8) as u128) << 80) | (((((u >> 88) & 0xff) as u8) as u128) << 88) | (((((u >> 96) & 0xff) as u8) as u128) << 96) | (((((u >> 104) & 0xff) as u8) as u128) << 104) | (((((u >> 112) & 0xff) as u8) as u128) << 112) | (((((u >> 120) & 0xff) as u8) as u128) << 120) == u) by (bit_vector);
    assert(((v as u128) as i128) == v) by (bit_vector);
}

/// Round trip for `u128b`: encoding an unsigned 128-bit value as
/// its 16 big-endian bytes and decoding them yields exactly that
/// value, with zero bytes remaining.
pub proof fn lemma_u128b_roundtrip(v: u128)
    ensures
        spec_u128_to_be_bytes(v).len() == 16,
        U128Be.ok(spec_u128_to_be_bytes(v)),
        U128Be.consumed(spec_u128_to_be_bytes(v)) == spec_u128_to_be_bytes(v).len(),
        forall|out: u128| #[trigger] U128Be.produces(spec_u128_to_be_bytes(v), out) ==> out == v,
{
    let s = spec_u128_to_be_bytes(v);
    assert(s.take(16) =~= s);
    assert((((((v >> 120) & 0xff) as u8) as u128) << 120) | (((((v >> 112) & 0xff) as u8) as u128) << 112) | (((((v >> 104) & 0xff) as u8) as u128) << 104) | (((((v >> 96) & 0xff) as u8) as u128) << 96) | (((((v >> 88) & 0xff) as u8) as u128) << 88) | (((((v >> 80) & 0xff) as u8) as u128) << 80) | (((((v >> 72) & 0xff) as u8) as u128) << 72) | (((((v >> 64) & 0xff) as u8) as u128) << 64) | (((((v >> 56) & 0xff) as u8) as u128) << 56) | (((((v >> 48) & 0xff) as u8) as u128) << 48) | (((((v >> 40) & 0xff) as u8) as u128) << 40) | (((((v >> 32) & 0xff) as u8) as u128) << 32) | (((((v >> 24) & 0xff) as u8) as u128) << 24) | (((((v >> 16) & 0xff) as u8) as u128) << 16) | (((((v >> 8) & 0xff) as u8) as u128) << 8) | (((v & 0xff) as u8) as u128) == v) by (bit_vector);
}

/// Round trip for `i128b`: encoding a signed 128-bit value as its
/// 16 big-endian bytes and decoding them yields exactly that value,
/// with zero bytes remaining.
pub proof fn lemma_i128b_roundtrip(v: i128)
    ensures
        spec_u128_to_be_bytes(v as u128).len() == 16,
        I128Be.ok(spec_u128_to_be_bytes(v as u128)),
        I128Be.consumed(spec_u128_to_be_bytes(v as u128)) == spec_u128_to_be_bytes(v as u128).len(),
        forall|out: i128| #[trigger] I128Be.produces(spec_u128_to_be_bytes(v as u128), out) ==> out == v,
{
    let u = v as u128;
    let s = spec_u128_to_be_bytes(u);
    assert(s.take(16) =~= s);
    assert((((((u >> 120) & 0xff) as u8) as u128) << 120) | (((((u >> 112) & 0xff) as u8) as u128) << 112) | (((((u >> 104) & 0xff) as u8) as u128) << 104) | (((((u >> 96) & 0xff) as u8) as u128) << 96) | (((((u >> 88) & 0xff) as u8) as u128) << 88) | (((((u >> 80) & 0xff) as u8) as u128) << 80) | (((((u >> 72) & 0xff) as u8) as u128) << 72) | (((((u >> 64) & 0xff) as u8) as u128) << 64) | (((((u >> 56) & 0xff) as u8) as u128) << 56) | (((((u >> 48) & 0xff) as u8) as u128) << 48) | (((((u >> 40) & 0xff) as u8) as u128) << 40) | (((((u >> 32) & 0xff) as u8) as u128) << 32) | (((((u >> 24) & 0xff) as u8) as u128) << 24) | (((((u >> 16) & 0xff) as u8) as u128) << 16) | (((((u >> 8) & 0xff) as u8) as u128) << 8) | (((u & 0xff) as u8) as u128) == u) by (bit_vector);
    assert(((v as u128) as i128) == v) by (bit_vector);
}


} // verus!
