//! Composable decoders for fixed binary formats.
//!
//! A decoder for a binary format is assembled by wiring together primitive
//! parsers (`byte`, `take`, `tag`, fixed-width integer decoders) with
//! combinators (`and`, `or`, `seq`, `opt`, `finish`).  A parser is a small
//! value implementing the [`Parser`] trait: one parsing step maps the
//! remaining input to a new remaining input plus a success or failure
//! outcome.  Every parser's behaviour is pinned down by specification
//! functions, and every implementation is verified against them:
//!
//! * on success, the returned remaining input is the given input advanced by
//!   exactly the number of bytes consumed;
//! * on failure, the returned remaining input equals the given input
//!   (rollback to entry), and the reported error is determined by the input;
//! * reading past the end of the buffer is impossible: a shortfall always
//!   surfaces as an error value, never as a fault.

mod combinators;
mod errors;
mod laws;
mod numbers;
mod parser;
mod primitives;
mod repetition;

pub use combinators::and;
pub use combinators::finish;
pub use combinators::opt;
pub use combinators::or;
pub use combinators::And;
pub use combinators::Finish;
pub use combinators::Opt;
pub use combinators::Or;
pub use combinators::OrOutput;
pub use errors::AndError;
pub use errors::ByteError;
pub use errors::FinishError;
pub use errors::FinishFailure;
pub use errors::OptError;
pub use errors::SeqError;
pub use errors::TagError;
pub use errors::TakeError;
pub use laws::lemma_finish_exact;
pub use laws::lemma_i128b_roundtrip;
pub use laws::lemma_i128l_roundtrip;
pub use laws::lemma_i16b_roundtrip;
pub use laws::lemma_i16l_roundtrip;
pub use laws::lemma_i32b_roundtrip;
pub use laws::lemma_i32l_roundtrip;
pub use laws::lemma_i64b_roundtrip;
pub use laws::lemma_i64l_roundtrip;
pub use laws::lemma_u128b_roundtrip;
pub use laws::lemma_u128l_roundtrip;
pub use laws::lemma_u16b_roundtrip;
pub use laws::lemma_u16l_roundtrip;
pub use laws::lemma_u32b_roundtrip;
pub use laws::lemma_u32l_roundtrip;
pub use laws::lemma_u64b_roundtrip;
pub use laws::lemma_u64l_roundtrip;
pub use laws::lemma_opt_idempotent;
pub use laws::lemma_opt_never_fails;
pub use laws::lemma_seq_failing_index;
pub use laws::lemma_seq_unrolls_to_and;
pub use laws::lemma_tag_match;
pub use laws::lemma_take_exact;
pub use laws::lemma_take_zero;
pub use numbers::i128b;
pub use numbers::i128l;
pub use numbers::i16b;
pub use numbers::i16l;
pub use numbers::i32b;
pub use numbers::i32l;
pub use numbers::i64b;
pub use numbers::i64l;
pub use numbers::spec_u128_from_be_bytes;
pub use numbers::spec_u128_from_le_bytes;
pub use numbers::spec_u128_to_be_bytes;
pub use numbers::spec_u128_to_le_bytes;
pub use numbers::spec_u16_from_be_bytes;
pub use numbers::spec_u16_from_le_bytes;
pub use numbers::spec_u16_to_be_bytes;
pub use numbers::spec_u16_to_le_bytes;
pub use numbers::spec_u32_from_be_bytes;
pub use numbers::spec_u32_from_le_bytes;
pub use numbers::spec_u32_to_be_bytes;
pub use numbers::spec_u32_to_le_bytes;
pub use numbers::spec_u64_from_be_bytes;
pub use numbers::spec_u64_from_le_bytes;
pub use numbers::spec_u64_to_be_bytes;
pub use numbers::spec_u64_to_le_bytes;
pub use numbers::u128b;
pub use numbers::u128l;
pub use numbers::u16b;
pub use numbers::u16l;
pub use numbers::u32b;
pub use numbers::u32l;
pub use numbers::u64b;
pub use numbers::u64l;
pub use numbers::I128Be;
pub use numbers::I128Le;
pub use numbers::I16Be;
pub use numbers::I16Le;
pub use numbers::I32Be;
pub use numbers::I32Le;
pub use numbers::I64Be;
pub use numbers::I64Le;
pub use numbers::U128Be;
pub use numbers::U128Le;
pub use numbers::U16Be;
pub use numbers::U16Le;
pub use numbers::U32Be;
pub use numbers::U32Le;
pub use numbers::U64Be;
pub use numbers::U64Le;
pub use parser::Parser;
pub use parser::Step;
pub use primitives::byte;
pub use primitives::tag;
pub use primitives::take;
pub use primitives::Byte;
pub use primitives::Tag;
pub use primitives::Take;
pub use repetition::lemma_rep_head_unroll;
pub use repetition::lemma_rep_ok_monotone;
pub use repetition::lemma_rep_rest_is_skip;
pub use repetition::rep_consumed;
pub use repetition::rep_produces;
pub use repetition::rep_ok_upto;
pub use repetition::rep_rest;
pub use repetition::Repeat;

use vstd::prelude::*;

verus! {

/// Builds the parser that runs `child` exactly `count` times and collects
/// the outputs.
pub fn seq<P: Parser>(count: usize, child: P) -> (p: Repeat<P>)
    ensures
        p == (Repeat { count, child }),
{
    Repeat { count, child }
}

} // verus!
