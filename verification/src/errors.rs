use vstd::prelude::*;

verus! {

/// Reported by [`crate::Byte`] when one more byte was requested but the
/// input is exhausted.
#[derive(Clone, Copy, Debug, PartialEq, Eq)]
pub struct ByteError;

/// Reported by [`crate::Take`] and the fixed-width integer decoders when
/// fewer bytes remain than the parser needs.
#[derive(Clone, Copy, Debug, PartialEq, Eq)]
pub struct TakeError {
    /// How many bytes the parser needed.
    pub requested: usize,
    /// How many bytes actually remained.
    pub available: usize,
}

/// Reported by [`crate::Tag`] when the input does not begin with the
/// expected bytes.
#[derive(Clone, Copy, Debug, PartialEq, Eq)]
pub struct TagError {
    /// Index of the first position at which the input stops matching the
    /// expected bytes: either the bytes differ there, or the input ends
    /// there while expected bytes remain.
    pub at: usize,
}

/// Reported by [`crate::Repeat`] when one of the repetitions fails: the
/// child's error together with positional context.
#[derive(Clone, Copy, Debug, PartialEq, Eq)]
pub struct SeqError<ChildError> {
    /// How many bytes the earlier, successful repetitions had consumed, that
    /// is, the offset at which the failing repetition began.
    pub at: usize,
    /// Which repetition failed, counted from zero.
    pub step: usize,
    /// The child parser's error.
    pub child_error: ChildError,
}

/// Reported by [`crate::And`]: either stage of the pair may have failed.
#[derive(Clone, Copy, Debug, PartialEq, Eq)]
pub enum AndError<E1, E2> {
    /// The first stage failed; the second was never attempted.
    One(E1),
    /// The first stage succeeded and the second failed.
    Two(E2),
}

/// The error type of [`crate::Opt`].  By contract the optional combinator
/// cannot fail, so no value of this type is ever produced; the one declared
/// variant exists only because a datatype needs a variant.
#[derive(Clone, Copy, Debug, PartialEq, Eq)]
pub enum OptError {
    /// Never produced.
    Never,
}

/// Reported by [`crate::Finish`] when its child succeeded but left bytes
/// unconsumed.
#[derive(Clone, Copy, Debug, PartialEq, Eq)]
pub struct FinishError {
    /// How many bytes were left over.
    pub remaining: usize,
}

/// Reported by [`crate::Finish`]: either the child failed, or it succeeded
/// without consuming the whole input.
#[derive(Clone, Copy, Debug, PartialEq, Eq)]
pub enum FinishFailure<E> {
    /// The child parser itself failed.
    Child(E),
    /// The child parser succeeded but bytes were left over.
    Leftover(FinishError),
}

} // verus!
