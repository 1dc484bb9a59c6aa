use vstd::prelude::*;

verus! {

/// The outcome of one parsing step: the remaining input paired with either a
/// produced value or an error value.  Every parser, primitive or composed,
/// returns this shape.
pub type Step<'a, Output, Error> = (&'a [u8], Result<Output, Error>);

/// The shared parsing contract.
///
/// A parser is a small value that maps a remaining-input view to a new
/// remaining-input view plus a success/failure outcome.  Its behaviour is
/// pinned down by four specification functions:
///
/// * [`Parser::ok`] says on which inputs the parser succeeds;
/// * [`Parser::consumed`] says how many bytes a successful parse consumes;
/// * [`Parser::produces`] says which value a successful parse hands back;
/// * [`Parser::fails_with`] says which error a failing parse reports.
///
/// [`Parser::parse`] obliges every implementation to follow them: on success
/// the remaining input is the given input advanced by exactly
/// `consumed(input)` bytes, and on failure the remaining input equals the
/// given input (rollback to entry), so a caller may safely try an
/// alternative parser from the same starting point.
pub trait Parser: Sized {
    /// The value a successful parse produces.
    type Output;

    /// The error a failing parse reports.
    type Error;

    /// Whether this parser succeeds on `input`.
    spec fn ok(&self, input: Seq<u8>) -> bool;

    /// How many bytes a successful parse of `input` consumes.
    spec fn consumed(&self, input: Seq<u8>) -> int;

    /// Which values a successful parse of `input` may hand back.
    spec fn produces(&self, input: Seq<u8>, out: Self::Output) -> bool;

    /// Which errors a failing parse of `input` may report.
    spec fn fails_with(&self, input: Seq<u8>, err: Self::Error) -> bool;

    /// A successful parse consumes no more than the whole input.
    proof fn lemma_consumed_in_bounds(&self, input: Seq<u8>)
        ensures
            self.ok(input) ==> 0 <= self.consumed(input) <= input.len(),
    ;

    /// Runs the parser on `input`.
    fn parse<'a>(&self, input: &'a [u8]) -> (step: Step<'a, Self::Output, Self::Error>)
        ensures
            step.1 is Ok <==> self.ok(input@),
            step.1 matches Ok(out) ==> self.produces(input@, out) && step.0@ == input@.skip(
                self.consumed(input@),
            ),
            step.1 matches Err(err) ==> self.fails_with(input@, err) && step.0@ == input@,
    ;
}

} // verus!
