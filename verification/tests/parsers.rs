use bincomb::and;
use bincomb::byte;
use bincomb::finish;
use bincomb::opt;
use bincomb::or;
use bincomb::tag;
use bincomb::take;
use bincomb::u16l;
use bincomb::AndError;
use bincomb::FinishFailure;
use bincomb::OrOutput;
use bincomb::Parser;

#[test]
fn byte_reads_one() {
    let input = [0xaau8, 0xbb];
    let (rest, r) = byte().parse(&input);
    assert_eq!(r, Ok(0xaa));
    assert_eq!(rest, &[0xbbu8]);
}

#[test]
fn byte_fails_on_empty() {
    let input: [u8; 0] = [];
    let (rest, r) = byte().parse(&input);
    assert!(r.is_err());
    assert_eq!(rest.len(), 0);
}

#[test]
fn take_exact_prefix() {
    let input = [1u8, 2, 3, 4, 5];
    let (rest, r) = take(3).parse(&input);
    assert_eq!(r, Ok(vec![1u8, 2, 3]));
    assert_eq!(rest, &[4u8, 5]);
}

#[test]
fn take_whole_buffer() {
    let input = [1u8, 2];
    let (rest, r) = take(2).parse(&input);
    assert_eq!(r, Ok(vec![1u8, 2]));
    assert_eq!(rest.len(), 0);
}

#[test]
fn take_too_much_rolls_back() {
    let input = [1u8, 2, 3];
    let (rest, r) = take(4).parse(&input);
    let err = r.unwrap_err();
    assert_eq!(err.requested, 4);
    assert_eq!(err.available, 3);
    assert_eq!(rest, &input);
}

#[test]
fn take_zero_on_empty() {
    let input: [u8; 0] = [];
    let (rest, r) = take(0).parse(&input);
    assert_eq!(r, Ok(vec![]));
    assert_eq!(rest.len(), 0);
}

#[test]
fn take_zero_consumes_nothing() {
    let input = [7u8, 8];
    let (rest, r) = take(0).parse(&input);
    assert_eq!(r, Ok(vec![]));
    assert_eq!(rest, &input);
}

#[test]
fn tag_matches_prefix() {
    let input = [b'h', b'i', b'!'];
    let (rest, r) = tag(b"hi").parse(&input);
    assert_eq!(r, Ok(vec![b'h', b'i']));
    assert_eq!(rest, &[b'!']);
}

#[test]
fn tag_mismatch_reports_position() {
    let input = [b'h', b'o', b'!'];
    let (rest, r) = tag(b"hi").parse(&input);
    let err = r.unwrap_err();
    assert_eq!(err.at, 1);
    assert_eq!(rest, &input);
}

#[test]
fn tag_shortfall_reports_position() {
    let input = [b'h'];
    let (rest, r) = tag(b"hi").parse(&input);
    let err = r.unwrap_err();
    assert_eq!(err.at, 1);
    assert_eq!(rest, &input);
}

#[test]
fn seq_collects_in_order() {
    let input = [1u8, 2, 3, 4];
    let (rest, r) = bincomb::seq(2, u16l()).parse(&input);
    assert_eq!(r, Ok(vec![0x0201u16, 0x0403]));
    assert_eq!(rest.len(), 0);
}

#[test]
fn seq_zero_is_trivial() {
    let input = [9u8];
    let (rest, r) = bincomb::seq(0, byte()).parse(&input);
    assert_eq!(r, Ok(vec![]));
    assert_eq!(rest, &input);
}

#[test]
fn seq_matches_folded_and() {
    let input = [1u8, 2, 3, 4, 5, 6];
    let (rest_s, r_s) = bincomb::seq(3, u16l()).parse(&input);
    let (rest_a, r_a) = and(u16l(), and(u16l(), u16l())).parse(&input);
    let vs = r_s.unwrap();
    let (a, (b, c)) = r_a.unwrap();
    assert_eq!(vs, vec![a, b, c]);
    assert_eq!(rest_s, rest_a);
}

#[test]
fn seq_failure_reports_index_and_rolls_back() {
    let input = [1u8, 2, 3, 4, 5];
    let (rest, r) = bincomb::seq(3, u16l()).parse(&input);
    let err = r.unwrap_err();
    assert_eq!(err.step, 2);
    assert_eq!(err.at, 4);
    assert_eq!(err.child_error.requested, 2);
    assert_eq!(err.child_error.available, 1);
    assert_eq!(rest, &input);
}

#[test]
fn opt_present_advances() {
    let input = [1u8, 2, 3];
    let (rest, r) = opt(take(2)).parse(&input);
    assert_eq!(r, Ok(Some(vec![1u8, 2])));
    assert_eq!(rest, &[3u8]);
}

#[test]
fn opt_absent_on_child_failure() {
    let input = [1u8];
    let (rest, r) = opt(take(2)).parse(&input);
    assert_eq!(r, Ok(None));
    assert_eq!(rest, &input);
}

#[test]
fn opt_opt_behaves_like_opt() {
    let input = [1u8];
    let (rest_one, r_one) = opt(take(2)).parse(&input);
    let (rest_two, r_two) = opt(opt(take(2))).parse(&input);
    assert_eq!(r_two, Ok(Some(r_one.unwrap())));
    assert_eq!(rest_one, rest_two);

    let longer = [1u8, 2, 3];
    let (rest_one, r_one) = opt(take(2)).parse(&longer);
    let (rest_two, r_two) = opt(opt(take(2))).parse(&longer);
    assert_eq!(r_two, Ok(Some(r_one.unwrap())));
    assert_eq!(rest_one, rest_two);
}

#[test]
fn and_pairs_outputs() {
    let input = [1u8, 2, 3, 4];
    let (rest, r) = and(take(1), take(2)).parse(&input);
    assert_eq!(r, Ok((vec![1u8], vec![2u8, 3])));
    assert_eq!(rest, &[4u8]);
}

#[test]
fn and_first_failure_rolls_back() {
    let input = [1u8];
    let (rest, r) = and(take(2), byte()).parse(&input);
    assert!(matches!(r, Err(AndError::One(_))));
    assert_eq!(rest, &input);
}

#[test]
fn and_second_failure_rolls_back() {
    let input = [1u8, 2];
    let (rest, r) = and(take(2), byte()).parse(&input);
    assert!(matches!(r, Err(AndError::Two(_))));
    assert_eq!(rest, &input);
}

#[test]
fn or_first_match_wins() {
    let input = [b'h', b'i'];
    let (rest, r) = or(tag(b"hi"), tag(b"ho")).parse(&input);
    assert_eq!(r, Ok(OrOutput::One(vec![b'h', b'i'])));
    assert_eq!(rest.len(), 0);
}

#[test]
fn or_falls_back_from_original_input() {
    let input = [b'h', b'o'];
    let (rest, r) = or(tag(b"hi"), tag(b"ho")).parse(&input);
    assert_eq!(r, Ok(OrOutput::Two(vec![b'h', b'o'])));
    assert_eq!(rest.len(), 0);
}

#[test]
fn or_both_failing_reports_second_error() {
    let input = [b'x'];
    let (rest, r) = or(tag(b"hi"), tag(b"ho")).parse(&input);
    let err = r.unwrap_err();
    assert_eq!(err.at, 0);
    assert_eq!(rest, &input);
}

#[test]
fn finish_accepts_full_consumption() {
    let input = [1u8, 2, 3, 4];
    let (rest, r) = finish(take(4)).parse(&input);
    assert_eq!(r, Ok(vec![1u8, 2, 3, 4]));
    assert_eq!(rest.len(), 0);
}

#[test]
fn finish_rejects_leftover() {
    let input = [1u8, 2, 3, 4, 5];
    let (rest, r) = finish(take(4)).parse(&input);
    match r.unwrap_err() {
        FinishFailure::Leftover(f) => assert_eq!(f.remaining, 1),
        FinishFailure::Child(_) => panic!("expected a leftover failure"),
    }
    assert_eq!(rest, &input);
}

#[test]
fn finish_propagates_child_failure() {
    let input = [1u8];
    let (rest, r) = finish(take(4)).parse(&input);
    match r.unwrap_err() {
        FinishFailure::Child(e) => {
            assert_eq!(e.requested, 4);
            assert_eq!(e.available, 1);
        },
        FinishFailure::Leftover(_) => panic!("expected the child's failure"),
    }
    assert_eq!(rest, &input);
}

#[test]
fn take_then_u16l_scenario() {
    let input = [0x01u8, 0x02, 0x03, 0x04, 0x05];
    let (rest, r) = and(take(2), u16l()).parse(&input);
    let (bytes, word) = r.unwrap();
    assert_eq!(bytes, vec![0x01u8, 0x02]);
    assert_eq!(word, 0x0403u16);
    assert_eq!(rest, &[0x05u8]);

    let (rest, r) = finish(and(take(2), u16l())).parse(&input);
    assert!(matches!(r, Err(FinishFailure::Leftover(_))));
    assert_eq!(rest, &input);
}
