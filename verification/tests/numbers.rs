use bincomb::i128b;
use bincomb::i128l;
use bincomb::i16b;
use bincomb::i16l;
use bincomb::i32b;
use bincomb::i32l;
use bincomb::i64b;
use bincomb::i64l;
use bincomb::u128b;
use bincomb::u128l;
use bincomb::u16b;
use bincomb::u16l;
use bincomb::u32b;
use bincomb::u32l;
use bincomb::u64b;
use bincomb::u64l;
use bincomb::Parser;

#[test]
fn u16l_exact_value() {
    let input = [0x34u8, 0x12, 0xff];
    let (rest, r) = u16l().parse(&input);
    assert_eq!(r, Ok(0x1234u16));
    assert_eq!(rest, &[0xffu8]);
}

#[test]
fn u16b_exact_value() {
    let input = [0x12u8, 0x34, 0xff];
    let (rest, r) = u16b().parse(&input);
    assert_eq!(r, Ok(0x1234u16));
    assert_eq!(rest, &[0xffu8]);
}

#[test]
fn u32l_exact_value() {
    let input = [0x78u8, 0x56, 0x34, 0x12];
    let (rest, r) = u32l().parse(&input);
    assert_eq!(r, Ok(0x12345678u32));
    assert_eq!(rest.len(), 0);
}

#[test]
fn u32b_exact_value() {
    let input = [0x12u8, 0x34, 0x56, 0x78];
    let (rest, r) = u32b().parse(&input);
    assert_eq!(r, Ok(0x12345678u32));
    assert_eq!(rest.len(), 0);
}

#[test]
fn i16l_negative_value() {
    let input = (-2i16).to_le_bytes();
    let (rest, r) = i16l().parse(&input);
    assert_eq!(r, Ok(-2i16));
    assert_eq!(rest.len(), 0);
}

#[test]
fn i16b_negative_value() {
    let input = (-2i16).to_be_bytes();
    let (rest, r) = i16b().parse(&input);
    assert_eq!(r, Ok(-2i16));
    assert_eq!(rest.len(), 0);
}

#[test]
fn decoder_shortfall_reports_sizes() {
    let input = [1u8, 2, 3];
    let (rest, r) = u32l().parse(&input);
    let err = r.unwrap_err();
    assert_eq!(err.requested, 4);
    assert_eq!(err.available, 3);
    assert_eq!(rest, &input);

    let input: [u8; 0] = [];
    let (rest, r) = u16b().parse(&input);
    let err = r.unwrap_err();
    assert_eq!(err.requested, 2);
    assert_eq!(err.available, 0);
    assert_eq!(rest.len(), 0);
}

#[test]
fn u16_roundtrips() {
    for v in [0u16, 1, 0x1234, u16::MAX] {
        let bytes = v.to_le_bytes();
        let (rest, r) = u16l().parse(&bytes);
        assert_eq!(r, Ok(v));
        assert_eq!(rest.len(), 0);
        let bytes = v.to_be_bytes();
        let (rest, r) = u16b().parse(&bytes);
        assert_eq!(r, Ok(v));
        assert_eq!(rest.len(), 0);
    }
}

#[test]
fn i16_roundtrips() {
    for v in [0i16, 1, -1, 0x1234, i16::MIN, i16::MAX] {
        let bytes = v.to_le_bytes();
        let (rest, r) = i16l().parse(&bytes);
        assert_eq!(r, Ok(v));
        assert_eq!(rest.len(), 0);
        let bytes = v.to_be_bytes();
        let (rest, r) = i16b().parse(&bytes);
        assert_eq!(r, Ok(v));
        assert_eq!(rest.len(), 0);
    }
}

#[test]
fn u32_roundtrips() {
    for v in [0u32, 1, 0x12345678, u32::MAX] {
        let bytes = v.to_le_bytes();
        let (rest, r) = u32l().parse(&bytes);
        assert_eq!(r, Ok(v));
        assert_eq!(rest.len(), 0);
        let bytes = v.to_be_bytes();
        let (rest, r) = u32b().parse(&bytes);
        assert_eq!(r, Ok(v));
        assert_eq!(rest.len(), 0);
    }
}

#[test]
fn i32_roundtrips() {
    for v in [0i32, 1, -1, 0x12345678, i32::MIN, i32::MAX] {
        let bytes = v.to_le_bytes();
        let (rest, r) = i32l().parse(&bytes);
        assert_eq!(r, Ok(v));
        assert_eq!(rest.len(), 0);
        let bytes = v.to_be_bytes();
        let (rest, r) = i32b().parse(&bytes);
        assert_eq!(r, Ok(v));
        assert_eq!(rest.len(), 0);
    }
}

#[test]
fn u64_roundtrips() {
    for v in [0u64, 1, 0x123456789abcdef0, u64::MAX] {
        let bytes = v.to_le_bytes();
        let (rest, r) = u64l().parse(&bytes);
        assert_eq!(r, Ok(v));
        assert_eq!(rest.len(), 0);
        let bytes = v.to_be_bytes();
        let (rest, r) = u64b().parse(&bytes);
        assert_eq!(r, Ok(v));
        assert_eq!(rest.len(), 0);
    }
}

#[test]
fn i64_roundtrips() {
    for v in [0i64, 1, -1, 0x123456789abcdef0, i64::MIN, i64::MAX] {
        let bytes = v.to_le_bytes();
        let (rest, r) = i64l().parse(&bytes);
        assert_eq!(r, Ok(v));
        assert_eq!(rest.len(), 0);
        let bytes = v.to_be_bytes();
        let (rest, r) = i64b().parse(&bytes);
        assert_eq!(r, Ok(v));
        assert_eq!(rest.len(), 0);
    }
}

#[test]
fn u128_roundtrips() {
    for v in [0u128, 1, 0x0102030405060708090a0b0c0d0e0f10, u128::MAX] {
        let bytes = v.to_le_bytes();
        let (rest, r) = u128l().parse(&bytes);
        assert_eq!(r, Ok(v));
        assert_eq!(rest.len(), 0);
        let bytes = v.to_be_bytes();
        let (rest, r) = u128b().parse(&bytes);
        assert_eq!(r, Ok(v));
        assert_eq!(rest.len(), 0);
    }
}

#[test]
fn i128_roundtrips() {
    for v in [0i128, 1, -1, 0x0102030405060708090a0b0c0d0e0f10, i128::MIN, i128::MAX] {
        let bytes = v.to_le_bytes();
        let (rest, r) = i128l().parse(&bytes);
        assert_eq!(r, Ok(v));
        assert_eq!(rest.len(), 0);
        let bytes = v.to_be_bytes();
        let (rest, r) = i128b().parse(&bytes);
        assert_eq!(r, Ok(v));
        assert_eq!(rest.len(), 0);
    }
}

#[test]
fn f32_roundtrips_through_bits() {
    for v in [0.0f32, 1.5, -2.25, f32::MIN, f32::MAX] {
        let bytes = v.to_le_bytes();
        let (rest, r) = u32l().parse(&bytes);
        assert_eq!(f32::from_bits(r.unwrap()), v);
        assert_eq!(rest.len(), 0);
        let bytes = v.to_be_bytes();
        let (rest, r) = u32b().parse(&bytes);
        assert_eq!(f32::from_bits(r.unwrap()), v);
        assert_eq!(rest.len(), 0);
    }
}

#[test]
fn f64_roundtrips_through_bits() {
    for v in [0.0f64, 1.5, -2.25, f64::MIN, f64::MAX] {
        let bytes = v.to_le_bytes();
        let (rest, r) = u64l().parse(&bytes);
        assert_eq!(f64::from_bits(r.unwrap()), v);
        assert_eq!(rest.len(), 0);
        let bytes = v.to_be_bytes();
        let (rest, r) = u64b().parse(&bytes);
        assert_eq!(f64::from_bits(r.unwrap()), v);
        assert_eq!(rest.len(), 0);
    }
}
