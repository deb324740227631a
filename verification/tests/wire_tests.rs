//! Wire-decoder tests, cross-checked against the codec's own encoder.

use toka::value::{Colour, Value};
use toka::wire::{parse_value, Token};
use vsf::types::VsfType;

fn one(bytes: &Vec<u8>) -> (Token, usize) {
    parse_value(bytes, 0).expect("should decode")
}

#[test]
fn decodes_opcode_marker() {
    let bytes = VsfType::op(b'p', b's').flatten();
    let (t, p) = one(&bytes);
    assert!(matches!(t, Token::Op(b'p', b's')));
    assert_eq!(p, bytes.len());
}

#[test]
fn decodes_unsigned_widths() {
    let b = VsfType::u3(42).flatten();
    assert!(matches!(one(&b).0, Token::Lit(Value::U8(42))));

    let b = VsfType::u4(0xabcd).flatten();
    assert!(matches!(one(&b).0, Token::Lit(Value::U16(0xabcd))));

    let b = VsfType::u5(0xdead_beef).flatten();
    assert!(matches!(one(&b).0, Token::Lit(Value::U32(0xdead_beef))));

    let b = VsfType::u6(0x0123_4567_89ab_cdef).flatten();
    assert!(matches!(one(&b).0, Token::Lit(Value::U64(0x0123_4567_89ab_cdef))));

    let b = VsfType::u7(0x0123_4567_89ab_cdef_0011_2233_4455_6677).flatten();
    assert!(matches!(
        one(&b).0,
        Token::Lit(Value::U128(0x0123_4567_89ab_cdef_0011_2233_4455_6677))
    ));
}

#[test]
fn decodes_booleans() {
    let b = VsfType::u0(true).flatten();
    assert!(matches!(one(&b).0, Token::Lit(Value::Bool(true))));
    let b = VsfType::u0(false).flatten();
    assert!(matches!(one(&b).0, Token::Lit(Value::Bool(false))));
}

#[test]
fn decodes_signed_widths() {
    let b = VsfType::i3(-5).flatten();
    assert!(matches!(one(&b).0, Token::Lit(Value::I8(-5))));

    let b = VsfType::i4(-30000).flatten();
    assert!(matches!(one(&b).0, Token::Lit(Value::I16(-30000))));

    let b = VsfType::i5(-2_000_000_000).flatten();
    assert!(matches!(one(&b).0, Token::Lit(Value::I32(-2_000_000_000))));

    let b = VsfType::i6(i64::MIN).flatten();
    assert!(matches!(one(&b).0, Token::Lit(Value::I64(i64::MIN))));

    let b = VsfType::i7(i128::MIN + 7).flatten();
    let expected = i128::MIN + 7;
    match one(&b).0 {
        Token::Lit(Value::I128(v)) => assert_eq!(v, expected),
        other => panic!("unexpected token: {:?}", other),
    }
}

#[test]
fn decodes_scalar_components() {
    // Tag, then fraction and exponent, each two bytes big-endian.
    let fraction: i16 = 0x1234;
    let exponent: i16 = -7;
    let mut b = vec![b's', b'4', b'4'];
    b.extend(fraction.to_be_bytes());
    b.extend(exponent.to_be_bytes());
    match one(&b).0 {
        Token::Lit(Value::S44(v)) => {
            assert_eq!(v.fraction, fraction);
            assert_eq!(v.exponent, exponent);
        }
        other => panic!("unexpected token: {:?}", other),
    }
}

#[test]
fn decodes_circle_components() {
    // Tag, then real, imaginary and exponent, each two bytes big-endian.
    let (real, imaginary, exponent): (i16, i16, i16) = (300, -400, 5);
    let mut b = vec![b'c', b'4', b'4'];
    b.extend(real.to_be_bytes());
    b.extend(imaginary.to_be_bytes());
    b.extend(exponent.to_be_bytes());
    match one(&b).0 {
        Token::Lit(Value::C44(v)) => {
            assert_eq!(v.real, real);
            assert_eq!(v.imaginary, imaginary);
            assert_eq!(v.exponent, exponent);
        }
        other => panic!("unexpected token: {:?}", other),
    }
}

#[test]
fn decodes_colour_constants() {
    let b = VsfType::rcw.flatten();
    assert!(matches!(one(&b).0, Token::Lit(Value::Colour(Colour::White))));
    let b = VsfType::rck.flatten();
    assert!(matches!(one(&b).0, Token::Lit(Value::Colour(Colour::Black))));
    let b = VsfType::rcq.flatten();
    assert!(matches!(one(&b).0, Token::Lit(Value::Colour(Colour::Aqua))));
}

#[test]
fn decodes_content_hash() {
    let hash: Vec<u8> = (0u8..32).collect();
    let b = VsfType::hb(hash.clone()).flatten();
    match one(&b).0 {
        Token::Lit(Value::Hash(h)) => assert_eq!(h, hash),
        other => panic!("unexpected token: {:?}", other),
    }
}

#[test]
fn rejects_bad_input() {
    // Empty stream.
    assert!(parse_value(&Vec::new(), 0).is_none());
    // IEEE floats are outside the engine's deterministic subset.
    let b = VsfType::f5(1.5).flatten();
    assert!(parse_value(&b, 0).is_none());
    // A truncated scalar.
    let b = vec![b's', b'4', b'4', 0x12, 0x34];
    assert!(parse_value(&b, 0).is_none());
    // Opcode letters must be lowercase.
    assert!(parse_value(&vec![b'{', b'Z', b'z', b'}'], 0).is_none());
    // An unknown colour letter.
    assert!(parse_value(&vec![b'r', b'c', b'z'], 0).is_none());
    // Only the canonical two-byte boolean form is a value; the longer
    // marker form the codec's parser also tolerates is not canonical and
    // is refused here.
    assert!(parse_value(&vec![b'u', b'0', 255], 0).is_none());
}

#[test]
fn consumes_exactly_one_value() {
    let mut bytes = VsfType::u3(7).flatten();
    let first_len = bytes.len();
    bytes.extend(VsfType::op(b'h', b'l').flatten());
    let (t, p) = one(&bytes);
    assert!(matches!(t, Token::Lit(Value::U8(7))));
    assert_eq!(p, first_len);
    let (t2, p2) = parse_value(&bytes, p).expect("second value");
    assert!(matches!(t2, Token::Op(b'h', b'l')));
    assert_eq!(p2, bytes.len());
}
