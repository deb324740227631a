//! Cross-checks of the integer subtypes' operators: the engine must hand
//! back exactly the two's-complement wrapping results the widths define,
//! and refuse what has no operator, by name.

use toka::errors::VmErrorKind;
use toka::opcode::Opcode;
use toka::value::{TypeTag, Value};
use toka::vm::VM;
use vsf::types::VsfType;

fn op(a: u8, b: u8) -> Vec<u8> {
    VsfType::op(a, b).flatten()
}

fn run_u8_binop(mnem: [u8; 2], a: u8, b: u8) -> u8 {
    let mut bytecode = op(b'p', b's');
    bytecode.extend(VsfType::u3(a).flatten());
    bytecode.extend(op(b'p', b's'));
    bytecode.extend(VsfType::u3(b).flatten());
    bytecode.extend(op(mnem[0], mnem[1]));
    bytecode.extend(op(b'h', b'l'));
    let mut vm = VM::new(bytecode);
    vm.run(100).unwrap();
    match vm.peek().unwrap() {
        Value::U8(v) => *v,
        other => panic!("expected u8, got {:?}", other),
    }
}

fn run_i64_binop(mnem: [u8; 2], a: i64, b: i64) -> i64 {
    let mut bytecode = op(b'p', b's');
    bytecode.extend(VsfType::i6(a).flatten());
    bytecode.extend(op(b'p', b's'));
    bytecode.extend(VsfType::i6(b).flatten());
    bytecode.extend(op(mnem[0], mnem[1]));
    bytecode.extend(op(b'h', b'l'));
    let mut vm = VM::new(bytecode);
    vm.run(100).unwrap();
    match vm.peek().unwrap() {
        Value::I64(v) => *v,
        other => panic!("expected i64, got {:?}", other),
    }
}

#[test]
fn unsigned_operators_wrap_and_divide_exactly() {
    assert_eq!(run_u8_binop(*b"ad", 200, 100), 200u8.wrapping_add(100));
    assert_eq!(run_u8_binop(*b"sb", 3, 5), 3u8.wrapping_sub(5));
    assert_eq!(run_u8_binop(*b"ml", 16, 17), 16u8.wrapping_mul(17));
    assert_eq!(run_u8_binop(*b"dv", 17, 5), 3);
    assert_eq!(run_u8_binop(*b"md", 17, 5), 2);
    assert_eq!(run_u8_binop(*b"ba", 0b1100, 0b1010), 0b1000);
    assert_eq!(run_u8_binop(*b"bo", 0b1100, 0b1010), 0b1110);
    assert_eq!(run_u8_binop(*b"bx", 0b1100, 0b1010), 0b0110);
}

#[test]
fn signed_operators_wrap_and_truncate() {
    assert_eq!(run_i64_binop(*b"ad", i64::MAX, 1), i64::MAX.wrapping_add(1));
    assert_eq!(run_i64_binop(*b"sb", i64::MIN, 1), i64::MIN.wrapping_sub(1));
    assert_eq!(run_i64_binop(*b"ml", i64::MAX, 2), i64::MAX.wrapping_mul(2));
    // Truncating division, exactly the width's own.
    assert_eq!(run_i64_binop(*b"dv", -7, 2), -3);
    assert_eq!(run_i64_binop(*b"md", -7, 2), -1);
    // The one signed overflow pair wraps: minimum over minus one.
    assert_eq!(run_i64_binop(*b"dv", i64::MIN, -1), i64::MIN);
    assert_eq!(run_i64_binop(*b"md", i64::MIN, -1), 0);
}

#[test]
fn bitwise_complement_per_width() {
    let mut bytecode = op(b'p', b's');
    bytecode.extend(VsfType::u3(0b0101_0000).flatten());
    bytecode.extend(op(b'b', b'n'));
    bytecode.extend(op(b'h', b'l'));
    let mut vm = VM::new(bytecode);
    vm.run(100).unwrap();
    assert!(matches!(vm.peek().unwrap(), Value::U8(0b1010_1111)));
}

#[test]
fn division_by_zero_each_width() {
    for (push, mnem) in [
        (VsfType::u3(9).flatten(), *b"dv"),
        (VsfType::u6(9).flatten(), *b"md"),
        (VsfType::i4(9).flatten(), *b"dv"),
        (VsfType::i7(9).flatten(), *b"md"),
    ] {
        let zero = match push[1] {
            b'3' => VsfType::u3(0).flatten(),
            b'6' => VsfType::u6(0).flatten(),
            b'4' => VsfType::i4(0).flatten(),
            _ => VsfType::i7(0).flatten(),
        };
        let mut bytecode = op(b'p', b's');
        bytecode.extend(push);
        bytecode.extend(op(b'p', b's'));
        bytecode.extend(zero);
        bytecode.extend(op(mnem[0], mnem[1]));
        let mut vm = VM::new(bytecode);
        let err = vm.run(100).unwrap_err();
        assert_eq!(err.kind, VmErrorKind::DivisionByZero);
    }
}

#[test]
fn ordering_matches_the_widths() {
    for (a, b) in [(2u8, 3u8), (3, 2), (5, 5), (0, 255)] {
        for (mnem, want) in [
            (*b"lo", a < b),
            (*b"le", a <= b),
            (*b"gt", a > b),
            (*b"ge", a >= b),
        ] {
            let mut bytecode = op(b'p', b's');
            bytecode.extend(VsfType::u3(a).flatten());
            bytecode.extend(op(b'p', b's'));
            bytecode.extend(VsfType::u3(b).flatten());
            bytecode.extend(op(mnem[0], mnem[1]));
            bytecode.extend(op(b'h', b'l'));
            let mut vm = VM::new(bytecode);
            vm.run(100).unwrap();
            match vm.peek().unwrap() {
                Value::Bool(got) => assert_eq!(*got, want),
                other => panic!("expected a boolean, got {:?}", other),
            }
        }
    }
}

#[test]
fn scalar_equality_has_no_silent_fallback() {
    // The scalar family defines its own equality (under which its undefined
    // values equal nothing); with no implementation to delegate to, even a
    // bit-identical pair is refused rather than approximated.
    let s = vec![b's', b'4', b'4', 0x12, 0x34, 0x00, 0x01];
    let mut bytecode = op(b'p', b's');
    bytecode.extend(s.clone());
    bytecode.extend(op(b'p', b's'));
    bytecode.extend(s);
    bytecode.extend(op(b'e', b'q'));
    let mut vm = VM::new(bytecode);
    let err = vm.run(100).unwrap_err();
    assert_eq!(
        err.kind,
        VmErrorKind::TypeUnsupported(Opcode::eq, TypeTag::S44)
    );
}

#[test]
fn registering_a_hash_again_replaces_the_offset() {
    // main: push H, jump.  Two tails; the later registration wins.
    let hash: [u8; 32] = [3; 32];
    let mut head = op(b'p', b's');
    head.extend(VsfType::hb(hash.to_vec()).flatten());
    head.extend(op(b'j', b'm'));
    let first = head.len();
    let mut bytecode = head;
    bytecode.extend(op(b'p', b's'));
    bytecode.extend(VsfType::u3(1).flatten());
    bytecode.extend(op(b'h', b'l'));
    let second = bytecode.len();
    bytecode.extend(op(b'p', b's'));
    bytecode.extend(VsfType::u3(2).flatten());
    bytecode.extend(op(b'h', b'l'));

    let mut vm = VM::new(bytecode);
    vm.register_function(hash, first);
    vm.register_function(hash, second);
    vm.run(100).unwrap();
    assert!(matches!(vm.peek().unwrap(), Value::U8(2)));
}
