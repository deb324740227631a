//! Execution-engine tests.

use toka::canvas::{CanvasCall, Paint};
use toka::errors::VmErrorKind;
use toka::opcode::Opcode;
use toka::value::{Colour, Sc44, TypeTag, Value};
use toka::vm::VM;
use vsf::types::VsfType;

fn op(a: u8, b: u8) -> Vec<u8> {
    VsfType::op(a, b).flatten()
}

fn push_u8(n: u8) -> Vec<u8> {
    let mut b = op(b'p', b's');
    b.extend(VsfType::u3(n).flatten());
    b
}

/// The wire encoding of an `s44` scalar literal: tag, then the fraction and
/// exponent components, big-endian.
fn s44_bytes(fraction: i16, exponent: i16) -> Vec<u8> {
    let f = fraction.to_be_bytes();
    let e = exponent.to_be_bytes();
    vec![b's', b'4', b'4', f[0], f[1], e[0], e[1]]
}

fn push_s44(fraction: i16, exponent: i16) -> Vec<u8> {
    let mut b = op(b'p', b's');
    b.extend(s44_bytes(fraction, exponent));
    b
}

fn assemble(parts: Vec<Vec<u8>>) -> Vec<u8> {
    let mut out = Vec::new();
    for p in parts {
        out.extend(p);
    }
    out
}

fn expect_u8(v: &Value, n: u8) {
    match v {
        Value::U8(got) => assert_eq!(*got, n),
        other => panic!("expected u8, got {:?}", other),
    }
}

#[test]
fn test_arithmetic() {
    // The arithmetic round trip: 1 dup add; 1 1 add; 1 add; add => 5, one
    // concrete numeric subtype substituted consistently throughout.  The
    // exercise is classically run on the scalar subtype; that family's
    // operator library is not linked here (scalar operands are refused by
    // name, see below), so the subtype substituted is u8.
    let bytecode = assemble(vec![
        push_u8(1),
        op(b'd', b'p'),
        op(b'a', b'd'),
        push_u8(1),
        push_u8(1),
        op(b'a', b'd'),
        push_u8(1),
        op(b'a', b'd'),
        op(b'a', b'd'),
        op(b'h', b'l'),
    ]);
    let mut vm = VM::new(bytecode);
    vm.run(1000).unwrap();
    assert_eq!(vm.stack_depth(), 1);
    expect_u8(vm.peek().unwrap(), 5);
}

#[test]
fn test_comparison() {
    // 2 < 3: comparisons push a strict boolean, never a numeric one.
    let bytecode = assemble(vec![push_u8(2), push_u8(3), op(b'l', b'o'), op(b'h', b'l')]);
    let mut vm = VM::new(bytecode);
    vm.run(1000).unwrap();
    assert!(matches!(vm.peek().unwrap(), Value::Bool(true)));
}

#[test]
fn type_mismatch_names_both_subtypes() {
    // s44 + u8 never coerces.
    let mut bytecode = push_s44(0x1234, 3);
    bytecode.extend(push_u8(1));
    let at = bytecode.len();
    bytecode.extend(op(b'a', b'd'));
    let mut vm = VM::new(bytecode);
    let err = vm.run(1000).unwrap_err();
    assert_eq!(err.ip, at);
    assert_eq!(
        err.kind,
        VmErrorKind::TypeMismatch(Opcode::add, TypeTag::S44, TypeTag::U8)
    );
    assert!(vm.is_halted());
}

#[test]
fn mismatch_is_symmetric_for_every_operator() {
    for mnem in [*b"ad", *b"sb", *b"ml", *b"dv", *b"md", *b"eq", *b"lo", *b"an"] {
        let mut bytecode = op(b'p', b's');
        bytecode.extend(VsfType::u3(1).flatten());
        bytecode.extend(op(b'p', b's'));
        bytecode.extend(VsfType::u4(1).flatten());
        bytecode.extend(op(mnem[0], mnem[1]));
        let mut vm = VM::new(bytecode);
        let err = vm.run(1000).unwrap_err();
        match err.kind {
            VmErrorKind::TypeMismatch(_, lhs, rhs) => {
                assert_eq!(lhs, TypeTag::U8);
                assert_eq!(rhs, TypeTag::U16);
            }
            other => panic!("expected a type mismatch, got {:?}", other),
        }
    }
}

#[test]
fn stack_underflow_on_empty_stack() {
    for mnem in [*b"ad", *b"pp", *b"dp", *b"sw", *b"rt", *b"ng", *b"eq", *b"jm", *b"cn", *b"cr"] {
        let bytecode = op(mnem[0], mnem[1]);
        let mut vm = VM::new(bytecode);
        let err = vm.run(10).unwrap_err();
        assert_eq!(err.kind, VmErrorKind::StackUnderflow);
        assert_eq!(err.ip, 0);
    }
}

#[test]
fn unknown_hash_fails_closed() {
    for mnem in [*b"cn", *b"jm"] {
        let hash: Vec<u8> = (100u8..132).collect();
        let mut bytecode = op(b'p', b's');
        bytecode.extend(VsfType::hb(hash).flatten());
        let at = bytecode.len();
        bytecode.extend(op(mnem[0], mnem[1]));
        let mut vm = VM::new(bytecode);
        let err = vm.run(10).unwrap_err();
        assert_eq!(err.ip, at);
        assert_eq!(err.kind, VmErrorKind::UnknownFunctionHash);
        // The failed transfer popped nothing: the hash is still on the stack.
        assert_eq!(vm.stack_depth(), 1);
        assert!(matches!(vm.peek().unwrap(), Value::Hash(_)));
    }
}

#[test]
fn call_and_return_are_symmetric() {
    // main: push H, call, halt.  body at offset N: push 7, return_value.
    let hash: [u8; 32] = [7; 32];
    let mut main = op(b'p', b's');
    main.extend(VsfType::hb(hash.to_vec()).flatten());
    main.extend(op(b'c', b'n'));
    main.extend(op(b'h', b'l'));
    let body_at = main.len();
    let mut bytecode = main;
    bytecode.extend(push_u8(7));
    bytecode.extend(op(b'r', b'v'));

    let mut vm = VM::new(bytecode);
    vm.register_function(hash, body_at);
    vm.run(1000).unwrap();
    assert!(vm.is_halted());
    assert_eq!(vm.stack_depth(), 1);
    // The halt after the call site was reached: control resumed at the
    // recorded return pointer with the returned value on the stack.
    expect_u8(vm.peek().unwrap(), 7);
}

#[test]
fn return_without_call_is_an_error() {
    let bytecode = op(b'r', b'e');
    let mut vm = VM::new(bytecode);
    let err = vm.run(10).unwrap_err();
    assert_eq!(err.kind, VmErrorKind::ReturnWithoutMatchingCall);
}

#[test]
fn jump_if_requires_a_strict_boolean() {
    // Condition u3(1) is not a boolean: no truthiness, an error.
    let hash: Vec<u8> = (0u8..32).collect();
    let mut bytecode = push_u8(1);
    bytecode.extend(op(b'p', b's'));
    bytecode.extend(VsfType::hb(hash).flatten());
    bytecode.extend(op(b'j', b'i'));
    let mut vm = VM::new(bytecode);
    let err = vm.run(10).unwrap_err();
    assert_eq!(
        err.kind,
        VmErrorKind::TypeUnsupported(Opcode::jump_if, TypeTag::U8)
    );
}

#[test]
fn jump_if_not_taken_pops_and_continues() {
    let hash: Vec<u8> = (0u8..32).collect();
    let mut bytecode = op(b'p', b's');
    bytecode.extend(VsfType::u0(false).flatten());
    bytecode.extend(op(b'p', b's'));
    bytecode.extend(VsfType::hb(hash).flatten());
    bytecode.extend(op(b'j', b'i'));
    bytecode.extend(push_u8(9));
    bytecode.extend(op(b'h', b'l'));
    let mut vm = VM::new(bytecode);
    vm.run(100).unwrap();
    assert_eq!(vm.stack_depth(), 1);
    expect_u8(vm.peek().unwrap(), 9);
}

#[test]
fn jump_zero_branches_on_false() {
    // push false, push H, jump_zero -> lands on the tail that pushes 3.
    let hash: [u8; 32] = [9; 32];
    let mut head = op(b'p', b's');
    head.extend(VsfType::u0(false).flatten());
    head.extend(op(b'p', b's'));
    head.extend(VsfType::hb(hash.to_vec()).flatten());
    head.extend(op(b'j', b'z'));
    head.extend(op(b'h', b'l'));
    let target = head.len();
    let mut bytecode = head;
    bytecode.extend(push_u8(3));
    bytecode.extend(op(b'h', b'l'));
    let mut vm = VM::new(bytecode);
    vm.register_function(hash, target);
    vm.run(100).unwrap();
    assert_eq!(vm.stack_depth(), 1);
    expect_u8(vm.peek().unwrap(), 3);
}

#[test]
fn locals_alloc_get_set() {
    // la 2; push 5; ls 0; lg 0; halt  => stack [5]
    let mut bytecode = op(b'l', b'a');
    bytecode.extend(VsfType::u3(2).flatten());
    bytecode.extend(push_u8(5));
    bytecode.extend(op(b'l', b's'));
    bytecode.extend(VsfType::u3(0).flatten());
    bytecode.extend(op(b'l', b'g'));
    bytecode.extend(VsfType::u3(0).flatten());
    bytecode.extend(op(b'h', b'l'));
    let mut vm = VM::new(bytecode);
    vm.run(100).unwrap();
    assert_eq!(vm.stack_depth(), 1);
    expect_u8(vm.peek().unwrap(), 5);
}

#[test]
fn locals_out_of_bounds() {
    let mut bytecode = op(b'l', b'g');
    bytecode.extend(VsfType::u3(0).flatten());
    let mut vm = VM::new(bytecode);
    let err = vm.run(10).unwrap_err();
    assert_eq!(err.kind, VmErrorKind::LocalOutOfBounds);
}

#[test]
fn dup_n_duplicates_at_depth() {
    // push 1, push 2, dup_n 1 => [1, 2, 1]
    let mut bytecode = push_u8(1);
    bytecode.extend(push_u8(2));
    bytecode.extend(op(b'd', b'n'));
    bytecode.extend(VsfType::u3(1).flatten());
    bytecode.extend(op(b'h', b'l'));
    let mut vm = VM::new(bytecode);
    vm.run(100).unwrap();
    assert_eq!(vm.stack_depth(), 3);
    expect_u8(vm.peek().unwrap(), 1);
}

#[test]
fn swap_and_rotate() {
    // 1 2 swap => [2, 1]
    let bytecode = assemble(vec![push_u8(1), push_u8(2), op(b's', b'w'), op(b'h', b'l')]);
    let mut vm = VM::new(bytecode);
    vm.run(100).unwrap();
    expect_u8(vm.peek().unwrap(), 1);

    // 1 2 3 rotate => [2, 3, 1]
    let bytecode = assemble(vec![
        push_u8(1),
        push_u8(2),
        push_u8(3),
        op(b'r', b't'),
        op(b'h', b'l'),
    ]);
    let mut vm = VM::new(bytecode);
    vm.run(100).unwrap();
    assert_eq!(vm.stack_depth(), 3);
    expect_u8(vm.peek().unwrap(), 1);
}

#[test]
fn typeof_pushes_the_subtype_name() {
    let bytecode = assemble(vec![push_s44(100, 2), op(b't', b'y'), op(b'h', b'l')]);
    let mut vm = VM::new(bytecode);
    vm.run(100).unwrap();
    match vm.peek().unwrap() {
        Value::Text(s) => assert_eq!(s, "s44"),
        other => panic!("expected text, got {:?}", other),
    }
}

#[test]
fn unknown_mnemonic_is_an_error() {
    let bytecode = op(b'z', b'z');
    let mut vm = VM::new(bytecode);
    let err = vm.run(10).unwrap_err();
    assert_eq!(err.kind, VmErrorKind::UnknownOpcode(b'z', b'z'));
}

#[test]
fn literal_where_an_opcode_was_expected() {
    let bytecode = VsfType::u3(1).flatten();
    let mut vm = VM::new(bytecode);
    let err = vm.run(10).unwrap_err();
    assert_eq!(err.kind, VmErrorKind::ExpectedOpcode);
}

#[test]
fn unimplemented_opcode_is_reported() {
    let bytecode = assemble(vec![push_u8(4), op(b's', b'q')]);
    let mut vm = VM::new(bytecode);
    let err = vm.run(10).unwrap_err();
    assert_eq!(err.kind, VmErrorKind::UnsupportedOpcode(Opcode::sqrt));
}

#[test]
fn scalar_operands_are_refused_by_name() {
    // The scalar family's operator library is an external collaborator the
    // engine does not link: same-subtype scalar arithmetic fails closed,
    // naming the operator and the subtype, never approximating.
    let bytecode = assemble(vec![
        push_s44(0x1000, 1),
        push_s44(0x2000, 1),
        op(b'a', b'd'),
    ]);
    let mut vm = VM::new(bytecode);
    let err = vm.run(10).unwrap_err();
    assert_eq!(
        err.kind,
        VmErrorKind::TypeUnsupported(Opcode::add, TypeTag::S44)
    );
}

#[test]
fn division_by_zero_is_an_error() {
    let bytecode = assemble(vec![push_u8(1), push_u8(0), op(b'd', b'v')]);
    let mut vm = VM::new(bytecode);
    let err = vm.run(10).unwrap_err();
    assert_eq!(err.kind, VmErrorKind::DivisionByZero);
}

#[test]
fn negate_wraps_at_the_signed_minimum() {
    let mut bytecode = op(b'p', b's');
    bytecode.extend(VsfType::i3(i8::MIN).flatten());
    bytecode.extend(op(b'n', b'g'));
    bytecode.extend(op(b'h', b'l'));
    let mut vm = VM::new(bytecode);
    vm.run(100).unwrap();
    assert!(matches!(vm.peek().unwrap(), Value::I8(i8::MIN)));
}

#[test]
fn equality_pushes_boolean_and_rejects_cross_type() {
    let mut bytecode = push_u8(3);
    bytecode.extend(push_u8(3));
    bytecode.extend(op(b'e', b'q'));
    bytecode.extend(op(b'h', b'l'));
    let mut vm = VM::new(bytecode);
    vm.run(100).unwrap();
    assert!(matches!(vm.peek().unwrap(), Value::Bool(true)));
}

#[test]
fn clear_records_one_canvas_call() {
    let mut bytecode = op(b'p', b's');
    bytecode.extend(VsfType::rcw.flatten());
    bytecode.extend(op(b'c', b'r'));
    bytecode.extend(op(b'h', b'l'));
    let mut vm = VM::with_canvas(bytecode, 10, 10);
    vm.run(100).unwrap();
    assert_eq!(
        vm.canvas().calls().as_slice(),
        &[CanvasCall::Clear(Paint::Named(Colour::White))]
    );
    assert_eq!(vm.canvas().width(), 10);
    assert_eq!(vm.canvas().height(), 10);
}

#[test]
fn fill_rect_records_operands_in_order() {
    // push x, y, w, h, colour; fill_rect.
    let bytecode = assemble(vec![
        push_s44(1, 0),
        push_s44(2, 0),
        push_s44(3, 0),
        push_s44(4, 0),
        {
            let mut b = op(b'p', b's');
            b.extend(VsfType::rcb.flatten());
            b
        },
        op(b'f', b'r'),
        op(b'h', b'l'),
    ]);
    let mut vm = VM::with_canvas(bytecode, 16, 16);
    vm.run(100).unwrap();
    let s = |n: i16| Sc44 { fraction: n, exponent: 0 };
    assert_eq!(
        vm.canvas().calls().as_slice(),
        &[CanvasCall::FillRect {
            x: s(1),
            y: s(2),
            w: s(3),
            h: s(4),
            paint: Paint::Named(Colour::Blue),
        }]
    );
    assert_eq!(vm.stack_depth(), 0);
}

#[test]
fn timestamp_pushes_the_engine_held_time() {
    let t = Sc44 { fraction: 0x2a00, exponent: 3 };
    let bytecode = assemble(vec![op(b't', b'm'), op(b'h', b'l')]);
    let mut vm = VM::new(bytecode);
    vm.set_time(t);
    vm.run(100).unwrap();
    match vm.peek().unwrap() {
        Value::S44(s) => assert_eq!(*s, t),
        other => panic!("expected s44, got {:?}", other),
    }
}

#[test]
fn running_twice_is_byte_identical() {
    // Determinism: identical bytecode, fresh machines, identical outcomes.
    let bytecode = assemble(vec![
        push_u8(1),
        push_u8(2),
        op(b'a', b'd'),
        {
            let mut b = op(b'p', b's');
            b.extend(VsfType::rcr.flatten());
            b
        },
        op(b'c', b'r'),
        op(b'h', b'l'),
    ]);
    let mut vm1 = VM::with_canvas(bytecode.clone(), 10, 10);
    let mut vm2 = VM::with_canvas(bytecode, 10, 10);
    let r1 = vm1.run(1000);
    let r2 = vm2.run(1000);
    assert_eq!(r1, r2);
    assert_eq!(vm1.stack_depth(), vm2.stack_depth());
    expect_u8(vm1.peek().unwrap(), 3);
    expect_u8(vm2.peek().unwrap(), 3);
    assert_eq!(vm1.canvas().calls().as_slice(), vm2.canvas().calls().as_slice());
    assert_eq!(vm1.is_halted(), vm2.is_halted());
}

#[test]
fn falling_off_the_end_is_not_an_error() {
    let bytecode = push_u8(1);
    let mut vm = VM::new(bytecode);
    assert!(vm.run(100).is_ok());
    assert!(!vm.is_halted());
    assert_eq!(vm.stack_depth(), 1);
}

#[test]
fn reset_clears_stack_and_halt() {
    let bytecode = assemble(vec![push_u8(1), op(b'h', b'l')]);
    let mut vm = VM::new(bytecode);
    vm.run(100).unwrap();
    assert!(vm.is_halted());
    vm.reset();
    assert!(!vm.is_halted());
    assert_eq!(vm.stack_depth(), 0);
    vm.run(100).unwrap();
    assert_eq!(vm.stack_depth(), 1);
}

#[test]
fn logical_ops_are_strict_boolean() {
    let mut bytecode = op(b'p', b's');
    bytecode.extend(VsfType::u0(true).flatten());
    bytecode.extend(op(b'p', b's'));
    bytecode.extend(VsfType::u0(false).flatten());
    bytecode.extend(op(b'o', b'r'));
    bytecode.extend(op(b'n', b't'));
    bytecode.extend(op(b'h', b'l'));
    let mut vm = VM::new(bytecode);
    vm.run(100).unwrap();
    assert!(matches!(vm.peek().unwrap(), Value::Bool(false)));
}

#[test]
fn debug_print_pops_into_the_log() {
    let bytecode = assemble(vec![push_u8(8), op(b'd', b'b'), op(b'h', b'l')]);
    let mut vm = VM::new(bytecode);
    vm.run(100).unwrap();
    assert_eq!(vm.stack_depth(), 0);
    assert_eq!(vm.debug_log().len(), 1);
    expect_u8(&vm.debug_log()[0], 8);
}
