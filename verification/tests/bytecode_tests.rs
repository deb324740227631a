//! Standalone bytecode-parser tests.

use toka::bytecode::{BytecodeParser, Instruction};
use toka::opcode::Opcode;
use toka::value::Value;
use vsf::types::VsfType;

#[test]
fn test_parse_simple_program() {
    // Build bytecode: {ps} s44{1.0} {ps} s44{2.0} {ad} {hl}
    let mut bytecode = Vec::new();

    bytecode.extend(VsfType::op(b'p', b's').flatten());
    bytecode.extend([b's', b'4', b'4', 0x40, 0x00, 0x00, 0x01]);

    bytecode.extend(VsfType::op(b'p', b's').flatten());
    bytecode.extend([b's', b'4', b'4', 0x40, 0x00, 0x00, 0x02]);

    bytecode.extend(VsfType::op(b'a', b'd').flatten());

    bytecode.extend(VsfType::op(b'h', b'l').flatten());

    let mut parser = BytecodeParser::new(bytecode);
    let instructions = parser.parse_program().expect("Parse should succeed");

    // Should get: Op(push), Value(1.0), Op(push), Value(2.0), Op(add), Op(halt)
    assert_eq!(instructions.len(), 6);

    assert!(matches!(instructions[0], Instruction::Op(Opcode::push)));
    assert!(matches!(instructions[1], Instruction::Value(Value::S44(_))));
    assert!(matches!(instructions[2], Instruction::Op(Opcode::push)));
    assert!(matches!(instructions[3], Instruction::Value(Value::S44(_))));
    assert!(matches!(instructions[4], Instruction::Op(Opcode::add)));
    assert!(matches!(instructions[5], Instruction::Op(Opcode::halt)));
    assert!(parser.is_complete());
}

#[test]
fn test_parse_unknown_opcode() {
    // Build bytecode with invalid opcode {zz}
    let mut bytecode = Vec::new();
    bytecode.extend(VsfType::op(b'z', b'z').flatten());

    let mut parser = BytecodeParser::new(bytecode);
    let result = parser.parse_program();

    assert!(result.is_err());
    assert!(matches!(
        result.unwrap_err().kind,
        toka::errors::VmErrorKind::UnknownOpcode(b'z', b'z')
    ));
}

#[test]
fn test_parse_mixed_types() {
    // {ps} u3{42} {ps} rcw {hl}
    let mut bytecode = Vec::new();

    bytecode.extend(VsfType::op(b'p', b's').flatten());
    bytecode.extend(VsfType::u3(42).flatten());

    bytecode.extend(VsfType::op(b'p', b's').flatten());
    bytecode.extend(VsfType::rcw.flatten());

    bytecode.extend(VsfType::op(b'h', b'l').flatten());

    let mut parser = BytecodeParser::new(bytecode);
    let instructions = parser.parse_program().expect("Parse should succeed");

    assert_eq!(instructions.len(), 5);
    assert!(matches!(instructions[1], Instruction::Value(Value::U8(42))));
    assert!(matches!(instructions[3], Instruction::Value(Value::Colour(_))));
}

#[test]
fn parser_reports_the_offending_offset() {
    let mut bytecode = VsfType::op(b'n', b'p').flatten();
    let bad_at = bytecode.len();
    bytecode.push(0xff);

    let mut parser = BytecodeParser::new(bytecode);
    let err = parser.parse_program().unwrap_err();
    assert_eq!(err.ip, bad_at);
    assert!(matches!(err.kind, toka::errors::VmErrorKind::ValueParseError));
    assert_eq!(parser.position(), bad_at);
    assert!(!parser.is_complete());
}

#[test]
fn fresh_parser_position() {
    let parser = BytecodeParser::new(vec![1, 2, 3]);
    assert_eq!(parser.position(), 0);
    assert!(!parser.is_complete());
    let empty = BytecodeParser::new(Vec::new());
    assert!(empty.is_complete());
}
