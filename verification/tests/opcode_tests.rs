//! Opcode table tests.

use toka::opcode::{pack, Opcode};

#[test]
fn test_opcode_roundtrip() {
    let opcodes = [
        Opcode::push,
        Opcode::add,
        Opcode::fill_rect,
        Opcode::jump_if,
        Opcode::halt,
    ];

    for opcode in opcodes {
        let bytes = opcode.to_bytes();
        let parsed = Opcode::from_bytes(&bytes);
        assert_eq!(parsed, Some(opcode));
    }
}

#[test]
fn test_opcode_display() {
    assert_eq!(Opcode::push.display_string(), "{ps}");
    assert_eq!(Opcode::add.display_string(), "{ad}");
    assert_eq!(Opcode::fill_rect.display_string(), "{fr}");
}

#[test]
fn test_invalid_opcode() {
    assert_eq!(Opcode::from_bytes(b"zz"), None);
    assert_eq!(Opcode::from_bytes(b"XX"), None);
}

#[test]
fn test_pack_key() {
    assert_eq!(pack(b'p', b's'), 0x7073);
    assert_eq!(Opcode::from_u16(0x7073), Some(Opcode::push));
    assert_eq!(Opcode::from_u16(0x0000), None);
}

#[test]
fn test_roundtrip_via_packed_key() {
    let samples = [
        Opcode::pop,
        Opcode::dup_n,
        Opcode::local_tee,
        Opcode::mod_,
        Opcode::bit_xor,
        Opcode::typeof_,
        Opcode::return_value,
        Opcode::jump_zero,
        Opcode::nop,
    ];
    for op in samples {
        let b = op.to_bytes();
        assert_eq!(Opcode::from_u16(pack(b[0], b[1])), Some(op));
    }
}
