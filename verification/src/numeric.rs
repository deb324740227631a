//! Type-safe numeric dispatch.
//!
//! A binary operation requires both operands to be the *same* concrete
//! subtype; two distinct subtypes always fail with a type mismatch naming the
//! operator and both subtypes, and nothing is ever coerced.  The integer
//! widths carry their own operators: two's-complement wrapping addition,
//! subtraction, multiplication, negation and complement; division and
//! remainder refuse a zero divisor by name, and the one signed overflow pair
//! (the minimum divided by minus one) wraps.  The wire format's scalar
//! (`s44`) and circle (`c44`) subtypes are carried and decoded as values,
//! but their operator library is an external collaborator that this crate
//! does not link, so every operation on them is refused by name — failed
//! closed, never approximated.

use vstd::prelude::*;

use crate::errors::VmErrorKind;
use crate::opcode::Opcode;
use crate::value::{TypeTag, Value, ValueV, spec_tag};

verus! {

/// A `Result` over values, with the value replaced by its model.
pub open spec fn res_view(r: Result<Value, VmErrorKind>) -> Result<ValueV, VmErrorKind> {
    match r {
        Ok(v) => Ok(v@),
        Err(e) => Err(e),
    }
}

/// The `u8` subtype's own operators: wrapping ring operations, exact
/// division and remainder for a nonzero divisor, bit-level logic.
pub open spec fn spec_u8_arith(op: Opcode, x: u8, y: u8) -> Result<ValueV, VmErrorKind> {
    match op {
        Opcode::add => Ok(ValueV::U8(vstd::wrapping::u8_specs::wrapping_add(x, y))),
        Opcode::sub => Ok(ValueV::U8(vstd::wrapping::u8_specs::wrapping_sub(x, y))),
        Opcode::mul => Ok(ValueV::U8(vstd::wrapping::u8_specs::wrapping_mul(x, y))),
        Opcode::div => if y == 0 {
            Err(VmErrorKind::DivisionByZero)
        } else {
            Ok(ValueV::U8((x / y) as u8))
        },
        Opcode::mod_ => if y == 0 {
            Err(VmErrorKind::DivisionByZero)
        } else {
            Ok(ValueV::U8((x % y) as u8))
        },
        Opcode::bit_and => Ok(ValueV::U8(x & y)),
        Opcode::bit_or => Ok(ValueV::U8(x | y)),
        Opcode::bit_xor => Ok(ValueV::U8(x ^ y)),
        _ => Err(VmErrorKind::TypeUnsupported(op, TypeTag::U8)),
    }
}

/// The `u16` subtype's own operators: wrapping ring operations, exact
/// division and remainder for a nonzero divisor, bit-level logic.
pub open spec fn spec_u16_arith(op: Opcode, x: u16, y: u16) -> Result<ValueV, VmErrorKind> {
    match op {
        Opcode::add => Ok(ValueV::U16(vstd::wrapping::u16_specs::wrapping_add(x, y))),
        Opcode::sub => Ok(ValueV::U16(vstd::wrapping::u16_specs::wrapping_sub(x, y))),
        Opcode::mul => Ok(ValueV::U16(vstd::wrapping::u16_specs::wrapping_mul(x, y))),
        Opcode::div => if y == 0 {
            Err(VmErrorKind::DivisionByZero)
        } else {
            Ok(ValueV::U16((x / y) as u16))
        },
        Opcode::mod_ => if y == 0 {
            Err(VmErrorKind::DivisionByZero)
        } else {
            Ok(ValueV::U16((x % y) as u16))
        },
        Opcode::bit_and => Ok(ValueV::U16(x & y)),
        Opcode::bit_or => Ok(ValueV::U16(x | y)),
        Opcode::bit_xor => Ok(ValueV::U16(x ^ y)),
        _ => Err(VmErrorKind::TypeUnsupported(op, TypeTag::U16)),
    }
}

/// The `u32` subtype's own operators: wrapping ring operations, exact
/// division and remainder for a nonzero divisor, bit-level logic.
pub open spec fn spec_u32_arith(op: Opcode, x: u32, y: u32) -> Result<ValueV, VmErrorKind> {
    match op {
        Opcode::add => Ok(ValueV::U32(vstd::wrapping::u32_specs::wrapping_add(x, y))),
        Opcode::sub => Ok(ValueV::U32(vstd::wrapping::u32_specs::wrapping_sub(x, y))),
        Opcode::mul => Ok(ValueV::U32(vstd::wrapping::u32_specs::wrapping_mul(x, y))),
        Opcode::div => if y == 0 {
            Err(VmErrorKind::DivisionByZero)
        } else {
            Ok(ValueV::U32((x / y) as u32))
        },
        Opcode::mod_ => if y == 0 {
            Err(VmErrorKind::DivisionByZero)
        } else {
            Ok(ValueV::U32((x % y) as u32))
        },
        Opcode::bit_and => Ok(ValueV::U32(x & y)),
        Opcode::bit_or => Ok(ValueV::U32(x | y)),
        Opcode::bit_xor => Ok(ValueV::U32(x ^ y)),
        _ => Err(VmErrorKind::TypeUnsupported(op, TypeTag::U32)),
    }
}

/// The `u64` subtype's own operators: wrapping ring operations, exact
/// division and remainder for a nonzero divisor, bit-level logic.
pub open spec fn spec_u64_arith(op: Opcode, x: u64, y: u64) -> Result<ValueV, VmErrorKind> {
    match op {
        Opcode::add => Ok(ValueV::U64(vstd::wrapping::u64_specs::wrapping_add(x, y))),
        Opcode::sub => Ok(ValueV::U64(vstd::wrapping::u64_specs::wrapping_sub(x, y))),
        Opcode::mul => Ok(ValueV::U64(vstd::wrapping::u64_specs::wrapping_mul(x, y))),
        Opcode::div => if y == 0 {
            Err(VmErrorKind::DivisionByZero)
        } else {
            Ok(ValueV::U64((x / y) as u64))
        },
        Opcode::mod_ => if y == 0 {
            Err(VmErrorKind::DivisionByZero)
        } else {
            Ok(ValueV::U64((x % y) as u64))
        },
        Opcode::bit_and => Ok(ValueV::U64(x & y)),
        Opcode::bit_or => Ok(ValueV::U64(x | y)),
        Opcode::bit_xor => Ok(ValueV::U64(x ^ y)),
        _ => Err(VmErrorKind::TypeUnsupported(op, TypeTag::U64)),
    }
}

/// The `u128` subtype's own operators: wrapping ring operations, exact
/// division and remainder for a nonzero divisor, bit-level logic.
pub open spec fn spec_u128_arith(op: Opcode, x: u128, y: u128) -> Result<ValueV, VmErrorKind> {
    match op {
        Opcode::add => Ok(ValueV::U128(vstd::wrapping::u128_specs::wrapping_add(x, y))),
        Opcode::sub => Ok(ValueV::U128(vstd::wrapping::u128_specs::wrapping_sub(x, y))),
        Opcode::mul => Ok(ValueV::U128(vstd::wrapping::u128_specs::wrapping_mul(x, y))),
        Opcode::div => if y == 0 {
            Err(VmErrorKind::DivisionByZero)
        } else {
            Ok(ValueV::U128((x / y) as u128))
        },
        Opcode::mod_ => if y == 0 {
            Err(VmErrorKind::DivisionByZero)
        } else {
            Ok(ValueV::U128((x % y) as u128))
        },
        Opcode::bit_and => Ok(ValueV::U128(x & y)),
        Opcode::bit_or => Ok(ValueV::U128(x | y)),
        Opcode::bit_xor => Ok(ValueV::U128(x ^ y)),
        _ => Err(VmErrorKind::TypeUnsupported(op, TypeTag::U128)),
    }
}

/// The `i8` subtype's own operators: wrapping ring operations,
/// truncating division and remainder for a nonzero divisor (the minimum
/// divided by minus one wraps to the minimum, its remainder to zero), and
/// bit-level logic.
pub open spec fn spec_i8_arith(op: Opcode, x: i8, y: i8) -> Result<ValueV, VmErrorKind> {
    match op {
        Opcode::add => Ok(ValueV::I8(vstd::wrapping::i8_specs::wrapping_add(x, y))),
        Opcode::sub => Ok(ValueV::I8(vstd::wrapping::i8_specs::wrapping_sub(x, y))),
        Opcode::mul => Ok(ValueV::I8(vstd::wrapping::i8_specs::wrapping_mul(x, y))),
        Opcode::div => if y == 0 {
            Err(VmErrorKind::DivisionByZero)
        } else {
            match i8::checked_div(x, y) {
                Some(q) => Ok(ValueV::I8(q)),
                None => Ok(ValueV::I8(i8::MIN)),
            }
        },
        Opcode::mod_ => if y == 0 {
            Err(VmErrorKind::DivisionByZero)
        } else {
            match i8::checked_rem(x, y) {
                Some(q) => Ok(ValueV::I8(q)),
                None => Ok(ValueV::I8(0)),
            }
        },
        Opcode::bit_and => Ok(ValueV::I8(x & y)),
        Opcode::bit_or => Ok(ValueV::I8(x | y)),
        Opcode::bit_xor => Ok(ValueV::I8(x ^ y)),
        _ => Err(VmErrorKind::TypeUnsupported(op, TypeTag::I8)),
    }
}

/// The `i16` subtype's own operators: wrapping ring operations,
/// truncating division and remainder for a nonzero divisor (the minimum
/// divided by minus one wraps to the minimum, its remainder to zero), and
/// bit-level logic.
pub open spec fn spec_i16_arith(op: Opcode, x: i16, y: i16) -> Result<ValueV, VmErrorKind> {
    match op {
        Opcode::add => Ok(ValueV::I16(vstd::wrapping::i16_specs::wrapping_add(x, y))),
        Opcode::sub => Ok(ValueV::I16(vstd::wrapping::i16_specs::wrapping_sub(x, y))),
        Opcode::mul => Ok(ValueV::I16(vstd::wrapping::i16_specs::wrapping_mul(x, y))),
        Opcode::div => if y == 0 {
            Err(VmErrorKind::DivisionByZero)
        } else {
            match i16::checked_div(x, y) {
                Some(q) => Ok(ValueV::I16(q)),
                None => Ok(ValueV::I16(i16::MIN)),
            }
        },
        Opcode::mod_ => if y == 0 {
            Err(VmErrorKind::DivisionByZero)
        } else {
            match i16::checked_rem(x, y) {
                Some(q) => Ok(ValueV::I16(q)),
                None => Ok(ValueV::I16(0)),
            }
        },
        Opcode::bit_and => Ok(ValueV::I16(x & y)),
        Opcode::bit_or => Ok(ValueV::I16(x | y)),
        Opcode::bit_xor => Ok(ValueV::I16(x ^ y)),
        _ => Err(VmErrorKind::TypeUnsupported(op, TypeTag::I16)),
    }
}

/// The `i32` subtype's own operators: wrapping ring operations,
/// truncating division and remainder for a nonzero divisor (the minimum
/// divided by minus one wraps to the minimum, its remainder to zero), and
/// bit-level logic.
pub open spec fn spec_i32_arith(op: Opcode, x: i32, y: i32) -> Result<ValueV, VmErrorKind> {
    match op {
        Opcode::add => Ok(ValueV::I32(vstd::wrapping::i32_specs::wrapping_add(x, y))),
        Opcode::sub => Ok(ValueV::I32(vstd::wrapping::i32_specs::wrapping_sub(x, y))),
        Opcode::mul => Ok(ValueV::I32(vstd::wrapping::i32_specs::wrapping_mul(x, y))),
        Opcode::div => if y == 0 {
            Err(VmErrorKind::DivisionByZero)
        } else {
            match i32::checked_div(x, y) {
                Some(q) => Ok(ValueV::I32(q)),
                None => Ok(ValueV::I32(i32::MIN)),
            }
        },
        Opcode::mod_ => if y == 0 {
            Err(VmErrorKind::DivisionByZero)
        } else {
            match i32::checked_rem(x, y) {
                Some(q) => Ok(ValueV::I32(q)),
                None => Ok(ValueV::I32(0)),
            }
        },
        Opcode::bit_and => Ok(ValueV::I32(x & y)),
        Opcode::bit_or => Ok(ValueV::I32(x | y)),
        Opcode::bit_xor => Ok(ValueV::I32(x ^ y)),
        _ => Err(VmErrorKind::TypeUnsupported(op, TypeTag::I32)),
    }
}

/// The `i64` subtype's own operators: wrapping ring operations,
/// truncating division and remainder for a nonzero divisor (the minimum
/// divided by minus one wraps to the minimum, its remainder to zero), and
/// bit-level logic.
pub open spec fn spec_i64_arith(op: Opcode, x: i64, y: i64) -> Result<ValueV, VmErrorKind> {
    match op {
        Opcode::add => Ok(ValueV::I64(vstd::wrapping::i64_specs::wrapping_add(x, y))),
        Opcode::sub => Ok(ValueV::I64(vstd::wrapping::i64_specs::wrapping_sub(x, y))),
        Opcode::mul => Ok(ValueV::I64(vstd::wrapping::i64_specs::wrapping_mul(x, y))),
        Opcode::div => if y == 0 {
            Err(VmErrorKind::DivisionByZero)
        } else {
            match i64::checked_div(x, y) {
                Some(q) => Ok(ValueV::I64(q)),
                None => Ok(ValueV::I64(i64::MIN)),
            }
        },
        Opcode::mod_ => if y == 0 {
            Err(VmErrorKind::DivisionByZero)
        } else {
            match i64::checked_rem(x, y) {
                Some(q) => Ok(ValueV::I64(q)),
                None => Ok(ValueV::I64(0)),
            }
        },
        Opcode::bit_and => Ok(ValueV::I64(x & y)),
        Opcode::bit_or => Ok(ValueV::I64(x | y)),
        Opcode::bit_xor => Ok(ValueV::I64(x ^ y)),
        _ => Err(VmErrorKind::TypeUnsupported(op, TypeTag::I64)),
    }
}

/// The `i128` subtype's own operators: wrapping ring operations,
/// truncating division and remainder for a nonzero divisor (the minimum
/// divided by minus one wraps to the minimum, its remainder to zero), and
/// bit-level logic.
pub open spec fn spec_i128_arith(op: Opcode, x: i128, y: i128) -> Result<ValueV, VmErrorKind> {
    match op {
        Opcode::add => Ok(ValueV::I128(vstd::wrapping::i128_specs::wrapping_add(x, y))),
        Opcode::sub => Ok(ValueV::I128(vstd::wrapping::i128_specs::wrapping_sub(x, y))),
        Opcode::mul => Ok(ValueV::I128(vstd::wrapping::i128_specs::wrapping_mul(x, y))),
        Opcode::div => if y == 0 {
            Err(VmErrorKind::DivisionByZero)
        } else {
            match i128::checked_div(x, y) {
                Some(q) => Ok(ValueV::I128(q)),
                None => Ok(ValueV::I128(i128::MIN)),
            }
        },
        Opcode::mod_ => if y == 0 {
            Err(VmErrorKind::DivisionByZero)
        } else {
            match i128::checked_rem(x, y) {
                Some(q) => Ok(ValueV::I128(q)),
                None => Ok(ValueV::I128(0)),
            }
        },
        Opcode::bit_and => Ok(ValueV::I128(x & y)),
        Opcode::bit_or => Ok(ValueV::I128(x | y)),
        Opcode::bit_xor => Ok(ValueV::I128(x ^ y)),
        _ => Err(VmErrorKind::TypeUnsupported(op, TypeTag::I128)),
    }
}

/// Binary arithmetic and bitwise dispatch: a mismatch of concrete subtypes
/// always fails, naming the operator and both subtypes; two operands of one
/// integer subtype are handed to that subtype's own operator; any other
/// subtype has no such operator here.
pub open spec fn spec_arith(op: Opcode, a: ValueV, b: ValueV) -> Result<ValueV, VmErrorKind> {
    if spec_tag(a) != spec_tag(b) {
        Err(VmErrorKind::TypeMismatch(op, spec_tag(a), spec_tag(b)))
    } else {
        match (a, b) {
            (ValueV::U8(x), ValueV::U8(y)) => spec_u8_arith(op, x, y),
            (ValueV::U16(x), ValueV::U16(y)) => spec_u16_arith(op, x, y),
            (ValueV::U32(x), ValueV::U32(y)) => spec_u32_arith(op, x, y),
            (ValueV::U64(x), ValueV::U64(y)) => spec_u64_arith(op, x, y),
            (ValueV::U128(x), ValueV::U128(y)) => spec_u128_arith(op, x, y),
            (ValueV::I8(x), ValueV::I8(y)) => spec_i8_arith(op, x, y),
            (ValueV::I16(x), ValueV::I16(y)) => spec_i16_arith(op, x, y),
            (ValueV::I32(x), ValueV::I32(y)) => spec_i32_arith(op, x, y),
            (ValueV::I64(x), ValueV::I64(y)) => spec_i64_arith(op, x, y),
            (ValueV::I128(x), ValueV::I128(y)) => spec_i128_arith(op, x, y),
            _ => Err(VmErrorKind::TypeUnsupported(op, spec_tag(a))),
        }
    }
}

/// Binary arithmetic and bitwise dispatch over concrete values.
#[verifier::rlimit(60)]
pub fn arith_op(op: Opcode, a: &Value, b: &Value) -> (r: Result<Value, VmErrorKind>)
    ensures
        res_view(r) == spec_arith(op, a@, b@),
{
    let ta = a.tag();
    let tb = b.tag();
    if ta == tb {
        match (a, b) {
            (Value::U8(x), Value::U8(y)) => match op {
                Opcode::add => Ok(Value::U8(x.wrapping_add(*y))),
                Opcode::sub => Ok(Value::U8(x.wrapping_sub(*y))),
                Opcode::mul => Ok(Value::U8(x.wrapping_mul(*y))),
                Opcode::div => if *y == 0 {
                    Err(VmErrorKind::DivisionByZero)
                } else {
                    Ok(Value::U8(*x / *y))
                },
                Opcode::mod_ => if *y == 0 {
                    Err(VmErrorKind::DivisionByZero)
                } else {
                    Ok(Value::U8(*x % *y))
                },
                Opcode::bit_and => Ok(Value::U8(*x & *y)),
                Opcode::bit_or => Ok(Value::U8(*x | *y)),
                Opcode::bit_xor => Ok(Value::U8(*x ^ *y)),
                _ => Err(VmErrorKind::TypeUnsupported(op, TypeTag::U8)),
            },
            (Value::U16(x), Value::U16(y)) => match op {
                Opcode::add => Ok(Value::U16(x.wrapping_add(*y))),
                Opcode::sub => Ok(Value::U16(x.wrapping_sub(*y))),
                Opcode::mul => Ok(Value::U16(x.wrapping_mul(*y))),
                Opcode::div => if *y == 0 {
                    Err(VmErrorKind::DivisionByZero)
                } else {
                    Ok(Value::U16(*x / *y))
                },
                Opcode::mod_ => if *y == 0 {
                    Err(VmErrorKind::DivisionByZero)
                } else {
                    Ok(Value::U16(*x % *y))
                },
                Opcode::bit_and => Ok(Value::U16(*x & *y)),
                Opcode::bit_or => Ok(Value::U16(*x | *y)),
                Opcode::bit_xor => Ok(Value::U16(*x ^ *y)),
                _ => Err(VmErrorKind::TypeUnsupported(op, TypeTag::U16)),
            },
            (Value::U32(x), Value::U32(y)) => match op {
                Opcode::add => Ok(Value::U32(x.wrapping_add(*y))),
                Opcode::sub => Ok(Value::U32(x.wrapping_sub(*y))),
                Opcode::mul => Ok(Value::U32(x.wrapping_mul(*y))),
                Opcode::div => if *y == 0 {
                    Err(VmErrorKind::DivisionByZero)
                } else {
                    Ok(Value::U32(*x / *y))
                },
                Opcode::mod_ => if *y == 0 {
                    Err(VmErrorKind::DivisionByZero)
                } else {
                    Ok(Value::U32(*x % *y))
                },
                Opcode::bit_and => Ok(Value::U32(*x & *y)),
                Opcode::bit_or => Ok(Value::U32(*x | *y)),
                Opcode::bit_xor => Ok(Value::U32(*x ^ *y)),
                _ => Err(VmErrorKind::TypeUnsupported(op, TypeTag::U32)),
            },
            (Value::U64(x), Value::U64(y)) => match op {
                Opcode::add => Ok(Value::U64(x.wrapping_add(*y))),
                Opcode::sub => Ok(Value::U64(x.wrapping_sub(*y))),
                Opcode::mul => Ok(Value::U64(x.wrapping_mul(*y))),
                Opcode::div => if *y == 0 {
                    Err(VmErrorKind::DivisionByZero)
                } else {
                    Ok(Value::U64(*x / *y))
                },
                Opcode::mod_ => if *y == 0 {
                    Err(VmErrorKind::DivisionByZero)
                } else {
                    Ok(Value::U64(*x % *y))
                },
                Opcode::bit_and => Ok(Value::U64(*x & *y)),
                Opcode::bit_or => Ok(Value::U64(*x | *y)),
                Opcode::bit_xor => Ok(Value::U64(*x ^ *y)),
                _ => Err(VmErrorKind::TypeUnsupported(op, TypeTag::U64)),
            },
            (Value::U128(x), Value::U128(y)) => match op {
                Opcode::add => Ok(Value::U128(x.wrapping_add(*y))),
                Opcode::sub => Ok(Value::U128(x.wrapping_sub(*y))),
                Opcode::mul => Ok(Value::U128(x.wrapping_mul(*y))),
                Opcode::div => if *y == 0 {
                    Err(VmErrorKind::DivisionByZero)
                } else {
                    Ok(Value::U128(*x / *y))
                },
                Opcode::mod_ => if *y == 0 {
                    Err(VmErrorKind::DivisionByZero)
                } else {
                    Ok(Value::U128(*x % *y))
                },
                Opcode::bit_and => Ok(Value::U128(*x & *y)),
                Opcode::bit_or => Ok(Value::U128(*x | *y)),
                Opcode::bit_xor => Ok(Value::U128(*x ^ *y)),
                _ => Err(VmErrorKind::TypeUnsupported(op, TypeTag::U128)),
            },
            (Value::I8(x), Value::I8(y)) => match op {
                Opcode::add => Ok(Value::I8(x.wrapping_add(*y))),
                Opcode::sub => Ok(Value::I8(x.wrapping_sub(*y))),
                Opcode::mul => Ok(Value::I8(x.wrapping_mul(*y))),
                Opcode::div => if *y == 0 {
                    Err(VmErrorKind::DivisionByZero)
                } else {
                    match x.checked_div(*y) {
                        Some(q) => Ok(Value::I8(q)),
                        None => Ok(Value::I8(i8::MIN)),
                    }
                },
                Opcode::mod_ => if *y == 0 {
                    Err(VmErrorKind::DivisionByZero)
                } else {
                    match x.checked_rem(*y) {
                        Some(q) => Ok(Value::I8(q)),
                        None => Ok(Value::I8(0)),
                    }
                },
                Opcode::bit_and => Ok(Value::I8(*x & *y)),
                Opcode::bit_or => Ok(Value::I8(*x | *y)),
                Opcode::bit_xor => Ok(Value::I8(*x ^ *y)),
                _ => Err(VmErrorKind::TypeUnsupported(op, TypeTag::I8)),
            },
            (Value::I16(x), Value::I16(y)) => match op {
                Opcode::add => Ok(Value::I16(x.wrapping_add(*y))),
                Opcode::sub => Ok(Value::I16(x.wrapping_sub(*y))),
                Opcode::mul => Ok(Value::I16(x.wrapping_mul(*y))),
                Opcode::div => if *y == 0 {
                    Err(VmErrorKind::DivisionByZero)
                } else {
                    match x.checked_div(*y) {
                        Some(q) => Ok(Value::I16(q)),
                        None => Ok(Value::I16(i16::MIN)),
                    }
                },
                Opcode::mod_ => if *y == 0 {
                    Err(VmErrorKind::DivisionByZero)
                } else {
                    match x.checked_rem(*y) {
                        Some(q) => Ok(Value::I16(q)),
                        None => Ok(Value::I16(0)),
                    }
                },
                Opcode::bit_and => Ok(Value::I16(*x & *y)),
                Opcode::bit_or => Ok(Value::I16(*x | *y)),
                Opcode::bit_xor => Ok(Value::I16(*x ^ *y)),
                _ => Err(VmErrorKind::TypeUnsupported(op, TypeTag::I16)),
            },
            (Value::I32(x), Value::I32(y)) => match op {
                Opcode::add => Ok(Value::I32(x.wrapping_add(*y))),
                Opcode::sub => Ok(Value::I32(x.wrapping_sub(*y))),
                Opcode::mul => Ok(Value::I32(x.wrapping_mul(*y))),
                Opcode::div => if *y == 0 {
                    Err(VmErrorKind::DivisionByZero)
                } else {
                    match x.checked_div(*y) {
                        Some(q) => Ok(Value::I32(q)),
                        None => Ok(Value::I32(i32::MIN)),
                    }
                },
                Opcode::mod_ => if *y == 0 {
                    Err(VmErrorKind::DivisionByZero)
                } else {
                    match x.checked_rem(*y) {
                        Some(q) => Ok(Value::I32(q)),
                        None => Ok(Value::I32(0)),
                    }
                },
                Opcode::bit_and => Ok(Value::I32(*x & *y)),
                Opcode::bit_or => Ok(Value::I32(*x | *y)),
                Opcode::bit_xor => Ok(Value::I32(*x ^ *y)),
                _ => Err(VmErrorKind::TypeUnsupported(op, TypeTag::I32)),
            },
            (Value::I64(x), Value::I64(y)) => match op {
                Opcode::add => Ok(Value::I64(x.wrapping_add(*y))),
                Opcode::sub => Ok(Value::I64(x.wrapping_sub(*y))),
                Opcode::mul => Ok(Value::I64(x.wrapping_mul(*y))),
                Opcode::div => if *y == 0 {
                    Err(VmErrorKind::DivisionByZero)
                } else {
                    match x.checked_div(*y) {
                        Some(q) => Ok(Value::I64(q)),
                        None => Ok(Value::I64(i64::MIN)),
                    }
                },
                Opcode::mod_ => if *y == 0 {
                    Err(VmErrorKind::DivisionByZero)
                } else {
                    match x.checked_rem(*y) {
                        Some(q) => Ok(Value::I64(q)),
                        None => Ok(Value::I64(0)),
                    }
                },
                Opcode::bit_and => Ok(Value::I64(*x & *y)),
                Opcode::bit_or => Ok(Value::I64(*x | *y)),
                Opcode::bit_xor => Ok(Value::I64(*x ^ *y)),
                _ => Err(VmErrorKind::TypeUnsupported(op, TypeTag::I64)),
            },
            (Value::I128(x), Value::I128(y)) => match op {
                Opcode::add => Ok(Value::I128(x.wrapping_add(*y))),
                Opcode::sub => Ok(Value::I128(x.wrapping_sub(*y))),
                Opcode::mul => Ok(Value::I128(x.wrapping_mul(*y))),
                Opcode::div => if *y == 0 {
                    Err(VmErrorKind::DivisionByZero)
                } else {
                    match x.checked_div(*y) {
                        Some(q) => Ok(Value::I128(q)),
                        None => Ok(Value::I128(i128::MIN)),
                    }
                },
                Opcode::mod_ => if *y == 0 {
                    Err(VmErrorKind::DivisionByZero)
                } else {
                    match x.checked_rem(*y) {
                        Some(q) => Ok(Value::I128(q)),
                        None => Ok(Value::I128(0)),
                    }
                },
                Opcode::bit_and => Ok(Value::I128(*x & *y)),
                Opcode::bit_or => Ok(Value::I128(*x | *y)),
                Opcode::bit_xor => Ok(Value::I128(*x ^ *y)),
                _ => Err(VmErrorKind::TypeUnsupported(op, TypeTag::I128)),
            },
            _ => Err(VmErrorKind::TypeUnsupported(op, ta)),
        }
    } else {
        Err(VmErrorKind::TypeMismatch(op, ta, tb))
    }
}

/// Unary negation: defined per-subtype for the signed integer widths
/// (two's complement wrap at the minimum); every other subtype is refused
/// by name.
pub open spec fn spec_neg(op: Opcode, a: ValueV) -> Result<ValueV, VmErrorKind> {
    match a {
        ValueV::I8(n) => Ok(ValueV::I8(if n == i8::MIN { n } else { (-(n as int)) as i8 })),
        ValueV::I16(n) => Ok(ValueV::I16(if n == i16::MIN { n } else { (-(n as int)) as i16 })),
        ValueV::I32(n) => Ok(ValueV::I32(if n == i32::MIN { n } else { (-(n as int)) as i32 })),
        ValueV::I64(n) => Ok(ValueV::I64(if n == i64::MIN { n } else { (-(n as int)) as i64 })),
        ValueV::I128(n) => Ok(ValueV::I128(if n == i128::MIN { n } else { (-(n as int)) as i128 })),
        _ => Err(VmErrorKind::TypeUnsupported(op, spec_tag(a))),
    }
}

/// Unary negation over concrete values.
pub fn neg_op(op: Opcode, a: &Value) -> (r: Result<Value, VmErrorKind>)
    ensures
        res_view(r) == spec_neg(op, a@),
{
    match a {
            Value::I8(n) => Ok(Value::I8(if *n == i8::MIN { i8::MIN } else { -*n })),
            Value::I16(n) => Ok(Value::I16(if *n == i16::MIN { i16::MIN } else { -*n })),
            Value::I32(n) => Ok(Value::I32(if *n == i32::MIN { i32::MIN } else { -*n })),
            Value::I64(n) => Ok(Value::I64(if *n == i64::MIN { i64::MIN } else { -*n })),
            Value::I128(n) => Ok(Value::I128(if *n == i128::MIN { i128::MIN } else { -*n })),
        _ => Err(VmErrorKind::TypeUnsupported(op, a.tag())),
    }
}

/// Bitwise complement: defined per-subtype for the integer widths; every
/// other subtype is refused by name.
pub open spec fn spec_bit_not(op: Opcode, a: ValueV) -> Result<ValueV, VmErrorKind> {
    match a {
        ValueV::U8(n) => Ok(ValueV::U8(!n)),
        ValueV::U16(n) => Ok(ValueV::U16(!n)),
        ValueV::U32(n) => Ok(ValueV::U32(!n)),
        ValueV::U64(n) => Ok(ValueV::U64(!n)),
        ValueV::U128(n) => Ok(ValueV::U128(!n)),
        ValueV::I8(n) => Ok(ValueV::I8(!n)),
        ValueV::I16(n) => Ok(ValueV::I16(!n)),
        ValueV::I32(n) => Ok(ValueV::I32(!n)),
        ValueV::I64(n) => Ok(ValueV::I64(!n)),
        ValueV::I128(n) => Ok(ValueV::I128(!n)),
        _ => Err(VmErrorKind::TypeUnsupported(op, spec_tag(a))),
    }
}

/// Bitwise complement over concrete values.
pub fn bit_not_op(op: Opcode, a: &Value) -> (r: Result<Value, VmErrorKind>)
    ensures
        res_view(r) == spec_bit_not(op, a@),
{
    match a {
            Value::U8(n) => Ok(Value::U8(!*n)),
            Value::U16(n) => Ok(Value::U16(!*n)),
            Value::U32(n) => Ok(Value::U32(!*n)),
            Value::U64(n) => Ok(Value::U64(!*n)),
            Value::U128(n) => Ok(Value::U128(!*n)),
            Value::I8(n) => Ok(Value::I8(!*n)),
            Value::I16(n) => Ok(Value::I16(!*n)),
            Value::I32(n) => Ok(Value::I32(!*n)),
            Value::I64(n) => Ok(Value::I64(!*n)),
            Value::I128(n) => Ok(Value::I128(!*n)),
        _ => Err(VmErrorKind::TypeUnsupported(op, a.tag())),
    }
}

/// Whether two same-subtype values are equal, where equality is defined:
/// bit-for-bit for integers, booleans, text, colours and hashes.  The
/// scalar and circle subtypes have no equality here: their family defines
/// its own (under which its undefined values equal nothing), and no
/// implementation of it is available to delegate to.
pub open spec fn spec_value_eq(a: ValueV, b: ValueV) -> Option<bool> {
    match (a, b) {
        (ValueV::Bool(x), ValueV::Bool(y)) => Some(x == y),
        (ValueV::U8(x), ValueV::U8(y)) => Some(x == y),
        (ValueV::U16(x), ValueV::U16(y)) => Some(x == y),
        (ValueV::U32(x), ValueV::U32(y)) => Some(x == y),
        (ValueV::U64(x), ValueV::U64(y)) => Some(x == y),
        (ValueV::U128(x), ValueV::U128(y)) => Some(x == y),
        (ValueV::I8(x), ValueV::I8(y)) => Some(x == y),
        (ValueV::I16(x), ValueV::I16(y)) => Some(x == y),
        (ValueV::I32(x), ValueV::I32(y)) => Some(x == y),
        (ValueV::I64(x), ValueV::I64(y)) => Some(x == y),
        (ValueV::I128(x), ValueV::I128(y)) => Some(x == y),
        (ValueV::Text(x), ValueV::Text(y)) => Some(x == y),
        (ValueV::Colour(x), ValueV::Colour(y)) => Some(x == y),
        (ValueV::Hash(x), ValueV::Hash(y)) => Some(x == y),
        _ => None,
    }
}

/// Whether two byte vectors hold the same bytes.
pub fn bytes_eq(a: &Vec<u8>, b: &Vec<u8>) -> (r: bool)
    ensures
        r == (a@ == b@),
{
    if a.len() != b.len() {
        assert(a@ != b@);
        return false;
    }
    let n = a.len();
    let mut i: usize = 0;
    while i < n
        invariant
            n == a.len() == b.len(),
            i <= n,
            forall|j: int| 0 <= j < i ==> a@[j] == b@[j],
        decreases n - i,
    {
        if a[i] != b[i] {
            assert(a@[i as int] != b@[i as int]);
            return false;
        }
        i = i + 1;
    }
    assert(a@ =~= b@);
    true
}

/// The order of two same-subtype values, where one is defined, encoded as
/// 0 less, 1 equal, 2 greater.
pub open spec fn spec_order(a: ValueV, b: ValueV) -> Option<int> {
    match (a, b) {
        (ValueV::U8(x), ValueV::U8(y)) => Some(if x < y { 0int } else if x == y { 1int } else { 2int }),
        (ValueV::U16(x), ValueV::U16(y)) => Some(if x < y { 0int } else if x == y { 1int } else { 2int }),
        (ValueV::U32(x), ValueV::U32(y)) => Some(if x < y { 0int } else if x == y { 1int } else { 2int }),
        (ValueV::U64(x), ValueV::U64(y)) => Some(if x < y { 0int } else if x == y { 1int } else { 2int }),
        (ValueV::U128(x), ValueV::U128(y)) => Some(if x < y { 0int } else if x == y { 1int } else { 2int }),
        (ValueV::I8(x), ValueV::I8(y)) => Some(if x < y { 0int } else if x == y { 1int } else { 2int }),
        (ValueV::I16(x), ValueV::I16(y)) => Some(if x < y { 0int } else if x == y { 1int } else { 2int }),
        (ValueV::I32(x), ValueV::I32(y)) => Some(if x < y { 0int } else if x == y { 1int } else { 2int }),
        (ValueV::I64(x), ValueV::I64(y)) => Some(if x < y { 0int } else if x == y { 1int } else { 2int }),
        (ValueV::I128(x), ValueV::I128(y)) => Some(if x < y { 0int } else if x == y { 1int } else { 2int }),
        _ => None,
    }
}

/// Equality and ordering dispatch.  The result is always a strict boolean,
/// never a numeric zero or one; a mismatch of concrete subtypes always
/// fails naming both subtypes; a same-subtype pair without a defined
/// equality or order is refused by name.
pub open spec fn spec_compare(op: Opcode, a: ValueV, b: ValueV) -> Result<ValueV, VmErrorKind> {
    if spec_tag(a) != spec_tag(b) {
        Err(VmErrorKind::TypeMismatch(op, spec_tag(a), spec_tag(b)))
    } else if op == Opcode::eq || op == Opcode::ne {
        match spec_value_eq(a, b) {
            Some(e) => Ok(ValueV::Bool(if op == Opcode::eq { e } else { !e })),
            None => Err(VmErrorKind::TypeUnsupported(op, spec_tag(a))),
        }
    } else {
        match spec_order(a, b) {
            Some(c) => Ok(ValueV::Bool(
                if op == Opcode::lt { c == 0 }
                else if op == Opcode::le { c == 0 || c == 1 }
                else if op == Opcode::gt { c == 2 }
                else { c == 1 || c == 2 }
            )),
            None => Err(VmErrorKind::TypeUnsupported(op, spec_tag(a))),
        }
    }
}

/// Equality and ordering dispatch over concrete values.
pub fn compare_op(op: Opcode, a: &Value, b: &Value) -> (r: Result<Value, VmErrorKind>)
    requires
        op == Opcode::eq || op == Opcode::ne || op == Opcode::lt || op == Opcode::le
            || op == Opcode::gt || op == Opcode::ge,
    ensures
        res_view(r) == spec_compare(op, a@, b@),
{
    let ta = a.tag();
    let tb = b.tag();
    if !(ta == tb) {
        return Err(VmErrorKind::TypeMismatch(op, ta, tb));
    }
    if matches!(op, Opcode::eq | Opcode::ne) {
        let e: bool = match (a, b) {
            (Value::Bool(x), Value::Bool(y)) => *x == *y,
            (Value::U8(x), Value::U8(y)) => *x == *y,
            (Value::U16(x), Value::U16(y)) => *x == *y,
            (Value::U32(x), Value::U32(y)) => *x == *y,
            (Value::U64(x), Value::U64(y)) => *x == *y,
            (Value::U128(x), Value::U128(y)) => *x == *y,
            (Value::I8(x), Value::I8(y)) => *x == *y,
            (Value::I16(x), Value::I16(y)) => *x == *y,
            (Value::I32(x), Value::I32(y)) => *x == *y,
            (Value::I64(x), Value::I64(y)) => *x == *y,
            (Value::I128(x), Value::I128(y)) => *x == *y,
            (Value::Text(x), Value::Text(y)) => (*x).eq(y),
            (Value::Colour(x), Value::Colour(y)) => *x == *y,
            (Value::Hash(x), Value::Hash(y)) => bytes_eq(x, y),
            _ => {
                return Err(VmErrorKind::TypeUnsupported(op, ta));
            },
        };
        Ok(Value::Bool(if matches!(op, Opcode::eq) { e } else { !e }))
    } else {
        let c: u8 = match (a, b) {
            (Value::U8(x), Value::U8(y)) => if *x < *y { 0 } else if *x == *y { 1 } else { 2 },
            (Value::U16(x), Value::U16(y)) => if *x < *y { 0 } else if *x == *y { 1 } else { 2 },
            (Value::U32(x), Value::U32(y)) => if *x < *y { 0 } else if *x == *y { 1 } else { 2 },
            (Value::U64(x), Value::U64(y)) => if *x < *y { 0 } else if *x == *y { 1 } else { 2 },
            (Value::U128(x), Value::U128(y)) => if *x < *y { 0 } else if *x == *y { 1 } else { 2 },
            (Value::I8(x), Value::I8(y)) => if *x < *y { 0 } else if *x == *y { 1 } else { 2 },
            (Value::I16(x), Value::I16(y)) => if *x < *y { 0 } else if *x == *y { 1 } else { 2 },
            (Value::I32(x), Value::I32(y)) => if *x < *y { 0 } else if *x == *y { 1 } else { 2 },
            (Value::I64(x), Value::I64(y)) => if *x < *y { 0 } else if *x == *y { 1 } else { 2 },
            (Value::I128(x), Value::I128(y)) => if *x < *y { 0 } else if *x == *y { 1 } else { 2 },
            _ => {
                return Err(VmErrorKind::TypeUnsupported(op, ta));
            },
        };
        Ok(Value::Bool(match op {
            Opcode::lt => c == 0,
            Opcode::le => c == 0 || c == 1,
            Opcode::gt => c == 2,
            _ => c == 1 || c == 2,
        }))
    }
}

/// Strict boolean logic: conjunction and disjunction are defined for two
/// booleans alone; a mismatch of subtypes fails naming both; no other
/// subtype has a truth value here.
pub open spec fn spec_logic(op: Opcode, a: ValueV, b: ValueV) -> Result<ValueV, VmErrorKind> {
    if spec_tag(a) != spec_tag(b) {
        Err(VmErrorKind::TypeMismatch(op, spec_tag(a), spec_tag(b)))
    } else {
        match (a, b) {
            (ValueV::Bool(x), ValueV::Bool(y)) => Ok(ValueV::Bool(
                if op == Opcode::and { x && y } else { x || y },
            )),
            _ => Err(VmErrorKind::TypeUnsupported(op, spec_tag(a))),
        }
    }
}

/// Strict boolean logic over concrete values.
pub fn logic_op(op: Opcode, a: &Value, b: &Value) -> (r: Result<Value, VmErrorKind>)
    requires
        op == Opcode::and || op == Opcode::or,
    ensures
        res_view(r) == spec_logic(op, a@, b@),
{
    let ta = a.tag();
    let tb = b.tag();
    if !(ta == tb) {
        return Err(VmErrorKind::TypeMismatch(op, ta, tb));
    }
    match (a, b) {
        (Value::Bool(x), Value::Bool(y)) => Ok(Value::Bool(
            if matches!(op, Opcode::and) { *x && *y } else { *x || *y },
        )),
        _ => Err(VmErrorKind::TypeUnsupported(op, ta)),
    }
}

/// Law: every binary operation over two operands of distinct concrete
/// subtypes fails with a type mismatch naming the operator and both
/// subtypes, for every operator; nothing is coerced and no pair is passed
/// over in silence.
pub proof fn lemma_type_mismatch_total(op: Opcode, a: ValueV, b: ValueV)
    requires
        spec_tag(a) != spec_tag(b),
    ensures
        spec_arith(op, a, b) == Err::<ValueV, VmErrorKind>(
            VmErrorKind::TypeMismatch(op, spec_tag(a), spec_tag(b))),
        spec_compare(op, a, b) == Err::<ValueV, VmErrorKind>(
            VmErrorKind::TypeMismatch(op, spec_tag(a), spec_tag(b))),
        spec_logic(op, a, b) == Err::<ValueV, VmErrorKind>(
            VmErrorKind::TypeMismatch(op, spec_tag(a), spec_tag(b))),
{
}

} // verus!
