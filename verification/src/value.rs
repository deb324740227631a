//! Stack and local-slot values.
//!
//! Every value carries its concrete subtype; no operation ever coerces one
//! subtype into another.  The deterministic scalar `s44` and paired
//! "circle" `c44` representations are held as their raw two's-complement
//! components (16-bit fraction and exponent), exactly the layout the wire
//! format carries.

use vstd::prelude::*;
use vstd::string::StrSliceExecFns;

verus! {

/// An `s44` scalar: 16-bit fraction, 16-bit exponent, two's complement.
#[derive(Debug, Clone, Copy, PartialEq, Eq, Structural)]
pub struct Sc44 {
    /// Normalized fraction component (significand).
    pub fraction: i16,
    /// Exponent component (scale).
    pub exponent: i16,
}

/// A `c44` circle (complex pair): two 16-bit fractions sharing one exponent.
#[derive(Debug, Clone, Copy, PartialEq, Eq, Structural)]
pub struct Ci44 {
    /// Real fraction component.
    pub real: i16,
    /// Imaginary fraction component.
    pub imaginary: i16,
    /// Shared exponent component.
    pub exponent: i16,
}

/// One of the wire format's named colour constants.
#[derive(Debug, Clone, Copy, PartialEq, Eq, Structural)]
pub enum Colour {
    /// `rck`
    Black,
    /// `rcw`
    White,
    /// `rcr`
    Red,
    /// `rcn`
    Green,
    /// `rcb`
    Blue,
    /// `rcc`
    Cyan,
    /// `rcj`
    Magenta,
    /// `rcy`
    Yellow,
    /// `rcg`
    Grey,
    /// `rco`
    Orange,
    /// `rcv`
    Violet,
    /// `rcl`
    Lime,
    /// `rcq`
    Aqua,
}

/// One typed value.  Copied by value on stack operations; no aliasing.
#[derive(Debug)]
pub enum Value {
    /// Boolean (`u0`); the only type accepted as a branch condition.
    Bool(bool),
    /// 8-bit unsigned integer (`u3`).
    U8(u8),
    /// 16-bit unsigned integer (`u4`).
    U16(u16),
    /// 32-bit unsigned integer (`u5`).
    U32(u32),
    /// 64-bit unsigned integer (`u6`).
    U64(u64),
    /// 128-bit unsigned integer (`u7`).
    U128(u128),
    /// 8-bit signed integer (`i3`).
    I8(i8),
    /// 16-bit signed integer (`i4`).
    I16(i16),
    /// 32-bit signed integer (`i5`).
    I32(i32),
    /// 64-bit signed integer (`i6`).
    I64(i64),
    /// 128-bit signed integer (`i7`).
    I128(i128),
    /// Deterministic scalar (`s44`): fraction and exponent components.
    S44(Sc44),
    /// Deterministic circle (`c44`): a complex pair sharing one exponent.
    C44(Ci44),
    /// Text (`a`, ASCII on the wire).
    Text(String),
    /// Named colour constant (`rc?`).
    Colour(Colour),
    /// Content hash (`hb`); a 32-byte hash is the capability to call or jump.
    Hash(Vec<u8>),
}

/// The concrete subtype of a value, used by type queries and to name both
/// sides of a type mismatch.
#[derive(Debug, Clone, Copy, PartialEq, Eq, Structural)]
pub enum TypeTag {
    /// Tag of [`Value::Bool`].
    Bool,
    /// Tag of [`Value::U8`].
    U8,
    /// Tag of [`Value::U16`].
    U16,
    /// Tag of [`Value::U32`].
    U32,
    /// Tag of [`Value::U64`].
    U64,
    /// Tag of [`Value::U128`].
    U128,
    /// Tag of [`Value::I8`].
    I8,
    /// Tag of [`Value::I16`].
    I16,
    /// Tag of [`Value::I32`].
    I32,
    /// Tag of [`Value::I64`].
    I64,
    /// Tag of [`Value::I128`].
    I128,
    /// Tag of [`Value::S44`].
    S44,
    /// Tag of [`Value::C44`].
    C44,
    /// Tag of [`Value::Text`].
    Text,
    /// Tag of [`Value::Colour`].
    Colour,
    /// Tag of [`Value::Hash`].
    Hash,
}

/// Mathematical model of a [`Value`]: text as a character sequence, hashes as
/// a byte sequence, everything else as itself.
pub enum ValueV {
    /// Model of [`Value::Bool`].
    Bool(bool),
    /// Model of [`Value::U8`].
    U8(u8),
    /// Model of [`Value::U16`].
    U16(u16),
    /// Model of [`Value::U32`].
    U32(u32),
    /// Model of [`Value::U64`].
    U64(u64),
    /// Model of [`Value::U128`].
    U128(u128),
    /// Model of [`Value::I8`].
    I8(i8),
    /// Model of [`Value::I16`].
    I16(i16),
    /// Model of [`Value::I32`].
    I32(i32),
    /// Model of [`Value::I64`].
    I64(i64),
    /// Model of [`Value::I128`].
    I128(i128),
    /// Model of [`Value::S44`].
    S44(Sc44),
    /// Model of [`Value::C44`].
    C44(Ci44),
    /// Model of [`Value::Text`].
    Text(Seq<char>),
    /// Model of [`Value::Colour`].
    Colour(Colour),
    /// Model of [`Value::Hash`].
    Hash(Seq<u8>),
}

impl Clone for Value {
    /// A clone is a fresh value with the same model.
    fn clone(&self) -> (r: Self)
        ensures
            r@ == self@,
    {
        let r = match self {
            Value::Bool(b) => Value::Bool(*b),
            Value::U8(v) => Value::U8(*v),
            Value::U16(v) => Value::U16(*v),
            Value::U32(v) => Value::U32(*v),
            Value::U64(v) => Value::U64(*v),
            Value::U128(v) => Value::U128(*v),
            Value::I8(v) => Value::I8(*v),
            Value::I16(v) => Value::I16(*v),
            Value::I32(v) => Value::I32(*v),
            Value::I64(v) => Value::I64(*v),
            Value::I128(v) => Value::I128(*v),
            Value::S44(s) => Value::S44(*s),
            Value::C44(x) => Value::C44(*x),
            Value::Text(s) => Value::Text(s.clone()),
            Value::Colour(x) => Value::Colour(*x),
            Value::Hash(h) => {
                let h2 = h.clone();
                proof {
                    assert(h2@ =~= h@);
                }
                Value::Hash(h2)
            },
        };
        r
    }
}

impl View for Value {
    type V = ValueV;

    open spec fn view(&self) -> ValueV {
        match self {
            Value::Bool(b) => ValueV::Bool(*b),
            Value::U8(v) => ValueV::U8(*v),
            Value::U16(v) => ValueV::U16(*v),
            Value::U32(v) => ValueV::U32(*v),
            Value::U64(v) => ValueV::U64(*v),
            Value::U128(v) => ValueV::U128(*v),
            Value::I8(v) => ValueV::I8(*v),
            Value::I16(v) => ValueV::I16(*v),
            Value::I32(v) => ValueV::I32(*v),
            Value::I64(v) => ValueV::I64(*v),
            Value::I128(v) => ValueV::I128(*v),
            Value::S44(s) => ValueV::S44(*s),
            Value::C44(c) => ValueV::C44(*c),
            Value::Text(s) => ValueV::Text(s@),
            Value::Colour(c) => ValueV::Colour(*c),
            Value::Hash(h) => ValueV::Hash(h@),
        }
    }
}

/// The concrete subtype of a modelled value.
pub open spec fn spec_tag(v: ValueV) -> TypeTag {
    match v {
        ValueV::Bool(_) => TypeTag::Bool,
        ValueV::U8(_) => TypeTag::U8,
        ValueV::U16(_) => TypeTag::U16,
        ValueV::U32(_) => TypeTag::U32,
        ValueV::U64(_) => TypeTag::U64,
        ValueV::U128(_) => TypeTag::U128,
        ValueV::I8(_) => TypeTag::I8,
        ValueV::I16(_) => TypeTag::I16,
        ValueV::I32(_) => TypeTag::I32,
        ValueV::I64(_) => TypeTag::I64,
        ValueV::I128(_) => TypeTag::I128,
        ValueV::S44(_) => TypeTag::S44,
        ValueV::C44(_) => TypeTag::C44,
        ValueV::Text(_) => TypeTag::Text,
        ValueV::Colour(_) => TypeTag::Colour,
        ValueV::Hash(_) => TypeTag::Hash,
    }
}

/// The wire-format name of a subtype, as the type query pushes it.
pub open spec fn spec_type_label(t: TypeTag) -> Seq<char> {
    match t {
        TypeTag::Bool => "u0"@,
        TypeTag::U8 => "u3"@,
        TypeTag::U16 => "u4"@,
        TypeTag::U32 => "u5"@,
        TypeTag::U64 => "u6"@,
        TypeTag::U128 => "u7"@,
        TypeTag::I8 => "i3"@,
        TypeTag::I16 => "i4"@,
        TypeTag::I32 => "i5"@,
        TypeTag::I64 => "i6"@,
        TypeTag::I128 => "i7"@,
        TypeTag::S44 => "s44"@,
        TypeTag::C44 => "c44"@,
        TypeTag::Text => "x"@,
        TypeTag::Colour => "colour"@,
        TypeTag::Hash => "hb"@,
    }
}

/// Whether a modelled value counts as "truthy": nonzero for numbers, nonempty
/// for text.  An `s44` or `c44` is zero exactly when both components are the
/// all-zero bit pattern; a hash or colour is always truthy.
pub open spec fn spec_is_truthy(v: ValueV) -> bool {
    match v {
        ValueV::Bool(b) => b,
        ValueV::U8(n) => n != 0,
        ValueV::U16(n) => n != 0,
        ValueV::U32(n) => n != 0,
        ValueV::U64(n) => n != 0,
        ValueV::U128(n) => n != 0,
        ValueV::I8(n) => n != 0,
        ValueV::I16(n) => n != 0,
        ValueV::I32(n) => n != 0,
        ValueV::I64(n) => n != 0,
        ValueV::I128(n) => n != 0,
        ValueV::S44(s) => !(s.fraction == 0 && s.exponent == 0),
        ValueV::C44(c) => !(c.real == 0 && c.imaginary == 0 && c.exponent == 0),
        ValueV::Text(s) => s.len() != 0,
        ValueV::Colour(_) => true,
        ValueV::Hash(_) => true,
    }
}

impl Value {
    /// The concrete subtype of this value.
    pub fn tag(&self) -> (r: TypeTag)
        ensures
            r == spec_tag(self@),
    {
        match self {
            Value::Bool(_) => TypeTag::Bool,
            Value::U8(_) => TypeTag::U8,
            Value::U16(_) => TypeTag::U16,
            Value::U32(_) => TypeTag::U32,
            Value::U64(_) => TypeTag::U64,
            Value::U128(_) => TypeTag::U128,
            Value::I8(_) => TypeTag::I8,
            Value::I16(_) => TypeTag::I16,
            Value::I32(_) => TypeTag::I32,
            Value::I64(_) => TypeTag::I64,
            Value::I128(_) => TypeTag::I128,
            Value::S44(_) => TypeTag::S44,
            Value::C44(_) => TypeTag::C44,
            Value::Text(_) => TypeTag::Text,
            Value::Colour(_) => TypeTag::Colour,
            Value::Hash(_) => TypeTag::Hash,
        }
    }

    /// The wire-format name of this value's subtype.
    pub fn type_label(&self) -> (r: String)
        ensures
            r@ == spec_type_label(spec_tag(self@)),
    {
        match self {
            Value::Bool(_) => "u0".to_owned(),
            Value::U8(_) => "u3".to_owned(),
            Value::U16(_) => "u4".to_owned(),
            Value::U32(_) => "u5".to_owned(),
            Value::U64(_) => "u6".to_owned(),
            Value::U128(_) => "u7".to_owned(),
            Value::I8(_) => "i3".to_owned(),
            Value::I16(_) => "i4".to_owned(),
            Value::I32(_) => "i5".to_owned(),
            Value::I64(_) => "i6".to_owned(),
            Value::I128(_) => "i7".to_owned(),
            Value::S44(_) => "s44".to_owned(),
            Value::C44(_) => "c44".to_owned(),
            Value::Text(_) => "x".to_owned(),
            Value::Colour(_) => "colour".to_owned(),
            Value::Hash(_) => "hb".to_owned(),
        }
    }

    /// Whether this value counts as "truthy".
    pub fn is_truthy(&self) -> (r: bool)
        ensures
            r == spec_is_truthy(self@),
    {
        match self {
            Value::Bool(b) => *b,
            Value::U8(n) => *n != 0,
            Value::U16(n) => *n != 0,
            Value::U32(n) => *n != 0,
            Value::U64(n) => *n != 0,
            Value::U128(n) => *n != 0,
            Value::I8(n) => *n != 0,
            Value::I16(n) => *n != 0,
            Value::I32(n) => *n != 0,
            Value::I64(n) => *n != 0,
            Value::I128(n) => *n != 0,
            Value::S44(s) => !(s.fraction == 0 && s.exponent == 0),
            Value::C44(c) => !(c.real == 0 && c.imaginary == 0 && c.exponent == 0),
            Value::Text(s) => s.as_str().unicode_len() != 0,
            Value::Colour(_) => true,
            Value::Hash(_) => true,
        }
    }
}

} // verus!
