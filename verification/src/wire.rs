//! Decoder for the executable subset of the wire format.
//!
//! The bytecode stream is a flat sequence of self-describing values.  The
//! engine executes the subset it has types for: opcode markers `{ab}`,
//! booleans and the fixed integer widths (big-endian), the scalar `s44` and
//! circle `c44` (components big-endian), the named colour
//! constants `rc?`, and content hashes `hb`.  Anything else in the stream is
//! a parse error to the engine, never something it skips.
//!
//! The byte-level meaning of each form is stated here as spec functions;
//! the decoder is proved to follow them exactly.

use vstd::prelude::*;

use crate::value::{Ci44, Colour, Sc44, Value, ValueV};

verus! {

broadcast use vstd::std_specs::vec::axiom_spec_len;

/// One decoded stream element: an opcode marker or a data literal.
#[derive(Debug)]
pub enum Token {
    /// An opcode marker `{ab}` with its two mnemonic letters.
    Op(u8, u8),
    /// A data literal.
    Lit(Value),
}

/// Mathematical model of a [`Token`].
pub enum TokenV {
    /// Model of [`Token::Op`].
    Op(u8, u8),
    /// Model of [`Token::Lit`].
    Lit(ValueV),
}

impl View for Token {
    type V = TokenV;

    open spec fn view(&self) -> TokenV {
        match self {
            Token::Op(a, b) => TokenV::Op(*a, *b),
            Token::Lit(v) => TokenV::Lit(v@),
        }
    }
}

/// Big-endian value of two bytes.
pub open spec fn be2(data: Seq<u8>, pos: int) -> int {
    data[pos] * 256 + data[pos + 1]
}

/// Big-endian value of four bytes.
pub open spec fn be4(data: Seq<u8>, pos: int) -> int {
    be2(data, pos) * 0x10000 + be2(data, pos + 2)
}

/// Big-endian value of eight bytes.
pub open spec fn be8(data: Seq<u8>, pos: int) -> int {
    be4(data, pos) * 0x1_0000_0000 + be4(data, pos + 4)
}

/// Big-endian value of sixteen bytes.
pub open spec fn be16(data: Seq<u8>, pos: int) -> int {
    be8(data, pos) * 0x1_0000_0000_0000_0000 + be8(data, pos + 8)
}

/// Two's-complement reading of an unsigned value: `v` itself below `half`,
/// else `v - full`.
pub open spec fn signed_of(v: int, half: int, full: int) -> int {
    if v < half {
        v
    } else {
        v - full
    }
}

/// Whether a byte is a lowercase ASCII letter, the only letters an opcode
/// marker may hold.
pub open spec fn is_lower(b: u8) -> bool {
    0x61 <= b <= 0x7a
}

/// The colour constant a letter names, if any.
pub open spec fn spec_colour_of(b: u8) -> Option<Colour> {
    if b == 0x6b {
        Some(Colour::Black)
    } else if b == 0x77 {
        Some(Colour::White)
    } else if b == 0x72 {
        Some(Colour::Red)
    } else if b == 0x6e {
        Some(Colour::Green)
    } else if b == 0x62 {
        Some(Colour::Blue)
    } else if b == 0x63 {
        Some(Colour::Cyan)
    } else if b == 0x6a {
        Some(Colour::Magenta)
    } else if b == 0x79 {
        Some(Colour::Yellow)
    } else if b == 0x67 {
        Some(Colour::Grey)
    } else if b == 0x6f {
        Some(Colour::Orange)
    } else if b == 0x76 {
        Some(Colour::Violet)
    } else if b == 0x6c {
        Some(Colour::Lime)
    } else if b == 0x71 {
        Some(Colour::Aqua)
    } else {
        None
    }
}

/// The value and width of an unsigned-integer literal at `pos + 1`, after a
/// `u` tag: a bare `0`/`255` byte reads as a boolean (the canonical form,
/// the only one the codec's encoder emits); the width digits `3` to `7`
/// read one to sixteen big-endian bytes.
pub open spec fn spec_parse_unsigned(data: Seq<u8>, pos: int) -> Option<(ValueV, int)> {
    if pos + 2 > data.len() {
        None
    } else {
        let m = data[pos + 1];
        if m == 0 || m == 255 {
            Some((ValueV::Bool(m == 255), pos + 2))
        } else if m == 0x33 {
            if pos + 3 > data.len() {
                None
            } else {
                Some((ValueV::U8(data[pos + 2]), pos + 3))
            }
        } else if m == 0x34 {
            if pos + 4 > data.len() {
                None
            } else {
                Some((ValueV::U16(be2(data, pos + 2) as u16), pos + 4))
            }
        } else if m == 0x35 {
            if pos + 6 > data.len() {
                None
            } else {
                Some((ValueV::U32(be4(data, pos + 2) as u32), pos + 6))
            }
        } else if m == 0x36 {
            if pos + 10 > data.len() {
                None
            } else {
                Some((ValueV::U64(be8(data, pos + 2) as u64), pos + 10))
            }
        } else if m == 0x37 {
            if pos + 18 > data.len() {
                None
            } else {
                Some((ValueV::U128(be16(data, pos + 2) as u128), pos + 18))
            }
        } else {
            None
        }
    }
}

/// The value and width of a signed-integer literal at `pos + 1`, after an
/// `i` tag: width digits `3` to `7`, one to sixteen big-endian bytes, two's
/// complement.
pub open spec fn spec_parse_signed(data: Seq<u8>, pos: int) -> Option<(ValueV, int)> {
    if pos + 2 > data.len() {
        None
    } else {
        let m = data[pos + 1];
        if m == 0x33 {
            if pos + 3 > data.len() {
                None
            } else {
                Some((ValueV::I8(signed_of(data[pos + 2] as int, 0x80, 0x100) as i8), pos + 3))
            }
        } else if m == 0x34 {
            if pos + 4 > data.len() {
                None
            } else {
                Some((ValueV::I16(signed_of(be2(data, pos + 2), 0x8000, 0x10000) as i16), pos + 4))
            }
        } else if m == 0x35 {
            if pos + 6 > data.len() {
                None
            } else {
                Some((
                    ValueV::I32(signed_of(be4(data, pos + 2), 0x8000_0000, 0x1_0000_0000) as i32),
                    pos + 6,
                ))
            }
        } else if m == 0x36 {
            if pos + 10 > data.len() {
                None
            } else {
                Some((
                    ValueV::I64(
                        signed_of(
                            be8(data, pos + 2),
                            0x8000_0000_0000_0000,
                            0x1_0000_0000_0000_0000,
                        ) as i64,
                    ),
                    pos + 10,
                ))
            }
        } else if m == 0x37 {
            if pos + 18 > data.len() {
                None
            } else {
                Some((
                    ValueV::I128(
                        signed_of(
                            be16(data, pos + 2),
                            0x8000_0000_0000_0000_0000_0000_0000_0000int,
                            0x1_0000_0000_0000_0000_0000_0000_0000_0000int,
                        ) as i128,
                    ),
                    pos + 18,
                ))
            }
        } else {
            None
        }
    }
}

/// One decoded value of the executable subset at `pos`, with the position
/// just past it; `None` where the bytes are no such value.
pub open spec fn spec_parse(data: Seq<u8>, pos: int) -> Option<(TokenV, int)> {
    if pos < 0 || pos >= data.len() {
        None
    } else {
        let t = data[pos];
        if t == 0x7b {
            // `{ab}`: opcode marker, two lowercase letters.
            if pos + 4 > data.len() {
                None
            } else if data[pos + 3] == 0x7d && is_lower(data[pos + 1]) && is_lower(data[pos + 2]) {
                Some((TokenV::Op(data[pos + 1], data[pos + 2]), pos + 4))
            } else {
                None
            }
        } else if t == 0x75 {
            // `u`: boolean or unsigned integer.
            match spec_parse_unsigned(data, pos) {
                Some((v, p)) => Some((TokenV::Lit(v), p)),
                None => None,
            }
        } else if t == 0x69 {
            // `i`: signed integer.
            match spec_parse_signed(data, pos) {
                Some((v, p)) => Some((TokenV::Lit(v), p)),
                None => None,
            }
        } else if t == 0x73 {
            // `s44`: scalar, fraction and exponent, each two big-endian bytes.
            if pos + 7 > data.len() {
                None
            } else if data[pos + 1] == 0x34 && data[pos + 2] == 0x34 {
                Some((
                    TokenV::Lit(ValueV::S44(Sc44 {
                        fraction: signed_of(be2(data, pos + 3), 0x8000, 0x10000) as i16,
                        exponent: signed_of(be2(data, pos + 5), 0x8000, 0x10000) as i16,
                    })),
                    pos + 7,
                ))
            } else {
                None
            }
        } else if t == 0x63 {
            // `c44`: circle, real, imaginary and exponent, each two big-endian bytes.
            if pos + 9 > data.len() {
                None
            } else if data[pos + 1] == 0x34 && data[pos + 2] == 0x34 {
                Some((
                    TokenV::Lit(ValueV::C44(Ci44 {
                        real: signed_of(be2(data, pos + 3), 0x8000, 0x10000) as i16,
                        imaginary: signed_of(be2(data, pos + 5), 0x8000, 0x10000) as i16,
                        exponent: signed_of(be2(data, pos + 7), 0x8000, 0x10000) as i16,
                    })),
                    pos + 9,
                ))
            } else {
                None
            }
        } else if t == 0x72 {
            // `rc?`: named colour constant.
            if pos + 3 > data.len() {
                None
            } else if data[pos + 1] == 0x63 {
                match spec_colour_of(data[pos + 2]) {
                    Some(c) => Some((TokenV::Lit(ValueV::Colour(c)), pos + 3)),
                    None => None,
                }
            } else {
                None
            }
        } else if t == 0x68 {
            // `hb`: content hash; one length byte holding the byte count less one.
            if pos + 4 > data.len() {
                None
            } else if data[pos + 1] == 0x62 && data[pos + 2] == 0x33 {
                let n = data[pos + 3] + 1;
                if pos + 4 + n > data.len() {
                    None
                } else {
                    Some((
                        TokenV::Lit(ValueV::Hash(data.subrange(pos + 4, pos + 4 + n))),
                        pos + 4 + n,
                    ))
                }
            } else {
                None
            }
        } else {
            None
        }
    }
}

/// Law: a decoded value consumes at least one byte and never reads past the
/// end, so decoding a stream terminates.
pub proof fn lemma_parse_progress(data: Seq<u8>, pos: int)
    ensures
        spec_parse(data, pos) matches Some(r) ==> pos < r.1 <= data.len(),
{
}

/// Law: decoding is local.  A value's span, cut out of its stream, decodes
/// on its own to the same token, consuming the whole span: every span the
/// decoder delimits is one self-contained canonical encoding.
pub proof fn lemma_parse_local(data: Seq<u8>, pos: int)
    ensures
        spec_parse(data, pos) matches Some(r) ==> spec_parse(
            data.subrange(pos, r.1),
            0,
        ) == Some((r.0, r.1 - pos)),
{
    match spec_parse(data, pos) {
        Some(r) => {
            let sub = data.subrange(pos, r.1);
            assert(forall|k: int| 0 <= k < sub.len() ==> sub[k] == data[pos + k]);
            if sub.len() >= 4 {
                assert(be2(sub, 2) == be2(data, pos + 2));
            }
            if sub.len() >= 6 {
                assert(be4(sub, 2) == be4(data, pos + 2));
            }
            if sub.len() >= 10 {
                assert(be8(sub, 2) == be8(data, pos + 2));
            }
            if sub.len() >= 18 {
                assert(be16(sub, 2) == be16(data, pos + 2));
            }
            if sub.len() >= 7 {
                assert(be2(sub, 3) == be2(data, pos + 3));
                assert(be2(sub, 5) == be2(data, pos + 5));
            }
            if sub.len() >= 9 {
                assert(be2(sub, 7) == be2(data, pos + 7));
            }
            if data[pos] == 0x68 {
                assert(sub.subrange(4, sub.len() as int) =~= data.subrange(pos + 4, r.1));
            }
            assert(spec_parse(sub, 0) == Some((r.0, r.1 - pos)));
        },
        None => {},
    }
}

/// Big-endian read of two bytes.
fn read_be2(data: &Vec<u8>, pos: usize) -> (r: u16)
    requires
        pos + 2 <= data.len(),
    ensures
        r as int == be2(data@, pos as int),
{
    (data[pos] as u16) * 256 + (data[pos + 1] as u16)
}

/// Big-endian read of four bytes.
fn read_be4(data: &Vec<u8>, pos: usize) -> (r: u32)
    requires
        pos + 4 <= data.len(),
    ensures
        r as int == be4(data@, pos as int),
{
    (read_be2(data, pos) as u32) * 0x10000 + (read_be2(data, pos + 2) as u32)
}

/// Big-endian read of eight bytes.
fn read_be8(data: &Vec<u8>, pos: usize) -> (r: u64)
    requires
        pos + 8 <= data.len(),
    ensures
        r as int == be8(data@, pos as int),
{
    (read_be4(data, pos) as u64) * 0x1_0000_0000 + (read_be4(data, pos + 4) as u64)
}

/// Big-endian read of sixteen bytes.
fn read_be16(data: &Vec<u8>, pos: usize) -> (r: u128)
    requires
        pos + 16 <= data.len(),
    ensures
        r as int == be16(data@, pos as int),
{
    (read_be8(data, pos) as u128) * 0x1_0000_0000_0000_0000 + (read_be8(data, pos + 8) as u128)
}

/// Two's-complement reading of a 16-bit big-endian pair.
fn read_i16(data: &Vec<u8>, pos: usize) -> (r: i16)
    requires
        pos + 2 <= data.len(),
    ensures
        r as int == signed_of(be2(data@, pos as int), 0x8000, 0x10000),
{
    let u = read_be2(data, pos);
    if u < 0x8000 {
        u as i16
    } else {
        -((u16::MAX - u) as i16) - 1
    }
}

/// One decoded value of the executable subset at `pos`, with the position
/// just past it; `None` where the bytes are no such value.
pub fn parse_value(data: &Vec<u8>, pos: usize) -> (r: Option<(Token, usize)>)
    ensures
        match r {
            Some(t) => spec_parse(data@, pos as int) == Some((t.0@, t.1 as int)),
            None => spec_parse(data@, pos as int) is None,
        },
{
    if pos >= data.len() {
        return None;
    }
    let rem = data.len() - pos;
    let t = data[pos];
    if t == 0x7b {
        if rem < 4 {
            None
        } else if data[pos + 3] == 0x7d && data[pos + 1] >= 0x61 && data[pos + 1] <= 0x7a
            && data[pos + 2] >= 0x61 && data[pos + 2] <= 0x7a {
            Some((Token::Op(data[pos + 1], data[pos + 2]), pos + 4))
        } else {
            None
        }
    } else if t == 0x75 {
        if rem < 2 {
            return None;
        }
        let m = data[pos + 1];
        if m == 0 || m == 255 {
            Some((Token::Lit(Value::Bool(m == 255)), pos + 2))
        } else if m == 0x33 {
            if rem < 3 {
                None
            } else {
                Some((Token::Lit(Value::U8(data[pos + 2])), pos + 3))
            }
        } else if m == 0x34 {
            if rem < 4 {
                None
            } else {
                Some((Token::Lit(Value::U16(read_be2(data, pos + 2))), pos + 4))
            }
        } else if m == 0x35 {
            if rem < 6 {
                None
            } else {
                Some((Token::Lit(Value::U32(read_be4(data, pos + 2))), pos + 6))
            }
        } else if m == 0x36 {
            if rem < 10 {
                None
            } else {
                Some((Token::Lit(Value::U64(read_be8(data, pos + 2))), pos + 10))
            }
        } else if m == 0x37 {
            if rem < 18 {
                None
            } else {
                Some((Token::Lit(Value::U128(read_be16(data, pos + 2))), pos + 18))
            }
        } else {
            None
        }
    } else if t == 0x69 {
        if rem < 2 {
            return None;
        }
        let m = data[pos + 1];
        if m == 0x33 {
            if rem < 3 {
                None
            } else {
                let u = data[pos + 2];
                let v: i8 = if u < 0x80 {
                    u as i8
                } else {
                    -((u8::MAX - u) as i8) - 1
                };
                Some((Token::Lit(Value::I8(v)), pos + 3))
            }
        } else if m == 0x34 {
            if rem < 4 {
                None
            } else {
                Some((Token::Lit(Value::I16(read_i16(data, pos + 2))), pos + 4))
            }
        } else if m == 0x35 {
            if rem < 6 {
                None
            } else {
                let u = read_be4(data, pos + 2);
                let v: i32 = if u < 0x8000_0000 {
                    u as i32
                } else {
                    -((u32::MAX - u) as i32) - 1
                };
                Some((Token::Lit(Value::I32(v)), pos + 6))
            }
        } else if m == 0x36 {
            if rem < 10 {
                None
            } else {
                let u = read_be8(data, pos + 2);
                let v: i64 = if u < 0x8000_0000_0000_0000 {
                    u as i64
                } else {
                    -((u64::MAX - u) as i64) - 1
                };
                Some((Token::Lit(Value::I64(v)), pos + 10))
            }
        } else if m == 0x37 {
            if rem < 18 {
                None
            } else {
                let u = read_be16(data, pos + 2);
                let v: i128 = if u < 0x8000_0000_0000_0000_0000_0000_0000_0000 {
                    u as i128
                } else {
                    -((u128::MAX - u) as i128) - 1
                };
                Some((Token::Lit(Value::I128(v)), pos + 18))
            }
        } else {
            None
        }
    } else if t == 0x73 {
        if rem < 7 {
            None
        } else if data[pos + 1] == 0x34 && data[pos + 2] == 0x34 {
            Some((
                Token::Lit(Value::S44(Sc44 {
                    fraction: read_i16(data, pos + 3),
                    exponent: read_i16(data, pos + 5),
                })),
                pos + 7,
            ))
        } else {
            None
        }
    } else if t == 0x63 {
        if rem < 9 {
            None
        } else if data[pos + 1] == 0x34 && data[pos + 2] == 0x34 {
            Some((
                Token::Lit(Value::C44(Ci44 {
                    real: read_i16(data, pos + 3),
                    imaginary: read_i16(data, pos + 5),
                    exponent: read_i16(data, pos + 7),
                })),
                pos + 9,
            ))
        } else {
            None
        }
    } else if t == 0x72 {
        if rem < 3 {
            None
        } else if data[pos + 1] == 0x63 {
            let c = data[pos + 2];
            let colour = if c == 0x6b {
                Some(Colour::Black)
            } else if c == 0x77 {
                Some(Colour::White)
            } else if c == 0x72 {
                Some(Colour::Red)
            } else if c == 0x6e {
                Some(Colour::Green)
            } else if c == 0x62 {
                Some(Colour::Blue)
            } else if c == 0x63 {
                Some(Colour::Cyan)
            } else if c == 0x6a {
                Some(Colour::Magenta)
            } else if c == 0x79 {
                Some(Colour::Yellow)
            } else if c == 0x67 {
                Some(Colour::Grey)
            } else if c == 0x6f {
                Some(Colour::Orange)
            } else if c == 0x76 {
                Some(Colour::Violet)
            } else if c == 0x6c {
                Some(Colour::Lime)
            } else if c == 0x71 {
                Some(Colour::Aqua)
            } else {
                None
            };
            match colour {
                Some(col) => Some((Token::Lit(Value::Colour(col)), pos + 3)),
                None => None,
            }
        } else {
            None
        }
    } else if t == 0x68 {
        if rem < 4 {
            None
        } else if data[pos + 1] == 0x62 && data[pos + 2] == 0x33 {
            let n = (data[pos + 3] as usize) + 1;
            if rem - 4 < n {
                None
            } else {
                let mut h: Vec<u8> = Vec::new();
                let mut i: usize = 0;
                while i < n
                    invariant
                        pos + 4 + n <= data.len(),
                        i <= n,
                        h@ =~= data@.subrange(pos + 4, pos + 4 + i),
                    decreases n - i,
                {
                    h.push(data[pos + 4 + i]);
                    i = i + 1;
                }
                assert(h@ =~= data@.subrange(pos as int + 4, pos as int + 4 + n as int));
                Some((Token::Lit(Value::Hash(h)), pos + 4 + n))
            }
        } else {
            None
        }
    } else {
        None
    }
}

} // verus!
