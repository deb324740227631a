//! Instruction opcodes for the virtual machine.
//!
//! Every opcode is a two-letter lowercase mnemonic, carried on the wire inside
//! the codec's `{ab}` marker.  For dispatch the two letters are packed into a
//! `u16` key, `first << 8 | second`.

use vstd::prelude::*;
use vstd::string::StringExecFns;

verus! {

/// One instruction opcode, identified by its two-letter mnemonic.
#[derive(Debug, Clone, Copy, PartialEq, Eq, Structural)]
#[allow(non_camel_case_types)]
pub enum Opcode {
    push,
    pop,
    dup,
    dup_n,
    swap,
    rotate,
    local_alloc,
    local_get,
    local_set,
    local_tee,
    add,
    sub,
    mul,
    div,
    recip,
    mod_,
    neg,
    abs,
    sqrt,
    pow,
    min,
    max,
    clamp,
    floor,
    ceil,
    round,
    frac,
    lerp,
    sin,
    cos,
    tan,
    asin,
    acos,
    atan,
    atan2,
    eq,
    ne,
    lt,
    le,
    gt,
    ge,
    and,
    or,
    not,
    bit_and,
    bit_or,
    bit_xor,
    bit_not,
    typeof_,
    to_s44,
    to_u32,
    to_string,
    array_new,
    array_len,
    array_get,
    array_set,
    array_push,
    array_pop,
    string_concat,
    string_len,
    string_slice,
    handle_read,
    handle_write,
    handle_call,
    handle_query,
    clear,
    fill_rect,
    stroke_rect,
    fill_circle,
    stroke_circle,
    draw_line,
    draw_text,
    set_font,
    rgba,
    rgb,
    call,
    call_indirect,
    return_,
    return_value,
    jump,
    jump_if,
    jump_zero,
    random,
    random_gauss,
    random_range,
    blake3,
    timestamp,
    assert_,
    halt,
    debug_print,
    debug_stack,
    nop,
}

/// The two mnemonic letters of an opcode.
pub open spec fn spec_opcode_bytes(op: Opcode) -> (u8, u8) {
    match op {
        Opcode::push => (0x70, 0x73),
        Opcode::pop => (0x70, 0x70),
        Opcode::dup => (0x64, 0x70),
        Opcode::dup_n => (0x64, 0x6e),
        Opcode::swap => (0x73, 0x77),
        Opcode::rotate => (0x72, 0x74),
        Opcode::local_alloc => (0x6c, 0x61),
        Opcode::local_get => (0x6c, 0x67),
        Opcode::local_set => (0x6c, 0x73),
        Opcode::local_tee => (0x6c, 0x74),
        Opcode::add => (0x61, 0x64),
        Opcode::sub => (0x73, 0x62),
        Opcode::mul => (0x6d, 0x6c),
        Opcode::div => (0x64, 0x76),
        Opcode::recip => (0x72, 0x63),
        Opcode::mod_ => (0x6d, 0x64),
        Opcode::neg => (0x6e, 0x67),
        Opcode::abs => (0x61, 0x62),
        Opcode::sqrt => (0x73, 0x71),
        Opcode::pow => (0x70, 0x77),
        Opcode::min => (0x6d, 0x6e),
        Opcode::max => (0x6d, 0x78),
        Opcode::clamp => (0x63, 0x6d),
        Opcode::floor => (0x66, 0x6c),
        Opcode::ceil => (0x63, 0x6c),
        Opcode::round => (0x72, 0x6e),
        Opcode::frac => (0x66, 0x61),
        Opcode::lerp => (0x6c, 0x70),
        Opcode::sin => (0x73, 0x6e),
        Opcode::cos => (0x63, 0x73),
        Opcode::tan => (0x74, 0x6e),
        Opcode::asin => (0x69, 0x73),
        Opcode::acos => (0x69, 0x63),
        Opcode::atan => (0x69, 0x61),
        Opcode::atan2 => (0x61, 0x32),
        Opcode::eq => (0x65, 0x71),
        Opcode::ne => (0x6e, 0x65),
        Opcode::lt => (0x6c, 0x6f),
        Opcode::le => (0x6c, 0x65),
        Opcode::gt => (0x67, 0x74),
        Opcode::ge => (0x67, 0x65),
        Opcode::and => (0x61, 0x6e),
        Opcode::or => (0x6f, 0x72),
        Opcode::not => (0x6e, 0x74),
        Opcode::bit_and => (0x62, 0x61),
        Opcode::bit_or => (0x62, 0x6f),
        Opcode::bit_xor => (0x62, 0x78),
        Opcode::bit_not => (0x62, 0x6e),
        Opcode::typeof_ => (0x74, 0x79),
        Opcode::to_s44 => (0x74, 0x73),
        Opcode::to_u32 => (0x74, 0x75),
        Opcode::to_string => (0x74, 0x78),
        Opcode::array_new => (0x61, 0x77),
        Opcode::array_len => (0x61, 0x6c),
        Opcode::array_get => (0x61, 0x67),
        Opcode::array_set => (0x61, 0x65),
        Opcode::array_push => (0x61, 0x70),
        Opcode::array_pop => (0x61, 0x6f),
        Opcode::string_concat => (0x73, 0x63),
        Opcode::string_len => (0x73, 0x6c),
        Opcode::string_slice => (0x73, 0x73),
        Opcode::handle_read => (0x68, 0x72),
        Opcode::handle_write => (0x68, 0x77),
        Opcode::handle_call => (0x68, 0x63),
        Opcode::handle_query => (0x68, 0x71),
        Opcode::clear => (0x63, 0x72),
        Opcode::fill_rect => (0x66, 0x72),
        Opcode::stroke_rect => (0x73, 0x72),
        Opcode::fill_circle => (0x66, 0x63),
        Opcode::stroke_circle => (0x73, 0x6f),
        Opcode::draw_line => (0x64, 0x6c),
        Opcode::draw_text => (0x64, 0x74),
        Opcode::set_font => (0x73, 0x66),
        Opcode::rgba => (0x63, 0x61),
        Opcode::rgb => (0x63, 0x62),
        Opcode::call => (0x63, 0x6e),
        Opcode::call_indirect => (0x63, 0x64),
        Opcode::return_ => (0x72, 0x65),
        Opcode::return_value => (0x72, 0x76),
        Opcode::jump => (0x6a, 0x6d),
        Opcode::jump_if => (0x6a, 0x69),
        Opcode::jump_zero => (0x6a, 0x7a),
        Opcode::random => (0x72, 0x64),
        Opcode::random_gauss => (0x72, 0x67),
        Opcode::random_range => (0x72, 0x72),
        Opcode::blake3 => (0x62, 0x68),
        Opcode::timestamp => (0x74, 0x6d),
        Opcode::assert_ => (0x61, 0x72),
        Opcode::halt => (0x68, 0x6c),
        Opcode::debug_print => (0x64, 0x62),
        Opcode::debug_stack => (0x64, 0x73),
        Opcode::nop => (0x6e, 0x70),
    }
}

/// The packed dispatch key of an opcode: first letter times 256 plus second letter.
pub open spec fn spec_opcode_code(op: Opcode) -> u16 {
    (spec_opcode_bytes(op).0 * 256 + spec_opcode_bytes(op).1) as u16
}

/// The opcode a packed key stands for, if any.
pub open spec fn spec_opcode_of_code(code: u16) -> Option<Opcode> {
    if code == 0x7073 {
        Some(Opcode::push)
    } else if code == 0x7070 {
        Some(Opcode::pop)
    } else if code == 0x6470 {
        Some(Opcode::dup)
    } else if code == 0x646e {
        Some(Opcode::dup_n)
    } else if code == 0x7377 {
        Some(Opcode::swap)
    } else if code == 0x7274 {
        Some(Opcode::rotate)
    } else if code == 0x6c61 {
        Some(Opcode::local_alloc)
    } else if code == 0x6c67 {
        Some(Opcode::local_get)
    } else if code == 0x6c73 {
        Some(Opcode::local_set)
    } else if code == 0x6c74 {
        Some(Opcode::local_tee)
    } else if code == 0x6164 {
        Some(Opcode::add)
    } else if code == 0x7362 {
        Some(Opcode::sub)
    } else if code == 0x6d6c {
        Some(Opcode::mul)
    } else if code == 0x6476 {
        Some(Opcode::div)
    } else if code == 0x7263 {
        Some(Opcode::recip)
    } else if code == 0x6d64 {
        Some(Opcode::mod_)
    } else if code == 0x6e67 {
        Some(Opcode::neg)
    } else if code == 0x6162 {
        Some(Opcode::abs)
    } else if code == 0x7371 {
        Some(Opcode::sqrt)
    } else if code == 0x7077 {
        Some(Opcode::pow)
    } else if code == 0x6d6e {
        Some(Opcode::min)
    } else if code == 0x6d78 {
        Some(Opcode::max)
    } else if code == 0x636d {
        Some(Opcode::clamp)
    } else if code == 0x666c {
        Some(Opcode::floor)
    } else if code == 0x636c {
        Some(Opcode::ceil)
    } else if code == 0x726e {
        Some(Opcode::round)
    } else if code == 0x6661 {
        Some(Opcode::frac)
    } else if code == 0x6c70 {
        Some(Opcode::lerp)
    } else if code == 0x736e {
        Some(Opcode::sin)
    } else if code == 0x6373 {
        Some(Opcode::cos)
    } else if code == 0x746e {
        Some(Opcode::tan)
    } else if code == 0x6973 {
        Some(Opcode::asin)
    } else if code == 0x6963 {
        Some(Opcode::acos)
    } else if code == 0x6961 {
        Some(Opcode::atan)
    } else if code == 0x6132 {
        Some(Opcode::atan2)
    } else if code == 0x6571 {
        Some(Opcode::eq)
    } else if code == 0x6e65 {
        Some(Opcode::ne)
    } else if code == 0x6c6f {
        Some(Opcode::lt)
    } else if code == 0x6c65 {
        Some(Opcode::le)
    } else if code == 0x6774 {
        Some(Opcode::gt)
    } else if code == 0x6765 {
        Some(Opcode::ge)
    } else if code == 0x616e {
        Some(Opcode::and)
    } else if code == 0x6f72 {
        Some(Opcode::or)
    } else if code == 0x6e74 {
        Some(Opcode::not)
    } else if code == 0x6261 {
        Some(Opcode::bit_and)
    } else if code == 0x626f {
        Some(Opcode::bit_or)
    } else if code == 0x6278 {
        Some(Opcode::bit_xor)
    } else if code == 0x626e {
        Some(Opcode::bit_not)
    } else if code == 0x7479 {
        Some(Opcode::typeof_)
    } else if code == 0x7473 {
        Some(Opcode::to_s44)
    } else if code == 0x7475 {
        Some(Opcode::to_u32)
    } else if code == 0x7478 {
        Some(Opcode::to_string)
    } else if code == 0x6177 {
        Some(Opcode::array_new)
    } else if code == 0x616c {
        Some(Opcode::array_len)
    } else if code == 0x6167 {
        Some(Opcode::array_get)
    } else if code == 0x6165 {
        Some(Opcode::array_set)
    } else if code == 0x6170 {
        Some(Opcode::array_push)
    } else if code == 0x616f {
        Some(Opcode::array_pop)
    } else if code == 0x7363 {
        Some(Opcode::string_concat)
    } else if code == 0x736c {
        Some(Opcode::string_len)
    } else if code == 0x7373 {
        Some(Opcode::string_slice)
    } else if code == 0x6872 {
        Some(Opcode::handle_read)
    } else if code == 0x6877 {
        Some(Opcode::handle_write)
    } else if code == 0x6863 {
        Some(Opcode::handle_call)
    } else if code == 0x6871 {
        Some(Opcode::handle_query)
    } else if code == 0x6372 {
        Some(Opcode::clear)
    } else if code == 0x6672 {
        Some(Opcode::fill_rect)
    } else if code == 0x7372 {
        Some(Opcode::stroke_rect)
    } else if code == 0x6663 {
        Some(Opcode::fill_circle)
    } else if code == 0x736f {
        Some(Opcode::stroke_circle)
    } else if code == 0x646c {
        Some(Opcode::draw_line)
    } else if code == 0x6474 {
        Some(Opcode::draw_text)
    } else if code == 0x7366 {
        Some(Opcode::set_font)
    } else if code == 0x6361 {
        Some(Opcode::rgba)
    } else if code == 0x6362 {
        Some(Opcode::rgb)
    } else if code == 0x636e {
        Some(Opcode::call)
    } else if code == 0x6364 {
        Some(Opcode::call_indirect)
    } else if code == 0x7265 {
        Some(Opcode::return_)
    } else if code == 0x7276 {
        Some(Opcode::return_value)
    } else if code == 0x6a6d {
        Some(Opcode::jump)
    } else if code == 0x6a69 {
        Some(Opcode::jump_if)
    } else if code == 0x6a7a {
        Some(Opcode::jump_zero)
    } else if code == 0x7264 {
        Some(Opcode::random)
    } else if code == 0x7267 {
        Some(Opcode::random_gauss)
    } else if code == 0x7272 {
        Some(Opcode::random_range)
    } else if code == 0x6268 {
        Some(Opcode::blake3)
    } else if code == 0x746d {
        Some(Opcode::timestamp)
    } else if code == 0x6172 {
        Some(Opcode::assert_)
    } else if code == 0x686c {
        Some(Opcode::halt)
    } else if code == 0x6462 {
        Some(Opcode::debug_print)
    } else if code == 0x6473 {
        Some(Opcode::debug_stack)
    } else if code == 0x6e70 {
        Some(Opcode::nop)
    } else {
        None
    }
}

/// Pack two mnemonic letters into the dispatch key.
pub fn pack(a: u8, b: u8) -> (r: u16)
    ensures
        r == a * 256 + b,
{
    (a as u16) * 256 + (b as u16)
}

impl Opcode {
    /// Resolve a packed dispatch key to its opcode.
    pub fn from_u16(op: u16) -> (r: Option<Opcode>)
        ensures
            r == spec_opcode_of_code(op),
    {
        match op {
            0x7073 => Some(Self::push),
            0x7070 => Some(Self::pop),
            0x6470 => Some(Self::dup),
            0x646e => Some(Self::dup_n),
            0x7377 => Some(Self::swap),
            0x7274 => Some(Self::rotate),
            0x6c61 => Some(Self::local_alloc),
            0x6c67 => Some(Self::local_get),
            0x6c73 => Some(Self::local_set),
            0x6c74 => Some(Self::local_tee),
            0x6164 => Some(Self::add),
            0x7362 => Some(Self::sub),
            0x6d6c => Some(Self::mul),
            0x6476 => Some(Self::div),
            0x7263 => Some(Self::recip),
            0x6d64 => Some(Self::mod_),
            0x6e67 => Some(Self::neg),
            0x6162 => Some(Self::abs),
            0x7371 => Some(Self::sqrt),
            0x7077 => Some(Self::pow),
            0x6d6e => Some(Self::min),
            0x6d78 => Some(Self::max),
            0x636d => Some(Self::clamp),
            0x666c => Some(Self::floor),
            0x636c => Some(Self::ceil),
            0x726e => Some(Self::round),
            0x6661 => Some(Self::frac),
            0x6c70 => Some(Self::lerp),
            0x736e => Some(Self::sin),
            0x6373 => Some(Self::cos),
            0x746e => Some(Self::tan),
            0x6973 => Some(Self::asin),
            0x6963 => Some(Self::acos),
            0x6961 => Some(Self::atan),
            0x6132 => Some(Self::atan2),
            0x6571 => Some(Self::eq),
            0x6e65 => Some(Self::ne),
            0x6c6f => Some(Self::lt),
            0x6c65 => Some(Self::le),
            0x6774 => Some(Self::gt),
            0x6765 => Some(Self::ge),
            0x616e => Some(Self::and),
            0x6f72 => Some(Self::or),
            0x6e74 => Some(Self::not),
            0x6261 => Some(Self::bit_and),
            0x626f => Some(Self::bit_or),
            0x6278 => Some(Self::bit_xor),
            0x626e => Some(Self::bit_not),
            0x7479 => Some(Self::typeof_),
            0x7473 => Some(Self::to_s44),
            0x7475 => Some(Self::to_u32),
            0x7478 => Some(Self::to_string),
            0x6177 => Some(Self::array_new),
            0x616c => Some(Self::array_len),
            0x6167 => Some(Self::array_get),
            0x6165 => Some(Self::array_set),
            0x6170 => Some(Self::array_push),
            0x616f => Some(Self::array_pop),
            0x7363 => Some(Self::string_concat),
            0x736c => Some(Self::string_len),
            0x7373 => Some(Self::string_slice),
            0x6872 => Some(Self::handle_read),
            0x6877 => Some(Self::handle_write),
            0x6863 => Some(Self::handle_call),
            0x6871 => Some(Self::handle_query),
            0x6372 => Some(Self::clear),
            0x6672 => Some(Self::fill_rect),
            0x7372 => Some(Self::stroke_rect),
            0x6663 => Some(Self::fill_circle),
            0x736f => Some(Self::stroke_circle),
            0x646c => Some(Self::draw_line),
            0x6474 => Some(Self::draw_text),
            0x7366 => Some(Self::set_font),
            0x6361 => Some(Self::rgba),
            0x6362 => Some(Self::rgb),
            0x636e => Some(Self::call),
            0x6364 => Some(Self::call_indirect),
            0x7265 => Some(Self::return_),
            0x7276 => Some(Self::return_value),
            0x6a6d => Some(Self::jump),
            0x6a69 => Some(Self::jump_if),
            0x6a7a => Some(Self::jump_zero),
            0x7264 => Some(Self::random),
            0x7267 => Some(Self::random_gauss),
            0x7272 => Some(Self::random_range),
            0x6268 => Some(Self::blake3),
            0x746d => Some(Self::timestamp),
            0x6172 => Some(Self::assert_),
            0x686c => Some(Self::halt),
            0x6462 => Some(Self::debug_print),
            0x6473 => Some(Self::debug_stack),
            0x6e70 => Some(Self::nop),
            _ => None,
        }
    }

    /// Resolve a two-letter mnemonic to its opcode.
    pub fn from_bytes(bytes: &[u8; 2]) -> (r: Option<Opcode>)
        ensures
            r == spec_opcode_of_code((bytes[0] * 256 + bytes[1]) as u16),
    {
        let op = pack(bytes[0], bytes[1]);
        Self::from_u16(op)
    }

    /// The two-letter mnemonic of this opcode.
    pub fn to_bytes(&self) -> (r: [u8; 2])
        ensures
            (r[0], r[1]) == spec_opcode_bytes(*self),
    {
        match self {
            Self::push => [0x70, 0x73],
            Self::pop => [0x70, 0x70],
            Self::dup => [0x64, 0x70],
            Self::dup_n => [0x64, 0x6e],
            Self::swap => [0x73, 0x77],
            Self::rotate => [0x72, 0x74],
            Self::local_alloc => [0x6c, 0x61],
            Self::local_get => [0x6c, 0x67],
            Self::local_set => [0x6c, 0x73],
            Self::local_tee => [0x6c, 0x74],
            Self::add => [0x61, 0x64],
            Self::sub => [0x73, 0x62],
            Self::mul => [0x6d, 0x6c],
            Self::div => [0x64, 0x76],
            Self::recip => [0x72, 0x63],
            Self::mod_ => [0x6d, 0x64],
            Self::neg => [0x6e, 0x67],
            Self::abs => [0x61, 0x62],
            Self::sqrt => [0x73, 0x71],
            Self::pow => [0x70, 0x77],
            Self::min => [0x6d, 0x6e],
            Self::max => [0x6d, 0x78],
            Self::clamp => [0x63, 0x6d],
            Self::floor => [0x66, 0x6c],
            Self::ceil => [0x63, 0x6c],
            Self::round => [0x72, 0x6e],
            Self::frac => [0x66, 0x61],
            Self::lerp => [0x6c, 0x70],
            Self::sin => [0x73, 0x6e],
            Self::cos => [0x63, 0x73],
            Self::tan => [0x74, 0x6e],
            Self::asin => [0x69, 0x73],
            Self::acos => [0x69, 0x63],
            Self::atan => [0x69, 0x61],
            Self::atan2 => [0x61, 0x32],
            Self::eq => [0x65, 0x71],
            Self::ne => [0x6e, 0x65],
            Self::lt => [0x6c, 0x6f],
            Self::le => [0x6c, 0x65],
            Self::gt => [0x67, 0x74],
            Self::ge => [0x67, 0x65],
            Self::and => [0x61, 0x6e],
            Self::or => [0x6f, 0x72],
            Self::not => [0x6e, 0x74],
            Self::bit_and => [0x62, 0x61],
            Self::bit_or => [0x62, 0x6f],
            Self::bit_xor => [0x62, 0x78],
            Self::bit_not => [0x62, 0x6e],
            Self::typeof_ => [0x74, 0x79],
            Self::to_s44 => [0x74, 0x73],
            Self::to_u32 => [0x74, 0x75],
            Self::to_string => [0x74, 0x78],
            Self::array_new => [0x61, 0x77],
            Self::array_len => [0x61, 0x6c],
            Self::array_get => [0x61, 0x67],
            Self::array_set => [0x61, 0x65],
            Self::array_push => [0x61, 0x70],
            Self::array_pop => [0x61, 0x6f],
            Self::string_concat => [0x73, 0x63],
            Self::string_len => [0x73, 0x6c],
            Self::string_slice => [0x73, 0x73],
            Self::handle_read => [0x68, 0x72],
            Self::handle_write => [0x68, 0x77],
            Self::handle_call => [0x68, 0x63],
            Self::handle_query => [0x68, 0x71],
            Self::clear => [0x63, 0x72],
            Self::fill_rect => [0x66, 0x72],
            Self::stroke_rect => [0x73, 0x72],
            Self::fill_circle => [0x66, 0x63],
            Self::stroke_circle => [0x73, 0x6f],
            Self::draw_line => [0x64, 0x6c],
            Self::draw_text => [0x64, 0x74],
            Self::set_font => [0x73, 0x66],
            Self::rgba => [0x63, 0x61],
            Self::rgb => [0x63, 0x62],
            Self::call => [0x63, 0x6e],
            Self::call_indirect => [0x63, 0x64],
            Self::return_ => [0x72, 0x65],
            Self::return_value => [0x72, 0x76],
            Self::jump => [0x6a, 0x6d],
            Self::jump_if => [0x6a, 0x69],
            Self::jump_zero => [0x6a, 0x7a],
            Self::random => [0x72, 0x64],
            Self::random_gauss => [0x72, 0x67],
            Self::random_range => [0x72, 0x72],
            Self::blake3 => [0x62, 0x68],
            Self::timestamp => [0x74, 0x6d],
            Self::assert_ => [0x61, 0x72],
            Self::halt => [0x68, 0x6c],
            Self::debug_print => [0x64, 0x62],
            Self::debug_stack => [0x64, 0x73],
            Self::nop => [0x6e, 0x70],
        }
    }
}

/// Law: packing an opcode's own mnemonic resolves back to that opcode, for
/// every opcode.
pub proof fn lemma_opcode_roundtrip(op: Opcode)
    ensures
        spec_opcode_of_code(spec_opcode_code(op)) == Some(op),
{
}

/// The braced mnemonic an opcode prints as.
pub open spec fn spec_opcode_display(op: Opcode) -> Seq<char> {
    match op {
        Opcode::push => "{ps}"@,
        Opcode::pop => "{pp}"@,
        Opcode::dup => "{dp}"@,
        Opcode::dup_n => "{dn}"@,
        Opcode::swap => "{sw}"@,
        Opcode::rotate => "{rt}"@,
        Opcode::local_alloc => "{la}"@,
        Opcode::local_get => "{lg}"@,
        Opcode::local_set => "{ls}"@,
        Opcode::local_tee => "{lt}"@,
        Opcode::add => "{ad}"@,
        Opcode::sub => "{sb}"@,
        Opcode::mul => "{ml}"@,
        Opcode::div => "{dv}"@,
        Opcode::recip => "{rc}"@,
        Opcode::mod_ => "{md}"@,
        Opcode::neg => "{ng}"@,
        Opcode::abs => "{ab}"@,
        Opcode::sqrt => "{sq}"@,
        Opcode::pow => "{pw}"@,
        Opcode::min => "{mn}"@,
        Opcode::max => "{mx}"@,
        Opcode::clamp => "{cm}"@,
        Opcode::floor => "{fl}"@,
        Opcode::ceil => "{cl}"@,
        Opcode::round => "{rn}"@,
        Opcode::frac => "{fa}"@,
        Opcode::lerp => "{lp}"@,
        Opcode::sin => "{sn}"@,
        Opcode::cos => "{cs}"@,
        Opcode::tan => "{tn}"@,
        Opcode::asin => "{is}"@,
        Opcode::acos => "{ic}"@,
        Opcode::atan => "{ia}"@,
        Opcode::atan2 => "{a2}"@,
        Opcode::eq => "{eq}"@,
        Opcode::ne => "{ne}"@,
        Opcode::lt => "{lo}"@,
        Opcode::le => "{le}"@,
        Opcode::gt => "{gt}"@,
        Opcode::ge => "{ge}"@,
        Opcode::and => "{an}"@,
        Opcode::or => "{or}"@,
        Opcode::not => "{nt}"@,
        Opcode::bit_and => "{ba}"@,
        Opcode::bit_or => "{bo}"@,
        Opcode::bit_xor => "{bx}"@,
        Opcode::bit_not => "{bn}"@,
        Opcode::typeof_ => "{ty}"@,
        Opcode::to_s44 => "{ts}"@,
        Opcode::to_u32 => "{tu}"@,
        Opcode::to_string => "{tx}"@,
        Opcode::array_new => "{aw}"@,
        Opcode::array_len => "{al}"@,
        Opcode::array_get => "{ag}"@,
        Opcode::array_set => "{ae}"@,
        Opcode::array_push => "{ap}"@,
        Opcode::array_pop => "{ao}"@,
        Opcode::string_concat => "{sc}"@,
        Opcode::string_len => "{sl}"@,
        Opcode::string_slice => "{ss}"@,
        Opcode::handle_read => "{hr}"@,
        Opcode::handle_write => "{hw}"@,
        Opcode::handle_call => "{hc}"@,
        Opcode::handle_query => "{hq}"@,
        Opcode::clear => "{cr}"@,
        Opcode::fill_rect => "{fr}"@,
        Opcode::stroke_rect => "{sr}"@,
        Opcode::fill_circle => "{fc}"@,
        Opcode::stroke_circle => "{so}"@,
        Opcode::draw_line => "{dl}"@,
        Opcode::draw_text => "{dt}"@,
        Opcode::set_font => "{sf}"@,
        Opcode::rgba => "{ca}"@,
        Opcode::rgb => "{cb}"@,
        Opcode::call => "{cn}"@,
        Opcode::call_indirect => "{cd}"@,
        Opcode::return_ => "{re}"@,
        Opcode::return_value => "{rv}"@,
        Opcode::jump => "{jm}"@,
        Opcode::jump_if => "{ji}"@,
        Opcode::jump_zero => "{jz}"@,
        Opcode::random => "{rd}"@,
        Opcode::random_gauss => "{rg}"@,
        Opcode::random_range => "{rr}"@,
        Opcode::blake3 => "{bh}"@,
        Opcode::timestamp => "{tm}"@,
        Opcode::assert_ => "{ar}"@,
        Opcode::halt => "{hl}"@,
        Opcode::debug_print => "{db}"@,
        Opcode::debug_stack => "{ds}"@,
        Opcode::nop => "{np}"@,
    }
}

impl Opcode {
    /// The braced two-letter mnemonic, as the wire format writes it.
    pub fn display_string(&self) -> (r: String)
        ensures
            r@ == spec_opcode_display(*self),
    {
        let s: &str = match self {
            Self::push => "{ps}",
            Self::pop => "{pp}",
            Self::dup => "{dp}",
            Self::dup_n => "{dn}",
            Self::swap => "{sw}",
            Self::rotate => "{rt}",
            Self::local_alloc => "{la}",
            Self::local_get => "{lg}",
            Self::local_set => "{ls}",
            Self::local_tee => "{lt}",
            Self::add => "{ad}",
            Self::sub => "{sb}",
            Self::mul => "{ml}",
            Self::div => "{dv}",
            Self::recip => "{rc}",
            Self::mod_ => "{md}",
            Self::neg => "{ng}",
            Self::abs => "{ab}",
            Self::sqrt => "{sq}",
            Self::pow => "{pw}",
            Self::min => "{mn}",
            Self::max => "{mx}",
            Self::clamp => "{cm}",
            Self::floor => "{fl}",
            Self::ceil => "{cl}",
            Self::round => "{rn}",
            Self::frac => "{fa}",
            Self::lerp => "{lp}",
            Self::sin => "{sn}",
            Self::cos => "{cs}",
            Self::tan => "{tn}",
            Self::asin => "{is}",
            Self::acos => "{ic}",
            Self::atan => "{ia}",
            Self::atan2 => "{a2}",
            Self::eq => "{eq}",
            Self::ne => "{ne}",
            Self::lt => "{lo}",
            Self::le => "{le}",
            Self::gt => "{gt}",
            Self::ge => "{ge}",
            Self::and => "{an}",
            Self::or => "{or}",
            Self::not => "{nt}",
            Self::bit_and => "{ba}",
            Self::bit_or => "{bo}",
            Self::bit_xor => "{bx}",
            Self::bit_not => "{bn}",
            Self::typeof_ => "{ty}",
            Self::to_s44 => "{ts}",
            Self::to_u32 => "{tu}",
            Self::to_string => "{tx}",
            Self::array_new => "{aw}",
            Self::array_len => "{al}",
            Self::array_get => "{ag}",
            Self::array_set => "{ae}",
            Self::array_push => "{ap}",
            Self::array_pop => "{ao}",
            Self::string_concat => "{sc}",
            Self::string_len => "{sl}",
            Self::string_slice => "{ss}",
            Self::handle_read => "{hr}",
            Self::handle_write => "{hw}",
            Self::handle_call => "{hc}",
            Self::handle_query => "{hq}",
            Self::clear => "{cr}",
            Self::fill_rect => "{fr}",
            Self::stroke_rect => "{sr}",
            Self::fill_circle => "{fc}",
            Self::stroke_circle => "{so}",
            Self::draw_line => "{dl}",
            Self::draw_text => "{dt}",
            Self::set_font => "{sf}",
            Self::rgba => "{ca}",
            Self::rgb => "{cb}",
            Self::call => "{cn}",
            Self::call_indirect => "{cd}",
            Self::return_ => "{re}",
            Self::return_value => "{rv}",
            Self::jump => "{jm}",
            Self::jump_if => "{ji}",
            Self::jump_zero => "{jz}",
            Self::random => "{rd}",
            Self::random_gauss => "{rg}",
            Self::random_range => "{rr}",
            Self::blake3 => "{bh}",
            Self::timestamp => "{tm}",
            Self::assert_ => "{ar}",
            Self::halt => "{hl}",
            Self::debug_print => "{db}",
            Self::debug_stack => "{ds}",
            Self::nop => "{np}",
        };
        String::from_str(s)
    }
}

} // verus!
