//! Execution engine.
//!
//! A stack machine over typed values: one operand stack, one stack of local
//! frames, one call stack, one content-addressed function registry, one
//! instruction pointer, one halted flag and one drawing-call log.  `step`
//! decodes exactly one value from the bytecode; an opcode marker is
//! dispatched to its handler, a bare literal where an opcode was expected is
//! a structural error.  Every error leaves the machine exactly as it was,
//! except halted; nothing is ever recovered from inside the engine.
//!
//! The whole of `step` is pinned to the spec-level interpreter
//! [`spec_step`]: what one instruction does is a mathematical function of
//! the machine's state, which is what makes "same bytecode, same result" a
//! theorem rather than a hope.

use vstd::prelude::*;

use crate::canvas::{Canvas, CanvasCall, Paint};
use crate::errors::{VmError, VmErrorKind};
use crate::numeric::{
    arith_op, bit_not_op, compare_op, logic_op, neg_op, res_view, spec_arith, spec_bit_not,
    spec_compare, spec_logic, spec_neg,
};
use crate::opcode::{spec_opcode_of_code, Opcode};
use crate::value::{Sc44, TypeTag, Value, ValueV, spec_tag, spec_type_label};
use crate::wire::{parse_value, spec_parse, Token, TokenV};
use vstd::slice::SliceAdditionalExecFns;

verus! {

broadcast use vstd::std_specs::vec::axiom_spec_len;

/// One call record: where to resume, and how many local frames existed
/// before the call.
#[derive(Debug, Clone, Copy, PartialEq, Eq, Structural)]
pub struct CallFrame {
    /// Instruction pointer to resume at after the matching return.
    pub return_ip: usize,
    /// Number of local frames that existed before the call.
    pub local_count: usize,
}

/// Mathematical model of the whole machine.
#[verifier::ext_equal]
pub struct StateV {
    /// Operand stack, bottom first.
    pub stack: Seq<ValueV>,
    /// The bytecode being executed.
    pub bytecode: Seq<u8>,
    /// Instruction pointer: a byte offset into the bytecode.
    pub ip: int,
    /// Local-variable frames, outermost first; one more than the call depth.
    pub locals: Seq<Seq<ValueV>>,
    /// Call records, oldest first: (return pointer, local depth before call).
    pub frames: Seq<(int, int)>,
    /// Function registry entries, oldest first: (32-byte hash, offset).
    pub registry: Seq<(Seq<u8>, int)>,
    /// Whether execution has stopped, by `halt` or by an error.
    pub halted: bool,
    /// Drawing calls made so far, oldest first.
    pub canvas: Seq<CanvasCall>,
    /// The drawing surface's declared pixel width.
    pub width: usize,
    /// The drawing surface's declared pixel height.
    pub height: usize,
    /// The engine-held time, pushed by the time query.
    pub time: Sc44,
    /// Values printed by the debug opcode, oldest first.
    pub debug: Seq<ValueV>,
}

/// The registry offset a hash resolves to: the newest entry for that hash,
/// or nothing.
pub open spec fn spec_lookup(entries: Seq<(Seq<u8>, int)>, key: Seq<u8>) -> Option<int>
    decreases entries.len(),
{
    if entries.len() == 0 {
        None
    } else if entries.last().0 == key {
        Some(entries.last().1)
    } else {
        spec_lookup(entries.drop_last(), key)
    }
}

/// An error outcome: the machine as it was, only halted, and the error
/// tagged with the instruction pointer at which the instruction began.
pub open spec fn spec_fail(s: StateV, kind: VmErrorKind) -> (StateV, Result<(), VmError>) {
    (StateV { halted: true, ..s }, Err(VmError { ip: s.ip as usize, kind }))
}

/// The value of an inline count or index operand, which must be an unsigned
/// integer literal.
pub open spec fn spec_as_count(v: ValueV) -> Option<int> {
    match v {
        ValueV::U8(n) => Some(n as int),
        ValueV::U16(n) => Some(n as int),
        ValueV::U32(n) => Some(n as int),
        ValueV::U64(n) => Some(n as int),
        ValueV::U128(n) => Some(n as int),
        _ => None,
    }
}

/// An inline unsigned operand at `p`: its value and the position after it,
/// or the error that reading it gives.
pub open spec fn spec_count_operand(s: StateV, op: Opcode, p: int) -> Result<
    (int, int),
    VmErrorKind,
> {
    match spec_parse(s.bytecode, p) {
        None => if p >= s.bytecode.len() {
            Err(VmErrorKind::UnexpectedEndOfBytecode)
        } else {
            Err(VmErrorKind::ValueParseError)
        },
        Some((TokenV::Op(_, _), _)) => Err(VmErrorKind::ValueParseError),
        Some((TokenV::Lit(v), p2)) => match spec_as_count(v) {
            Some(n) => Ok((n, p2)),
            None => Err(VmErrorKind::TypeUnsupported(op, spec_tag(v))),
        },
    }
}

/// `push`: consume one inline data literal and push it.
pub open spec fn spec_do_push(s: StateV, p: int) -> (StateV, Result<(), VmError>) {
    match spec_parse(s.bytecode, p) {
        None => if p >= s.bytecode.len() {
            spec_fail(s, VmErrorKind::UnexpectedEndOfBytecode)
        } else {
            spec_fail(s, VmErrorKind::ValueParseError)
        },
        Some((TokenV::Op(_, _), _)) => spec_fail(s, VmErrorKind::ValueParseError),
        Some((TokenV::Lit(v), p2)) => (
            StateV { stack: s.stack.push(v), ip: p2, ..s },
            Ok(()),
        ),
    }
}

/// The stack-manipulation family: `pop`, `dup`, `swap`, `rotate`, and the
/// indexed `dup_n` with its inline depth.
pub open spec fn spec_do_stack(s: StateV, op: Opcode, p: int) -> (StateV, Result<(), VmError>) {
    let n = s.stack.len() as int;
    match op {
        Opcode::pop => if n < 1 {
            spec_fail(s, VmErrorKind::StackUnderflow)
        } else {
            (StateV { stack: s.stack.drop_last(), ip: p, ..s }, Ok(()))
        },
        Opcode::dup => if n < 1 {
            spec_fail(s, VmErrorKind::StackUnderflow)
        } else {
            (StateV { stack: s.stack.push(s.stack.last()), ip: p, ..s }, Ok(()))
        },
        Opcode::swap => if n < 2 {
            spec_fail(s, VmErrorKind::StackUnderflow)
        } else {
            (
                StateV {
                    stack: s.stack.update(n - 2, s.stack[n - 1]).update(n - 1, s.stack[n - 2]),
                    ip: p,
                    ..s
                },
                Ok(()),
            )
        },
        Opcode::rotate => if n < 3 {
            spec_fail(s, VmErrorKind::StackUnderflow)
        } else {
            (
                StateV {
                    stack: s.stack.update(n - 3, s.stack[n - 2]).update(n - 2, s.stack[n - 1])
                        .update(n - 1, s.stack[n - 3]),
                    ip: p,
                    ..s
                },
                Ok(()),
            )
        },
        Opcode::dup_n => match spec_count_operand(s, op, p) {
            Err(k) => spec_fail(s, k),
            Ok((d, p2)) => if n < d + 1 {
                spec_fail(s, VmErrorKind::StackUnderflow)
            } else {
                (StateV { stack: s.stack.push(s.stack[n - 1 - d]), ip: p2, ..s }, Ok(()))
            },
        },
        _ => spec_fail(s, VmErrorKind::UnsupportedOpcode(op)),
    }
}

/// The locals family: `local_alloc` fixes the active frame's size, filling
/// the slots with the boolean false; `local_get`, `local_set` and
/// `local_tee` are index-checked against the active frame.
pub open spec fn spec_do_locals(s: StateV, op: Opcode, p: int) -> (StateV, Result<(), VmError>) {
    if s.locals.len() == 0 {
        spec_fail(s, VmErrorKind::LocalOutOfBounds)
    } else {
        let fi = s.locals.len() - 1;
        let frame = s.locals.last();
        match spec_count_operand(s, op, p) {
            Err(k) => spec_fail(s, k),
            Ok((d, p2)) => match op {
                Opcode::local_alloc => if d > usize::MAX as int {
                    // a frame beyond the address space can never be allocated
                    spec_fail(s, VmErrorKind::LocalOutOfBounds)
                } else {
                    (
                        StateV {
                            locals: s.locals.update(
                                fi as int,
                                Seq::new(d as nat, |i: int| ValueV::Bool(false)),
                            ),
                            ip: p2,
                            ..s
                        },
                        Ok(()),
                    )
                },
                Opcode::local_get => if d < frame.len() {
                    (StateV { stack: s.stack.push(frame[d]), ip: p2, ..s }, Ok(()))
                } else {
                    spec_fail(s, VmErrorKind::LocalOutOfBounds)
                },
                Opcode::local_set => if s.stack.len() < 1 {
                    spec_fail(s, VmErrorKind::StackUnderflow)
                } else if d < frame.len() {
                    (
                        StateV {
                            stack: s.stack.drop_last(),
                            locals: s.locals.update(fi as int, frame.update(d, s.stack.last())),
                            ip: p2,
                            ..s
                        },
                        Ok(()),
                    )
                } else {
                    spec_fail(s, VmErrorKind::LocalOutOfBounds)
                },
                Opcode::local_tee => if s.stack.len() < 1 {
                    spec_fail(s, VmErrorKind::StackUnderflow)
                } else if d < frame.len() {
                    (
                        StateV {
                            locals: s.locals.update(fi as int, frame.update(d, s.stack.last())),
                            ip: p2,
                            ..s
                        },
                        Ok(()),
                    )
                } else {
                    spec_fail(s, VmErrorKind::LocalOutOfBounds)
                },
                _ => spec_fail(s, VmErrorKind::UnsupportedOpcode(op)),
            },
        }
    }
}

/// A binary operation through one of the value-level dispatchers: pop two,
/// push the result, or fail exactly as the dispatcher says.
pub open spec fn spec_do_binary(
    s: StateV,
    p: int,
    r: Result<ValueV, VmErrorKind>,
) -> (StateV, Result<(), VmError>) {
    let n = s.stack.len() as int;
    if n < 2 {
        spec_fail(s, VmErrorKind::StackUnderflow)
    } else {
        match r {
            Ok(v) => (
                StateV { stack: s.stack.drop_last().drop_last().push(v), ip: p, ..s },
                Ok(()),
            ),
            Err(k) => spec_fail(s, k),
        }
    }
}

/// A unary operation through one of the value-level dispatchers: pop one,
/// push the result, or fail exactly as the dispatcher says.
pub open spec fn spec_do_unary(
    s: StateV,
    p: int,
    r: Result<ValueV, VmErrorKind>,
) -> (StateV, Result<(), VmError>) {
    let n = s.stack.len() as int;
    if n < 1 {
        spec_fail(s, VmErrorKind::StackUnderflow)
    } else {
        match r {
            Ok(v) => (StateV { stack: s.stack.drop_last().push(v), ip: p, ..s }, Ok(())),
            Err(k) => spec_fail(s, k),
        }
    }
}

/// The boolean complement: strict, defined for the boolean subtype alone.
pub open spec fn spec_logic_not(op: Opcode, a: ValueV) -> Result<ValueV, VmErrorKind> {
    match a {
        ValueV::Bool(x) => Ok(ValueV::Bool(!x)),
        _ => Err(VmErrorKind::TypeUnsupported(op, spec_tag(a))),
    }
}

/// Whether a value is a 32-byte content hash, the only accepted transfer
/// target.
pub open spec fn spec_target_check(op: Opcode, v: ValueV) -> Option<VmErrorKind> {
    match v {
        ValueV::Hash(h) => if h.len() == 32 {
            None
        } else {
            Some(VmErrorKind::InvalidHashLength)
        },
        _ => Some(VmErrorKind::TypeUnsupported(op, spec_tag(v))),
    }
}

/// Content-addressed transfers: `jump` pops a hash and moves the
/// instruction pointer; `jump_if` and `jump_zero` pop the hash and then a
/// strict boolean condition; `call` additionally records a call frame and
/// opens a fresh local frame.  An unknown hash fails closed: the
/// instruction pointer does not move.
pub open spec fn spec_do_control(s: StateV, op: Opcode, p: int) -> (StateV, Result<(), VmError>) {
    let n = s.stack.len() as int;
    if op == Opcode::jump || op == Opcode::call {
        if n < 1 {
            spec_fail(s, VmErrorKind::StackUnderflow)
        } else {
            let target = s.stack.last();
            match spec_target_check(op, target) {
                Some(k) => spec_fail(s, k),
                None => match spec_lookup(s.registry, target->Hash_0) {
                    None => spec_fail(s, VmErrorKind::UnknownFunctionHash),
                    Some(t) => if op == Opcode::jump {
                        (StateV { stack: s.stack.drop_last(), ip: t, ..s }, Ok(()))
                    } else {
                        (
                            StateV {
                                stack: s.stack.drop_last(),
                                frames: s.frames.push((p, s.locals.len() as int)),
                                locals: s.locals.push(Seq::empty()),
                                ip: t,
                                ..s
                            },
                            Ok(()),
                        )
                    },
                },
            }
        }
    } else {
        // jump_if / jump_zero
        if n < 2 {
            spec_fail(s, VmErrorKind::StackUnderflow)
        } else {
            let target = s.stack[n - 1];
            let cond = s.stack[n - 2];
            match cond {
                ValueV::Bool(c) => {
                    let taken = if op == Opcode::jump_if {
                        c
                    } else {
                        !c
                    };
                    if !taken {
                        (StateV { stack: s.stack.drop_last().drop_last(), ip: p, ..s }, Ok(()))
                    } else {
                        match spec_target_check(op, target) {
                            Some(k) => spec_fail(s, k),
                            None => match spec_lookup(s.registry, target->Hash_0) {
                                None => spec_fail(s, VmErrorKind::UnknownFunctionHash),
                                Some(t) => (
                                    StateV {
                                        stack: s.stack.drop_last().drop_last(),
                                        ip: t,
                                        ..s
                                    },
                                    Ok(()),
                                ),
                            },
                        }
                    }
                },
                _ => spec_fail(s, VmErrorKind::TypeUnsupported(op, spec_tag(cond))),
            }
        }
    }
}

/// `return` and `return_value`: pop the newest call record, truncate the
/// local frames to the recorded depth, resume at the recorded pointer; the
/// valued form first pops one value and pushes it back after the frames are
/// gone.  A return with no matching call is an error, never a no-op.
pub open spec fn spec_do_return(s: StateV, op: Opcode, p: int) -> (StateV, Result<(), VmError>) {
    if op == Opcode::return_value && s.stack.len() < 1 {
        spec_fail(s, VmErrorKind::StackUnderflow)
    } else if s.frames.len() == 0 {
        spec_fail(s, VmErrorKind::ReturnWithoutMatchingCall)
    } else {
        let (rip, depth) = s.frames.last();
        let trimmed = if 0 <= depth <= s.locals.len() {
            s.locals.subrange(0, depth)
        } else {
            s.locals
        };
        if op == Opcode::return_ {
            (
                StateV { frames: s.frames.drop_last(), locals: trimmed, ip: rip, ..s },
                Ok(()),
            )
        } else {
            (
                StateV {
                    stack: s.stack.drop_last().push(s.stack.last()),
                    frames: s.frames.drop_last(),
                    locals: trimmed,
                    ip: rip,
                    ..s
                },
                Ok(()),
            )
        }
    }
}

/// A colour operand for a drawing call: a named constant or a packed RGBA
/// word.
pub open spec fn spec_as_paint(v: ValueV) -> Option<Paint> {
    match v {
        ValueV::Colour(c) => Some(Paint::Named(c)),
        ValueV::U32(u) => Some(Paint::Rgba(u)),
        _ => None,
    }
}

/// A viewport coordinate operand: the scalar subtype alone.
pub open spec fn spec_as_coord(v: ValueV) -> Option<Sc44> {
    match v {
        ValueV::S44(x) => Some(x),
        _ => None,
    }
}

/// The drawing family: pop the documented operands, append one record to
/// the drawing-call log.  `clear` pops a colour; `fill_rect` pops colour,
/// height, width, top, left; `fill_circle` pops colour, radius, centre
/// vertical, centre horizontal.
pub open spec fn spec_do_draw(s: StateV, op: Opcode, p: int) -> (StateV, Result<(), VmError>) {
    let n = s.stack.len() as int;
    if op == Opcode::clear {
        if n < 1 {
            spec_fail(s, VmErrorKind::StackUnderflow)
        } else {
            match spec_as_paint(s.stack.last()) {
                None => spec_fail(s, VmErrorKind::TypeUnsupported(op, spec_tag(s.stack.last()))),
                Some(paint) => (
                    StateV {
                        stack: s.stack.drop_last(),
                        canvas: s.canvas.push(CanvasCall::Clear(paint)),
                        ip: p,
                        ..s
                    },
                    Ok(()),
                ),
            }
        }
    } else if op == Opcode::fill_rect {
        if n < 5 {
            spec_fail(s, VmErrorKind::StackUnderflow)
        } else {
            match spec_as_paint(s.stack[n - 1]) {
                None => spec_fail(s, VmErrorKind::TypeUnsupported(op, spec_tag(s.stack[n - 1]))),
                Some(paint) => match (
                    spec_as_coord(s.stack[n - 2]),
                    spec_as_coord(s.stack[n - 3]),
                    spec_as_coord(s.stack[n - 4]),
                    spec_as_coord(s.stack[n - 5]),
                ) {
                    (Some(h), Some(w), Some(y), Some(x)) => (
                        StateV {
                            stack: s.stack.subrange(0, n - 5),
                            canvas: s.canvas.push(CanvasCall::FillRect { x, y, w, h, paint }),
                            ip: p,
                            ..s
                        },
                        Ok(()),
                    ),
                    _ => spec_fail(s, VmErrorKind::TypeUnsupported(op, spec_first_bad_coord(s, 4))),
                },
            }
        }
    } else {
        // fill_circle
        if n < 4 {
            spec_fail(s, VmErrorKind::StackUnderflow)
        } else {
            match spec_as_paint(s.stack[n - 1]) {
                None => spec_fail(s, VmErrorKind::TypeUnsupported(op, spec_tag(s.stack[n - 1]))),
                Some(paint) => match (
                    spec_as_coord(s.stack[n - 2]),
                    spec_as_coord(s.stack[n - 3]),
                    spec_as_coord(s.stack[n - 4]),
                ) {
                    (Some(r), Some(cy), Some(cx)) => (
                        StateV {
                            stack: s.stack.subrange(0, n - 4),
                            canvas: s.canvas.push(CanvasCall::FillCircle { cx, cy, r, paint }),
                            ip: p,
                            ..s
                        },
                        Ok(()),
                    ),
                    _ => spec_fail(s, VmErrorKind::TypeUnsupported(op, spec_first_bad_coord(s, 3))),
                },
            }
        }
    }
}

/// The subtype of the first non-scalar coordinate operand, scanning down
/// from just under the colour, for the mismatch report.
pub open spec fn spec_first_bad_coord(s: StateV, k: int) -> TypeTag {
    let n = s.stack.len() as int;
    if spec_as_coord(s.stack[n - 2]) is None {
        spec_tag(s.stack[n - 2])
    } else if spec_as_coord(s.stack[n - 3]) is None {
        spec_tag(s.stack[n - 3])
    } else if k >= 3 && spec_as_coord(s.stack[n - 4]) is None {
        spec_tag(s.stack[n - 4])
    } else {
        spec_tag(s.stack[n - 5])
    }
}

/// One opcode's whole effect, given the position `p` just past its marker.
pub open spec fn spec_exec_op(s: StateV, op: Opcode, p: int) -> (StateV, Result<(), VmError>) {
    let n = s.stack.len() as int;
    match op {
        Opcode::push => spec_do_push(s, p),
        Opcode::pop | Opcode::dup | Opcode::swap | Opcode::rotate | Opcode::dup_n =>
            spec_do_stack(s, op, p),
        Opcode::local_alloc | Opcode::local_get | Opcode::local_set | Opcode::local_tee =>
            spec_do_locals(s, op, p),
        Opcode::add | Opcode::sub | Opcode::mul | Opcode::div | Opcode::mod_ | Opcode::bit_and
            | Opcode::bit_or | Opcode::bit_xor => spec_do_binary(
            s,
            p,
            if n < 2 {
                Err(VmErrorKind::StackUnderflow)
            } else {
                spec_arith(op, s.stack[n - 2], s.stack[n - 1])
            },
        ),
        Opcode::eq | Opcode::ne | Opcode::lt | Opcode::le | Opcode::gt | Opcode::ge =>
            spec_do_binary(
            s,
            p,
            if n < 2 {
                Err(VmErrorKind::StackUnderflow)
            } else {
                spec_compare(op, s.stack[n - 2], s.stack[n - 1])
            },
        ),
        Opcode::and | Opcode::or => spec_do_binary(
            s,
            p,
            if n < 2 {
                Err(VmErrorKind::StackUnderflow)
            } else {
                spec_logic(op, s.stack[n - 2], s.stack[n - 1])
            },
        ),
        Opcode::neg => spec_do_unary(
            s,
            p,
            if n < 1 {
                Err(VmErrorKind::StackUnderflow)
            } else {
                spec_neg(op, s.stack[n - 1])
            },
        ),
        Opcode::bit_not => spec_do_unary(
            s,
            p,
            if n < 1 {
                Err(VmErrorKind::StackUnderflow)
            } else {
                spec_bit_not(op, s.stack[n - 1])
            },
        ),
        Opcode::not => spec_do_unary(
            s,
            p,
            if n < 1 {
                Err(VmErrorKind::StackUnderflow)
            } else {
                spec_logic_not(op, s.stack[n - 1])
            },
        ),
        Opcode::typeof_ => spec_do_unary(
            s,
            p,
            if n < 1 {
                Err(VmErrorKind::StackUnderflow)
            } else {
                Ok(ValueV::Text(spec_type_label(spec_tag(s.stack[n - 1]))))
            },
        ),
        Opcode::jump | Opcode::jump_if | Opcode::jump_zero | Opcode::call => spec_do_control(
            s,
            op,
            p,
        ),
        Opcode::return_ | Opcode::return_value => spec_do_return(s, op, p),
        Opcode::clear | Opcode::fill_rect | Opcode::fill_circle => spec_do_draw(s, op, p),
        Opcode::timestamp => (
            StateV { stack: s.stack.push(ValueV::S44(s.time)), ip: p, ..s },
            Ok(()),
        ),
        Opcode::debug_print => if n < 1 {
            spec_fail(s, VmErrorKind::StackUnderflow)
        } else {
            (
                StateV { stack: s.stack.drop_last(), debug: s.debug.push(s.stack.last()), ip: p, ..s },
                Ok(()),
            )
        },
        Opcode::halt => (StateV { halted: true, ip: p, ..s }, Ok(())),
        Opcode::nop => (StateV { ip: p, ..s }, Ok(())),
        _ => spec_fail(s, VmErrorKind::UnsupportedOpcode(op)),
    }
}

/// One whole instruction: decode at the instruction pointer, dispatch.  The
/// bytecode being exhausted, bytes that are no value, a bare literal where
/// an opcode was required, and a mnemonic that names no opcode each fail
/// with their own error.
pub open spec fn spec_step(s: StateV) -> (StateV, Result<(), VmError>) {
    if s.ip >= s.bytecode.len() {
        spec_fail(s, VmErrorKind::UnexpectedEndOfBytecode)
    } else {
        match spec_parse(s.bytecode, s.ip) {
            None => spec_fail(s, VmErrorKind::ValueParseError),
            Some((TokenV::Lit(_), _)) => spec_fail(s, VmErrorKind::ExpectedOpcode),
            Some((TokenV::Op(a, b), p)) => match spec_opcode_of_code((a * 256 + b) as u16) {
                None => spec_fail(s, VmErrorKind::UnknownOpcode(a, b)),
                Some(op) => spec_exec_op(s, op, p),
            },
        }
    }
}

/// At most `fuel` instructions, stopping at a halt, at the end of the
/// bytecode (which is not an error: the program simply fell off the end),
/// or at the first error.
pub open spec fn spec_run(s: StateV, fuel: nat) -> (StateV, Result<(), VmError>)
    decreases fuel,
{
    if s.halted || s.ip >= s.bytecode.len() || fuel == 0 {
        (s, Ok(()))
    } else {
        let (s2, r) = spec_step(s);
        match r {
            Err(e) => (s2, Err(e)),
            Ok(_) => spec_run(s2, (fuel - 1) as nat),
        }
    }
}


/// The models of a sequence of values.
pub open spec fn vviews(s: Seq<Value>) -> Seq<ValueV> {
    s.map_values(|v: Value| v@)
}

/// The models of the local frames.
pub open spec fn lviews(s: Seq<Vec<Value>>) -> Seq<Seq<ValueV>> {
    s.map_values(|f: Vec<Value>| vviews(f@))
}

/// The models of the call records.
pub open spec fn fviews(s: Seq<CallFrame>) -> Seq<(int, int)> {
    s.map_values(|f: CallFrame| (f.return_ip as int, f.local_count as int))
}

/// The models of the registry entries.
pub open spec fn reg_views(s: Seq<([u8; 32], usize)>) -> Seq<(Seq<u8>, int)> {
    s.map_values(|e: ([u8; 32], usize)| (e.0@, e.1 as int))
}

/// The machine.  One instance owns its stack, locals, call stack, registry,
/// drawing-call log and time exclusively; instances share nothing.
#[derive(Debug)]
pub struct VM {
    stack: Vec<Value>,
    bytecode: Vec<u8>,
    ip: usize,
    locals: Vec<Vec<Value>>,
    call_stack: Vec<CallFrame>,
    registry: Vec<([u8; 32], usize)>,
    halted: bool,
    canvas: Canvas,
    time: Sc44,
    debug_log: Vec<Value>,
}

impl View for VM {
    type V = StateV;

    closed spec fn view(&self) -> StateV {
        StateV {
            stack: vviews(self.stack@),
            bytecode: self.bytecode@,
            ip: self.ip as int,
            locals: lviews(self.locals@),
            frames: fviews(self.call_stack@),
            registry: reg_views(self.registry@),
            halted: self.halted,
            canvas: self.canvas@,
            width: self.canvas.width,
            height: self.canvas.height,
            time: self.time,
            debug: vviews(self.debug_log@),
        }
    }
}

/// Whether a 32-byte hash equals a byte vector.
fn hash_matches(a: &[u8; 32], key: &Vec<u8>) -> (r: bool)
    ensures
        r == (a@ == key@),
{
    if key.len() != 32 {
        assert(a@.len() == 32);
        return false;
    }
    let mut i: usize = 0;
    while i < 32
        invariant
            key.len() == 32,
            i <= 32,
            forall|j: int| 0 <= j < i ==> a@[j] == key@[j],
        decreases 32 - i,
    {
        if a[i] != key[i] {
            assert(a@[i as int] != key@[i as int]);
            return false;
        }
        i = i + 1;
    }
    assert(a@ =~= key@);
    true
}

/// Write one element of a vector in place.
fn vec_set(v: &mut Vec<Value>, i: usize, x: Value)
    requires
        i < old(v).len(),
    ensures
        final(v)@ == old(v)@.update(i as int, x),
{
    v.as_mut_slice()[i] = x;
}

impl VM {
    /// A fresh machine over the given bytecode, with a drawing surface of
    /// the given pixel size: empty stack, one empty local frame, empty call
    /// stack, empty registry, instruction pointer at the start, not halted,
    /// empty call log, time zero.
    pub fn with_canvas(bytecode: Vec<u8>, width: usize, height: usize) -> (r: VM)
        ensures
            r@ == VM::fresh_state(bytecode@, width, height),
    {
        let mut locals: Vec<Vec<Value>> = Vec::new();
        locals.push(Vec::new());
        let r = VM {
            stack: Vec::new(),
            bytecode,
            ip: 0,
            locals,
            call_stack: Vec::new(),
            registry: Vec::new(),
            halted: false,
            canvas: Canvas::new(width, height),
            time: Sc44 { fraction: 0, exponent: 0 },
            debug_log: Vec::new(),
        };
        proof {
            assert(vviews(r.stack@) =~= Seq::<ValueV>::empty());
            assert(lviews(r.locals@) =~= seq![Seq::<ValueV>::empty()]);
            assert(fviews(r.call_stack@) =~= Seq::<(int, int)>::empty());
            assert(reg_views(r.registry@) =~= Seq::<(Seq<u8>, int)>::empty());
            assert(vviews(r.debug_log@) =~= Seq::<ValueV>::empty());
        }
        r
    }

    /// A fresh machine with the default drawing-surface size.
    pub fn new(bytecode: Vec<u8>) -> (r: VM)
        ensures
            r@ == VM::fresh_state(bytecode@, 800, 600),
    {
        VM::with_canvas(bytecode, 800, 600)
    }

    /// The state a fresh machine starts in.
    pub open spec fn fresh_state(bytecode: Seq<u8>, width: usize, height: usize) -> StateV {
        StateV {
            stack: Seq::<ValueV>::empty(),
            bytecode: bytecode,
            ip: 0,
            locals: seq![Seq::<ValueV>::empty()],
            frames: Seq::<(int, int)>::empty(),
            registry: Seq::<(Seq<u8>, int)>::empty(),
            halted: false,
            canvas: Seq::<CanvasCall>::empty(),
            width: width,
            height: height,
            time: (Sc44 { fraction: 0, exponent: 0 }),
            debug: Seq::<ValueV>::empty(),
        }
    }

    /// Reset to re-execute from the start: clears the stack, rewinds the
    /// instruction pointer and clears the halted flag; everything else,
    /// including the registry, the drawing log and the time, is kept.
    pub fn reset(&mut self)
        ensures
            final(self)@ == (StateV { stack: Seq::<ValueV>::empty(), ip: 0, halted: false, ..old(self)@ }),
    {
        self.ip = 0;
        self.halted = false;
        self.stack.clear();
        proof {
            assert(vviews(self.stack@) =~= Seq::<ValueV>::empty());
            assert(self@ =~~= (StateV { stack: Seq::<ValueV>::empty(), ip: 0, halted: false, ..old(self)@ }));
        }
    }

    /// Register a function body's offset under its 32-byte content hash.
    /// Knowing the hash is the capability to call it; a later registration
    /// of the same hash wins.
    pub fn register_function(&mut self, hash: [u8; 32], ip: usize)
        ensures
            final(self)@ == (StateV {
                registry: old(self)@.registry.push((hash@, ip as int)),
                ..old(self)@
            }),
    {
        self.registry.push((hash, ip));
        proof {
            assert(reg_views(self.registry@) =~= reg_views(old(self).registry@).push((hash@, ip as int)));
            assert(self@ =~~= (StateV {
                registry: old(self)@.registry.push((hash@, ip as int)),
                ..old(self)@
            }));
        }
    }

    /// The registry offset a hash resolves to, or nothing: an unknown hash
    /// is never a silent no-op.
    fn resolve(&self, key: &Vec<u8>) -> (r: Option<usize>)
        ensures
            match r {
                Some(t) => spec_lookup(self@.registry, key@) == Some(t as int),
                None => spec_lookup(self@.registry, key@) is None,
            },
    {
        let mut i: usize = self.registry.len();
        proof {
            assert(reg_views(self.registry@).take(i as int) =~= reg_views(self.registry@));
        }
        while i > 0
            invariant
                i <= self.registry.len(),
                spec_lookup(reg_views(self.registry@), key@) == spec_lookup(
                    reg_views(self.registry@).take(i as int),
                    key@,
                ),
            decreases i,
        {
            i = i - 1;
            if hash_matches(&self.registry[i].0, key) {
                proof {
                    assert(reg_views(self.registry@).take(i + 1 as int).last()
                        == (self.registry@[i as int].0@, self.registry@[i as int].1 as int));
                }
                return Some(self.registry[i].1);
            }
            proof {
                assert(reg_views(self.registry@).take(i + 1 as int).drop_last() =~= reg_views(
                    self.registry@,
                ).take(i as int));
            }
        }
        proof {
            assert(reg_views(self.registry@).take(0).len() == 0);
        }
        None
    }

    /// The top of the stack, unpopped.
    pub fn peek(&self) -> (r: Option<&Value>)
        ensures
            match r {
                Some(v) => self@.stack.len() > 0 && v@ == self@.stack.last(),
                None => self@.stack.len() == 0,
            },
    {
        if self.stack.len() == 0 {
            None
        } else {
            Some(&self.stack[self.stack.len() - 1])
        }
    }

    /// How many values the stack holds.
    pub fn stack_depth(&self) -> (r: usize)
        ensures
            r == self@.stack.len(),
    {
        self.stack.len()
    }

    /// Whether execution has stopped, by `halt` or by an error.
    pub fn is_halted(&self) -> (r: bool)
        ensures
            r == self@.halted,
    {
        self.halted
    }

    /// The drawing surface, with its call log.
    pub fn canvas(&self) -> (r: &Canvas)
        ensures
            r@ == self@.canvas,
            (r.width, r.height) == (self@.width, self@.height),
    {
        &self.canvas
    }

    /// Set the engine-held time that the time query pushes.
    pub fn set_time(&mut self, time: Sc44)
        ensures
            final(self)@ == (StateV { time: time, ..old(self)@ }),
    {
        self.time = time;
        proof {
            assert(self@ =~~= (StateV { time: time, ..old(self)@ }));
        }
    }

    /// The engine-held time.
    pub fn time(&self) -> (r: Sc44)
        ensures
            r == self@.time,
    {
        self.time
    }

    /// The values printed by the debug opcode so far, oldest first.
    pub fn debug_log(&self) -> (r: &Vec<Value>)
        ensures
            vviews(r@) == self@.debug,
    {
        &self.debug_log
    }

    /// Stop with an error: the machine is left exactly as it was, except
    /// halted, and the error carries the current instruction pointer.
    fn fail(&mut self, kind: VmErrorKind) -> (r: Result<(), VmError>)
        ensures
            (final(self)@, r) == spec_fail(old(self)@, kind),
    {
        self.halted = true;
        let r = Err(VmError { ip: self.ip, kind });
        proof {
            assert(self@ =~~= (StateV { halted: true, ..old(self)@ }));
        }
        r
    }

    /// Read an inline unsigned operand at `p`.
    fn read_count(&self, op: Opcode, p: usize) -> (r: Result<(u128, usize), VmErrorKind>)
        ensures
            match r {
                Ok(c) => spec_count_operand(self@, op, p as int) == Ok::<(int, int), VmErrorKind>(
                    (c.0 as int, c.1 as int),
                ),
                Err(k) => spec_count_operand(self@, op, p as int) == Err::<(int, int), VmErrorKind>(
                    k,
                ),
            },
    {
        match parse_value(&self.bytecode, p) {
            None => if p >= self.bytecode.len() {
                Err(VmErrorKind::UnexpectedEndOfBytecode)
            } else {
                Err(VmErrorKind::ValueParseError)
            },
            Some((Token::Op(_, _), _)) => Err(VmErrorKind::ValueParseError),
            Some((Token::Lit(v), p2)) => match v {
                Value::U8(x) => Ok((x as u128, p2)),
                Value::U16(x) => Ok((x as u128, p2)),
                Value::U32(x) => Ok((x as u128, p2)),
                Value::U64(x) => Ok((x as u128, p2)),
                Value::U128(x) => Ok((x, p2)),
                _ => Err(VmErrorKind::TypeUnsupported(op, v.tag())),
            },
        }
    }

    /// Execute one instruction: decode exactly one value at the instruction
    /// pointer and dispatch it.  On an error of any kind the machine is
    /// left halted and otherwise untouched; in particular a failed transfer
    /// leaves the instruction pointer where it was.
    pub fn step(&mut self) -> (r: Result<(), VmError>)
        ensures
            final(self)@ == spec_step(old(self)@).0,
            r == spec_step(old(self)@).1,
    {
        if self.ip >= self.bytecode.len() {
            return self.fail(VmErrorKind::UnexpectedEndOfBytecode);
        }
        match parse_value(&self.bytecode, self.ip) {
            None => self.fail(VmErrorKind::ValueParseError),
            Some((Token::Lit(_), _)) => self.fail(VmErrorKind::ExpectedOpcode),
            Some((Token::Op(a, b), p)) => {
                let code = crate::opcode::pack(a, b);
                match Opcode::from_u16(code) {
                    None => self.fail(VmErrorKind::UnknownOpcode(a, b)),
                    Some(op) => self.exec_op(op, p),
                }
            },
        }
    }

    /// Dispatch one decoded opcode, `p` being the position just past its
    /// marker.
    #[verifier::rlimit(100)]
    fn exec_op(&mut self, op: Opcode, p: usize) -> (r: Result<(), VmError>)
        ensures
            final(self)@ == spec_exec_op(old(self)@, op, p as int).0,
            r == spec_exec_op(old(self)@, op, p as int).1,
    {
        let n = self.stack.len();
        match op {
            Opcode::push => self.exec_push(p),
            Opcode::pop | Opcode::dup | Opcode::swap | Opcode::rotate | Opcode::dup_n => {
                self.exec_stack(op, p)
            },
            Opcode::local_alloc | Opcode::local_get | Opcode::local_set | Opcode::local_tee => {
                self.exec_locals(op, p)
            },
            Opcode::add | Opcode::sub | Opcode::mul | Opcode::div | Opcode::mod_
                | Opcode::bit_and | Opcode::bit_or | Opcode::bit_xor => {
                if n < 2 {
                    return self.fail(VmErrorKind::StackUnderflow);
                }
                let rv = arith_op(op, &self.stack[n - 2], &self.stack[n - 1]);
                self.finish_binary(op, p, rv)
            },
            Opcode::eq | Opcode::ne | Opcode::lt | Opcode::le | Opcode::gt | Opcode::ge => {
                if n < 2 {
                    return self.fail(VmErrorKind::StackUnderflow);
                }
                let rv = compare_op(op, &self.stack[n - 2], &self.stack[n - 1]);
                self.finish_binary(op, p, rv)
            },
            Opcode::and | Opcode::or => {
                if n < 2 {
                    return self.fail(VmErrorKind::StackUnderflow);
                }
                let rv = logic_op(op, &self.stack[n - 2], &self.stack[n - 1]);
                self.finish_binary(op, p, rv)
            },
            Opcode::neg => {
                if n < 1 {
                    return self.fail(VmErrorKind::StackUnderflow);
                }
                let rv = neg_op(op, &self.stack[n - 1]);
                self.finish_unary(op, p, rv)
            },
            Opcode::bit_not => {
                if n < 1 {
                    return self.fail(VmErrorKind::StackUnderflow);
                }
                let rv = bit_not_op(op, &self.stack[n - 1]);
                self.finish_unary(op, p, rv)
            },
            Opcode::not => {
                if n < 1 {
                    return self.fail(VmErrorKind::StackUnderflow);
                }
                let rv = match &self.stack[n - 1] {
                    Value::Bool(x) => Ok(Value::Bool(!*x)),
                    v => Err(VmErrorKind::TypeUnsupported(op, v.tag())),
                };
                self.finish_unary(op, p, rv)
            },
            Opcode::typeof_ => {
                if n < 1 {
                    return self.fail(VmErrorKind::StackUnderflow);
                }
                let rv = Ok(Value::Text(self.stack[n - 1].type_label()));
                self.finish_unary(op, p, rv)
            },
            Opcode::jump | Opcode::jump_if | Opcode::jump_zero | Opcode::call => {
                self.exec_control(op, p)
            },
            Opcode::return_ | Opcode::return_value => self.exec_return(op, p),
            Opcode::clear | Opcode::fill_rect | Opcode::fill_circle => self.exec_draw(op, p),
            Opcode::timestamp => {
                let v = Value::S44(self.time);
                self.stack.push(v);
                self.ip = p;
                proof {
                    assert(vviews(self.stack@) =~= vviews(old(self).stack@).push(
                        ValueV::S44(old(self)@.time),
                    ));
                    assert(self@ =~~= spec_exec_op(old(self)@, op, p as int).0);
                }
                Ok(())
            },
            Opcode::debug_print => {
                if n < 1 {
                    return self.fail(VmErrorKind::StackUnderflow);
                }
                let v = self.stack.pop().unwrap();
                self.debug_log.push(v);
                self.ip = p;
                proof {
                    assert(vviews(self.stack@) =~= vviews(old(self).stack@).drop_last());
                    assert(vviews(self.debug_log@) =~= vviews(old(self).debug_log@).push(
                        old(self)@.stack.last(),
                    ));
                    assert(self@ =~~= spec_exec_op(old(self)@, op, p as int).0);
                }
                Ok(())
            },
            Opcode::halt => {
                self.halted = true;
                self.ip = p;
                proof {
                    assert(self@ =~~= (StateV { halted: true, ip: p as int, ..old(self)@ }));
                }
                Ok(())
            },
            Opcode::nop => {
                self.ip = p;
                proof {
                    assert(self@ =~~= (StateV { ip: p as int, ..old(self)@ }));
                }
                Ok(())
            },
            _ => self.fail(VmErrorKind::UnsupportedOpcode(op)),
        }
    }


    /// `push`: consume one inline data literal and push it.
    fn exec_push(&mut self, p: usize) -> (r: Result<(), VmError>)
        ensures
            final(self)@ == spec_do_push(old(self)@, p as int).0,
            r == spec_do_push(old(self)@, p as int).1,
    {
            match parse_value(&self.bytecode, p) {
                None => if p >= self.bytecode.len() {
                    self.fail(VmErrorKind::UnexpectedEndOfBytecode)
                } else {
                    self.fail(VmErrorKind::ValueParseError)
                },
                Some((Token::Op(_, _), _)) => self.fail(VmErrorKind::ValueParseError),
                Some((Token::Lit(v), p2)) => {
                    let ghost gv = v@;
                    self.stack.push(v);
                    self.ip = p2;
                    proof {
                        assert(vviews(self.stack@) =~= vviews(old(self).stack@).push(gv));
                        assert(self@ =~~= (StateV {
                            stack: old(self)@.stack.push(gv),
                            ip: p2 as int,
                            ..old(self)@
                        }));
                    }
                    Ok(())
                },
            }
    }

    /// The stack-manipulation family.
    fn exec_stack(&mut self, op: Opcode, p: usize) -> (r: Result<(), VmError>)
        requires
            op == Opcode::pop || op == Opcode::dup || op == Opcode::swap || op == Opcode::rotate
                || op == Opcode::dup_n,
        ensures
            final(self)@ == spec_do_stack(old(self)@, op, p as int).0,
            r == spec_do_stack(old(self)@, op, p as int).1,
    {
        let n = self.stack.len();
        match op {
            Opcode::pop => {
                if n < 1 {
                    return self.fail(VmErrorKind::StackUnderflow);
                }
                self.stack.pop();
                self.ip = p;
                proof {
                    assert(vviews(self.stack@) =~= vviews(old(self).stack@).drop_last());
                    assert(self@ =~~= (StateV {
                        stack: old(self)@.stack.drop_last(),
                        ip: p as int,
                        ..old(self)@
                    }));
                }
                Ok(())
            },
            Opcode::dup => {
                if n < 1 {
                    return self.fail(VmErrorKind::StackUnderflow);
                }
                let v = self.stack[n - 1].clone();
                let ghost gv = v@;
                self.stack.push(v);
                self.ip = p;
                proof {
                    assert(gv == old(self)@.stack.last());
                    assert(vviews(self.stack@) =~= vviews(old(self).stack@).push(gv));
                    assert(self@ =~~= (StateV {
                        stack: old(self)@.stack.push(old(self)@.stack.last()),
                        ip: p as int,
                        ..old(self)@
                    }));
                }
                Ok(())
            },
            Opcode::swap => {
                if n < 2 {
                    return self.fail(VmErrorKind::StackUnderflow);
                }
                let a = self.stack.pop().unwrap();
                let b = self.stack.pop().unwrap();
                self.stack.push(a);
                self.stack.push(b);
                self.ip = p;
                proof {
                    let os = old(self)@.stack;
                    assert(vviews(self.stack@) =~= os.update(
                        os.len() - 2,
                        os[os.len() - 1],
                    ).update(os.len() - 1, os[os.len() - 2]));
                    assert(self@ =~~= spec_do_stack(old(self)@, op, p as int).0);
                }
                Ok(())
            },
            Opcode::rotate => {
                if n < 3 {
                    return self.fail(VmErrorKind::StackUnderflow);
                }
                let c = self.stack.pop().unwrap();
                let b = self.stack.pop().unwrap();
                let a = self.stack.pop().unwrap();
                self.stack.push(b);
                self.stack.push(c);
                self.stack.push(a);
                self.ip = p;
                proof {
                    let os = old(self)@.stack;
                    let m = os.len() as int;
                    assert(vviews(self.stack@) =~= os.update(m - 3, os[m - 2]).update(
                        m - 2,
                        os[m - 1],
                    ).update(m - 1, os[m - 3]));
                    assert(self@ =~~= spec_do_stack(old(self)@, op, p as int).0);
                }
                Ok(())
            },
            Opcode::dup_n => {
                let (d, p2) = match self.read_count(op, p) {
                    Err(k) => {
                        return self.fail(k);
                    },
                    Ok(c) => c,
                };
                if (n as u128) <= d {
                    return self.fail(VmErrorKind::StackUnderflow);
                }
                let di = d as usize;
                let v = self.stack[n - 1 - di].clone();
                let ghost gv = v@;
                self.stack.push(v);
                self.ip = p2;
                proof {
                    let os = old(self)@.stack;
                    assert(gv == os[os.len() - 1 - d]);
                    assert(vviews(self.stack@) =~= os.push(gv));
                    assert(self@ =~~= spec_do_stack(old(self)@, op, p as int).0);
                }
                Ok(())
            },
            _ => {
                proof {
                    assert(false);
                }
                self.fail(VmErrorKind::UnsupportedOpcode(op))
            },
        }
    }

    /// Commit a binary dispatch result: pop two and push, or fail.
    fn finish_binary(&mut self, op: Opcode, p: usize, rv: Result<Value, VmErrorKind>) -> (r:
        Result<(), VmError>)
        requires
            old(self)@.stack.len() >= 2,
        ensures
            final(self)@ == spec_do_binary(old(self)@, p as int, res_view(rv)).0,
            r == spec_do_binary(old(self)@, p as int, res_view(rv)).1,
    {
        match rv {
            Ok(v) => {
                let ghost gv = v@;
                self.stack.pop();
                self.stack.pop();
                self.stack.push(v);
                self.ip = p;
                proof {
                    assert(vviews(self.stack@) =~= vviews(
                        old(self).stack@,
                    ).drop_last().drop_last().push(gv));
                    assert(self@ =~~= (StateV {
                        stack: old(self)@.stack.drop_last().drop_last().push(gv),
                        ip: p as int,
                        ..old(self)@
                    }));
                }
                Ok(())
            },
            Err(k) => self.fail(k),
        }
    }

    /// Commit a unary dispatch result: pop one and push, or fail.
    fn finish_unary(&mut self, op: Opcode, p: usize, rv: Result<Value, VmErrorKind>) -> (r: Result<
        (),
        VmError,
    >)
        requires
            old(self)@.stack.len() >= 1,
        ensures
            final(self)@ == spec_do_unary(old(self)@, p as int, res_view(rv)).0,
            r == spec_do_unary(old(self)@, p as int, res_view(rv)).1,
    {
        match rv {
            Ok(v) => {
                let ghost gv = v@;
                self.stack.pop();
                self.stack.push(v);
                self.ip = p;
                proof {
                    assert(vviews(self.stack@) =~= vviews(old(self).stack@).drop_last().push(gv));
                    assert(self@ =~~= (StateV {
                        stack: old(self)@.stack.drop_last().push(gv),
                        ip: p as int,
                        ..old(self)@
                    }));
                }
                Ok(())
            },
            Err(k) => self.fail(k),
        }
    }

    /// The locals family.
    fn exec_locals(&mut self, op: Opcode, p: usize) -> (r: Result<(), VmError>)
        requires
            op == Opcode::local_alloc || op == Opcode::local_get || op == Opcode::local_set || op
                == Opcode::local_tee,
        ensures
            final(self)@ == spec_do_locals(old(self)@, op, p as int).0,
            r == spec_do_locals(old(self)@, op, p as int).1,
    {
        let ln = self.locals.len();
        if ln == 0 {
            return self.fail(VmErrorKind::LocalOutOfBounds);
        }
        let fi = ln - 1;
        let (d, p2) = match self.read_count(op, p) {
            Err(k) => {
                return self.fail(k);
            },
            Ok(c) => c,
        };
        match op {
            Opcode::local_alloc => {
                if d > usize::MAX as u128 {
                    // A frame beyond the address space can never be allocated.
                    return self.fail(VmErrorKind::LocalOutOfBounds);
                }
                let count = d as usize;
                let mut frame: Vec<Value> = Vec::new();
                let mut i: usize = 0;
                while i < count
                    invariant
                        i <= count,
                        frame@.len() == i as int,
                        forall|k: int| 0 <= k < i ==> frame@[k] == Value::Bool(false),
                    decreases count - i,
                {
                    frame.push(Value::Bool(false));
                    i = i + 1;
                }
                self.locals.pop();
                self.locals.push(frame);
                self.ip = p2;
                proof {
                    assert(lviews(self.locals@) =~~= lviews(old(self).locals@).update(
                        fi as int,
                        Seq::new(d as nat, |k: int| ValueV::Bool(false)),
                    ));
                    assert(self@ =~~= spec_do_locals(old(self)@, op, p as int).0);
                }
                Ok(())
            },
            Opcode::local_get => {
                if d >= self.locals[fi].len() as u128 {
                    return self.fail(VmErrorKind::LocalOutOfBounds);
                }
                let di = d as usize;
                let v = self.locals[fi][di].clone();
                let ghost gv = v@;
                self.stack.push(v);
                self.ip = p2;
                proof {
                    assert(gv == old(self)@.locals.last()[d as int]);
                    assert(vviews(self.stack@) =~= vviews(old(self).stack@).push(gv));
                    assert(self@ =~~= spec_do_locals(old(self)@, op, p as int).0);
                }
                Ok(())
            },
            Opcode::local_set | Opcode::local_tee => {
                if self.stack.len() < 1 {
                    return self.fail(VmErrorKind::StackUnderflow);
                }
                if d >= self.locals[fi].len() as u128 {
                    return self.fail(VmErrorKind::LocalOutOfBounds);
                }
                let di = d as usize;
                let v = self.stack[self.stack.len() - 1].clone();
                let ghost gv = v@;
                let mut frame = self.locals.pop().unwrap();
                vec_set(&mut frame, di, v);
                self.locals.push(frame);
                let keep = matches!(op, Opcode::local_tee);
                if !keep {
                    self.stack.pop();
                }
                self.ip = p2;
                proof {
                    assert(gv == old(self)@.stack.last());
                    assert(lviews(self.locals@) =~~= lviews(old(self).locals@).update(
                        fi as int,
                        old(self)@.locals.last().update(d as int, gv),
                    ));
                    if op == Opcode::local_set {
                        assert(vviews(self.stack@) =~= vviews(old(self).stack@).drop_last());
                    }
                    assert(self@ =~~= spec_do_locals(old(self)@, op, p as int).0);
                }
                Ok(())
            },
            _ => {
                proof {
                    assert(false);
                }
                self.fail(VmErrorKind::UnsupportedOpcode(op))
            },
        }
    }

    /// The content-addressed transfer family.
    fn exec_control(&mut self, op: Opcode, p: usize) -> (r: Result<(), VmError>)
        requires
            op == Opcode::jump || op == Opcode::jump_if || op == Opcode::jump_zero || op
                == Opcode::call,
        ensures
            final(self)@ == spec_do_control(old(self)@, op, p as int).0,
            r == spec_do_control(old(self)@, op, p as int).1,
    {
        let n = self.stack.len();
        if matches!(op, Opcode::jump | Opcode::call) {
            if n < 1 {
                return self.fail(VmErrorKind::StackUnderflow);
            }
            let target_ip = match &self.stack[n - 1] {
                Value::Hash(h) => {
                    if h.len() != 32 {
                        return self.fail(VmErrorKind::InvalidHashLength);
                    }
                    match self.resolve_at(n - 1) {
                        None => {
                            return self.fail(VmErrorKind::UnknownFunctionHash);
                        },
                        Some(t) => t,
                    }
                },
                v => {
                    let k = VmErrorKind::TypeUnsupported(op, v.tag());
                    return self.fail(k);
                },
            };
            self.stack.pop();
            if matches!(op, Opcode::call) {
                self.call_stack.push(CallFrame { return_ip: p, local_count: self.locals.len() });
                self.locals.push(Vec::new());
            }
            self.ip = target_ip;
            proof {
                assert(vviews(self.stack@) =~= vviews(old(self).stack@).drop_last());
                if op == Opcode::call {
                    assert(fviews(self.call_stack@) =~= fviews(old(self).call_stack@).push(
                        (p as int, old(self)@.locals.len() as int),
                    ));
                    assert(lviews(self.locals@) =~~= lviews(old(self).locals@).push(
                        Seq::<ValueV>::empty(),
                    ));
                }
                assert(self@ =~~= spec_do_control(old(self)@, op, p as int).0);
            }
            Ok(())
        } else {
            if n < 2 {
                return self.fail(VmErrorKind::StackUnderflow);
            }
            let c = match &self.stack[n - 2] {
                Value::Bool(c) => *c,
                v => {
                    let k = VmErrorKind::TypeUnsupported(op, v.tag());
                    return self.fail(k);
                },
            };
            let taken = if matches!(op, Opcode::jump_if) {
                c
            } else {
                !c
            };
            if !taken {
                self.stack.pop();
                self.stack.pop();
                self.ip = p;
                proof {
                    assert(vviews(self.stack@) =~= vviews(old(self).stack@).drop_last().drop_last());
                    assert(self@ =~~= spec_do_control(old(self)@, op, p as int).0);
                }
                return Ok(());
            }
            let target_ip = match &self.stack[n - 1] {
                Value::Hash(h) => {
                    if h.len() != 32 {
                        return self.fail(VmErrorKind::InvalidHashLength);
                    }
                    match self.resolve_at(n - 1) {
                        None => {
                            return self.fail(VmErrorKind::UnknownFunctionHash);
                        },
                        Some(t) => t,
                    }
                },
                v => {
                    let k = VmErrorKind::TypeUnsupported(op, v.tag());
                    return self.fail(k);
                },
            };
            self.stack.pop();
            self.stack.pop();
            self.ip = target_ip;
            proof {
                assert(vviews(self.stack@) =~= vviews(old(self).stack@).drop_last().drop_last());
                assert(self@ =~~= spec_do_control(old(self)@, op, p as int).0);
            }
            Ok(())
        }
    }

    /// Resolve the hash held in the stack slot `i`.
    fn resolve_at(&self, i: usize) -> (r: Option<usize>)
        requires
            i < self@.stack.len(),
            self@.stack[i as int] is Hash,
        ensures
            match r {
                Some(t) => spec_lookup(self@.registry, self@.stack[i as int]->Hash_0) == Some(
                    t as int,
                ),
                None => spec_lookup(self@.registry, self@.stack[i as int]->Hash_0) is None,
            },
    {
        match &self.stack[i] {
            Value::Hash(h) => self.resolve(h),
            _ => {
                proof {
                    assert(false);
                }
                None
            },
        }
    }

    /// `return` and `return_value`.
    fn exec_return(&mut self, op: Opcode, p: usize) -> (r: Result<(), VmError>)
        requires
            op == Opcode::return_ || op == Opcode::return_value,
        ensures
            final(self)@ == spec_do_return(old(self)@, op, p as int).0,
            r == spec_do_return(old(self)@, op, p as int).1,
    {
        if matches!(op, Opcode::return_value) && self.stack.len() < 1 {
            return self.fail(VmErrorKind::StackUnderflow);
        }
        if self.call_stack.len() == 0 {
            return self.fail(VmErrorKind::ReturnWithoutMatchingCall);
        }
        let frame = self.call_stack.pop().unwrap();
        self.locals.truncate(frame.local_count);
        self.ip = frame.return_ip;
        proof {
            assert(fviews(self.call_stack@) =~= fviews(old(self).call_stack@).drop_last());
            if frame.local_count <= old(self).locals.len() {
                assert(lviews(self.locals@) =~~= lviews(old(self).locals@).subrange(
                    0,
                    frame.local_count as int,
                ));
            } else {
                assert(lviews(self.locals@) =~~= lviews(old(self).locals@));
            }
        }
        if matches!(op, Opcode::return_) {
            proof {
                assert(self@ =~~= spec_do_return(old(self)@, op, p as int).0);
            }
            Ok(())
        } else {
            // The returned value is already on top of the stack; popping it
            // and pushing it back is the identity, so the stack is simply
            // kept.
            proof {
                let os = old(self)@.stack;
                assert(os.drop_last().push(os.last()) =~= os);
                assert(self@ =~~= spec_do_return(old(self)@, op, p as int).0);
            }
            Ok(())
        }
    }

    /// The drawing family.
    fn exec_draw(&mut self, op: Opcode, p: usize) -> (r: Result<(), VmError>)
        requires
            op == Opcode::clear || op == Opcode::fill_rect || op == Opcode::fill_circle,
        ensures
            final(self)@ == spec_do_draw(old(self)@, op, p as int).0,
            r == spec_do_draw(old(self)@, op, p as int).1,
    {
        let n = self.stack.len();
        let need: usize = if matches!(op, Opcode::clear) {
            1
        } else if matches!(op, Opcode::fill_circle) {
            4
        } else {
            5
        };
        if n < need {
            return self.fail(VmErrorKind::StackUnderflow);
        }
        let paint = match &self.stack[n - 1] {
            Value::Colour(c) => Paint::Named(*c),
            Value::U32(u) => Paint::Rgba(*u),
            v => {
                let k = VmErrorKind::TypeUnsupported(op, v.tag());
                return self.fail(k);
            },
        };
        if matches!(op, Opcode::clear) {
            self.stack.pop();
            self.canvas.calls.push(CanvasCall::Clear(paint));
            self.ip = p;
            proof {
                assert(vviews(self.stack@) =~= vviews(old(self).stack@).drop_last());
                assert(self@ =~~= spec_do_draw(old(self)@, op, p as int).0);
            }
            return Ok(());
        }
        let c1 = match &self.stack[n - 2] {
            Value::S44(x) => *x,
            v => {
                let k = VmErrorKind::TypeUnsupported(op, v.tag());
                return self.fail(k);
            },
        };
        let c2 = match &self.stack[n - 3] {
            Value::S44(x) => *x,
            v => {
                let k = VmErrorKind::TypeUnsupported(op, v.tag());
                return self.fail(k);
            },
        };
        let c3 = match &self.stack[n - 4] {
            Value::S44(x) => *x,
            v => {
                let k = VmErrorKind::TypeUnsupported(op, v.tag());
                return self.fail(k);
            },
        };
        if matches!(op, Opcode::fill_circle) {
            self.stack.truncate(n - 4);
            self.canvas.calls.push(CanvasCall::FillCircle { cx: c3, cy: c2, r: c1, paint });
            self.ip = p;
            proof {
                assert(vviews(self.stack@) =~= vviews(old(self).stack@).subrange(
                    0,
                    old(self)@.stack.len() - 4,
                ));
                assert(self@ =~~= spec_do_draw(old(self)@, op, p as int).0);
            }
            return Ok(());
        }
        let c4 = match &self.stack[n - 5] {
            Value::S44(x) => *x,
            v => {
                let k = VmErrorKind::TypeUnsupported(op, v.tag());
                return self.fail(k);
            },
        };
        self.stack.truncate(n - 5);
        self.canvas.calls.push(CanvasCall::FillRect { x: c4, y: c3, w: c2, h: c1, paint });
        self.ip = p;
        proof {
            assert(vviews(self.stack@) =~= vviews(old(self).stack@).subrange(
                0,
                old(self)@.stack.len() - 5,
            ));
            assert(self@ =~~= spec_do_draw(old(self)@, op, p as int).0);
        }
        Ok(())
    }

    /// Execute until a halt, the end of the bytecode, an error, or at most
    /// `max_steps` instructions.  Falling off the end without a halt is not
    /// an error.
    pub fn run(&mut self, max_steps: usize) -> (r: Result<(), VmError>)
        ensures
            final(self)@ == spec_run(old(self)@, max_steps as nat).0,
            r == spec_run(old(self)@, max_steps as nat).1,
    {
        let ghost s0 = self@;
        let mut fuel: usize = max_steps;
        while !self.halted && self.ip < self.bytecode.len() && fuel > 0
            invariant
                fuel <= max_steps,
                s0 == old(self)@,
                spec_run(s0, max_steps as nat) == spec_run(self@, fuel as nat),
            decreases fuel,
        {
            let ghost pre = self@;
            match self.step() {
                Ok(_) => {
                    proof {
                        assert(spec_run(pre, fuel as nat) == spec_run(self@, (fuel - 1) as nat));
                    }
                },
                Err(e) => {
                    proof {
                        assert(spec_run(pre, fuel as nat) == (self@, Err::<(), VmError>(e)));
                    }
                    return Err(e);
                },
            }
            fuel = fuel - 1;
        }
        proof {
            assert(spec_run(self@, fuel as nat) == (self@, Ok::<(), VmError>(())));
        }
        Ok(())
    }
}


/// How many operand-stack values an implemented opcode requires before it
/// does anything else; inline-operand and frame checks come after this one.
pub open spec fn spec_min_operands(op: Opcode) -> int {
    match op {
        Opcode::pop | Opcode::dup | Opcode::neg | Opcode::bit_not | Opcode::not
            | Opcode::typeof_ | Opcode::debug_print | Opcode::jump | Opcode::call
            | Opcode::clear | Opcode::return_value => 1,
        Opcode::swap | Opcode::add | Opcode::sub | Opcode::mul | Opcode::div | Opcode::mod_
            | Opcode::bit_and | Opcode::bit_or | Opcode::bit_xor | Opcode::eq | Opcode::ne
            | Opcode::lt | Opcode::le | Opcode::gt | Opcode::ge | Opcode::and | Opcode::or
            | Opcode::jump_if | Opcode::jump_zero => 2,
        Opcode::rotate => 3,
        Opcode::fill_circle => 4,
        Opcode::fill_rect => 5,
        _ => 0,
    }
}

/// Law: an opcode executed against a stack with fewer values than its arity
/// fails with a stack underflow, never by reading out of bounds; the
/// machine is left as it was, only halted.
pub proof fn lemma_stack_underflow(s: StateV, op: Opcode, p: int)
    requires
        s.stack.len() < spec_min_operands(op),
    ensures
        spec_exec_op(s, op, p) == spec_fail(s, VmErrorKind::StackUnderflow),
{
}

/// Law: transferring to a 32-byte hash that the registry does not hold
/// fails closed with the unknown-hash error; the stack, the instruction
/// pointer and everything else are left exactly as they were.
pub proof fn lemma_unknown_hash_fails_closed(s: StateV, op: Opcode, p: int, h: Seq<u8>)
    requires
        op == Opcode::jump || op == Opcode::call,
        s.stack.len() >= 1,
        s.stack.last() == ValueV::Hash(h),
        h.len() == 32,
        spec_lookup(s.registry, h) is None,
    ensures
        spec_exec_op(s, op, p) == spec_fail(s, VmErrorKind::UnknownFunctionHash),
        spec_exec_op(s, op, p).0.ip == s.ip,
        spec_exec_op(s, op, p).0.stack == s.stack,
{
}

/// Law, first half of call/return symmetry: a call through a registered
/// hash transfers control to the registered offset, records the return
/// pointer and the local depth before the call, and opens one fresh local
/// frame.
pub proof fn lemma_call_records_frame(s: StateV, p: int, h: Seq<u8>, t: int)
    requires
        s.stack.len() >= 1,
        s.stack.last() == ValueV::Hash(h),
        h.len() == 32,
        spec_lookup(s.registry, h) == Some(t),
    ensures
        spec_exec_op(s, Opcode::call, p) == (
            (StateV {
                stack: s.stack.drop_last(),
                frames: s.frames.push((p, s.locals.len() as int)),
                locals: s.locals.push(Seq::<ValueV>::empty()),
                ip: t,
                ..s
            }),
            Ok::<(), VmError>(()),
        ),
{
}

/// Law, second half of call/return symmetry: a return after a call restores
/// exactly the frame depth the call recorded and resumes at the recorded
/// return pointer; across the pair, the call stack and the local frames are
/// exactly what they were.
pub proof fn lemma_call_return_symmetry(s: StateV, p: int, h: Seq<u8>, t: int, p2: int)
    requires
        s.stack.len() >= 1,
        s.stack.last() == ValueV::Hash(h),
        h.len() == 32,
        spec_lookup(s.registry, h) == Some(t),
    ensures
        ({
            let after_call = spec_exec_op(s, Opcode::call, p).0;
            let after_return = spec_exec_op(after_call, Opcode::return_, p2).0;
            &&& spec_exec_op(s, Opcode::call, p).1 is Ok
            &&& spec_exec_op(after_call, Opcode::return_, p2).1 is Ok
            &&& after_return.ip == p
            &&& after_return.frames == s.frames
            &&& after_return.locals == s.locals
            &&& after_return.stack == s.stack.drop_last()
        }),
{
    let after_call = spec_exec_op(s, Opcode::call, p).0;
    assert(after_call.locals.push(Seq::<ValueV>::empty()).subrange(
        0,
        s.locals.len() as int,
    ) =~~= s.locals);
    let after_return = spec_exec_op(after_call, Opcode::return_, p2).0;
    assert(after_return.locals =~~= s.locals);
}

/// Law: a return with no matching call is an error, never a silent no-op.
/// The valued form pops its return value first, so on an empty operand
/// stack it underflows before the call stack is consulted, exactly as the
/// operand discipline requires.
pub proof fn lemma_return_without_call(s: StateV, p: int)
    requires
        s.frames.len() == 0,
    ensures
        spec_exec_op(s, Opcode::return_, p) == spec_fail(
            s,
            VmErrorKind::ReturnWithoutMatchingCall,
        ),
        s.stack.len() >= 1 ==> spec_exec_op(s, Opcode::return_value, p) == spec_fail(
            s,
            VmErrorKind::ReturnWithoutMatchingCall,
        ),
{
}

/// Law: execution is deterministic.  Two machines in equal states, run with
/// the same step budget, end in equal states — byte-identical stacks and
/// byte-identical drawing-call sequences included — and report the same
/// outcome.  The engine consults nothing outside its state.
pub proof fn lemma_run_deterministic(s1: StateV, s2: StateV, fuel: nat)
    requires
        s1 == s2,
    ensures
        spec_run(s1, fuel) == spec_run(s2, fuel),
        spec_run(s1, fuel).0.stack == spec_run(s2, fuel).0.stack,
        spec_run(s1, fuel).0.canvas == spec_run(s2, fuel).0.canvas,
{
}


/// Machine frame discipline: there is always exactly one more local frame
/// than unreturned calls, and each call record captured the frame count of
/// its moment.
pub open spec fn spec_frames_wf(s: StateV) -> bool {
    &&& s.locals.len() == s.frames.len() + 1
    &&& forall|i: int| 0 <= i < s.frames.len() ==> #[trigger] s.frames[i].1 == i + 1
}

/// Law: every instruction preserves the frame discipline; in particular the
/// local-frame count equals one plus the number of active calls in every
/// reachable state.
pub proof fn lemma_step_preserves_frames(s: StateV)
    requires
        spec_frames_wf(s),
    ensures
        spec_frames_wf(spec_step(s).0),
{
}

/// Law: the engine is fail-stop.  An erring instruction reports the offset
/// at which it began and leaves the machine exactly as it was, only halted:
/// no partial stack effect, no instruction-pointer movement, nothing to
/// silently resume.
pub proof fn lemma_error_is_fail_stop(s: StateV)
    ensures
        spec_step(s).1 matches Err(e) ==> spec_step(s).0 == (StateV { halted: true, ..s })
            && e.ip == s.ip as usize,
{
}

} // verus!
