//! Standalone bytecode parser.
//!
//! Reads a whole bytecode stream into a flat instruction list, for
//! disassembly and linting.  The engine itself decodes inline, one value per
//! step; this parser follows exactly the same wire grammar.

use vstd::prelude::*;

use crate::errors::{VmError, VmErrorKind};
use crate::opcode::{spec_opcode_of_code, Opcode};
use crate::value::{Value, ValueV};
use crate::wire::{lemma_parse_progress, parse_value, spec_parse, Token, TokenV};

verus! {

broadcast use vstd::std_specs::vec::axiom_spec_len;

/// One decoded instruction: an executable opcode or a data value.
#[derive(Debug)]
pub enum Instruction {
    /// Executable opcode.
    Op(Opcode),
    /// Data value, consumed by the operation that requested it.
    Value(Value),
}

/// Mathematical model of an [`Instruction`].
pub enum InstructionV {
    /// Model of [`Instruction::Op`].
    Op(Opcode),
    /// Model of [`Instruction::Value`].
    Value(ValueV),
}

impl View for Instruction {
    type V = InstructionV;

    open spec fn view(&self) -> InstructionV {
        match self {
            Instruction::Op(op) => InstructionV::Op(*op),
            Instruction::Value(v) => InstructionV::Value(v@),
        }
    }
}

/// The models of a sequence of instructions.
pub open spec fn iviews(s: Seq<Instruction>) -> Seq<InstructionV> {
    s.map_values(|i: Instruction| i@)
}

/// The whole stream from `pos` on, decoded: opcode markers become opcodes,
/// data literals become values; bytes that decode as no value, and unknown
/// mnemonics, are errors naming the offset at which they stand.
pub open spec fn spec_program(data: Seq<u8>, pos: int) -> Result<
    Seq<InstructionV>,
    (int, VmErrorKind),
>
    decreases data.len() - pos,
    when 0 <= pos
    via spec_program_decreases
{
    if pos >= data.len() {
        Ok(Seq::empty())
    } else {
        match spec_parse(data, pos) {
            None => Err((pos, VmErrorKind::ValueParseError)),
            Some((TokenV::Op(a, b), p2)) => match spec_opcode_of_code((a * 256 + b) as u16) {
                None => Err((pos, VmErrorKind::UnknownOpcode(a, b))),
                Some(op) => match spec_program(data, p2) {
                    Ok(rest) => Ok(seq![InstructionV::Op(op)] + rest),
                    Err(e) => Err(e),
                },
            },
            Some((TokenV::Lit(v), p2)) => match spec_program(data, p2) {
                Ok(rest) => Ok(seq![InstructionV::Value(v)] + rest),
                Err(e) => Err(e),
            },
        }
    }
}

#[via_fn]
proof fn spec_program_decreases(data: Seq<u8>, pos: int) {
    lemma_parse_progress(data, pos);
}

/// Mathematical model of a [`BytecodeParser`]: the stream and the cursor.
pub struct ParserV {
    /// The raw bytecode.
    pub data: Seq<u8>,
    /// The cursor: how far parsing has come.
    pub pointer: int,
}

/// Bytecode parser with a stateful cursor.
#[derive(Debug)]
pub struct BytecodeParser {
    data: Vec<u8>,
    pointer: usize,
}

impl View for BytecodeParser {
    type V = ParserV;

    closed spec fn view(&self) -> ParserV {
        ParserV { data: self.data@, pointer: self.pointer as int }
    }
}

impl BytecodeParser {
    /// Well-formedness: the cursor never stands past the end of the stream.
    /// The constructor establishes it and every method keeps it.
    pub open spec fn wf(&self) -> bool {
        self@.pointer <= self@.data.len()
    }

    /// A parser over raw bytecode, with the cursor at the start.
    pub fn new(data: Vec<u8>) -> (r: BytecodeParser)
        ensures
            r@ == (ParserV { data: data@, pointer: 0 }),
            r.wf(),
    {
        BytecodeParser { data, pointer: 0 }
    }

    /// Decode the whole stream into a flat instruction list, leaving the
    /// cursor where parsing stopped: at the end on success, at the
    /// offending value on an error.
    pub fn parse_program(&mut self) -> (r: Result<Vec<Instruction>, VmError>)
        requires
            old(self).wf(),
        ensures
            match r {
                Ok(v) => spec_program(old(self)@.data, old(self)@.pointer) == Ok::<
                    Seq<InstructionV>,
                    (int, VmErrorKind),
                >(iviews(v@)) && final(self)@.pointer == final(self)@.data.len(),
                Err(e) => spec_program(old(self)@.data, old(self)@.pointer) == Err::<
                    Seq<InstructionV>,
                    (int, VmErrorKind),
                >((e.ip as int, e.kind)),
            },
            final(self)@.data == old(self)@.data,
            final(self).wf(),
    {
        let mut out: Vec<Instruction> = Vec::new();
        while self.pointer < self.data.len()
            invariant
                self@.data == old(self)@.data,
                self.wf(),
                ({
                    let whole = spec_program(old(self)@.data, old(self)@.pointer);
                    match spec_program(self@.data, self@.pointer) {
                        Ok(rest) => whole == Ok::<Seq<InstructionV>, (int, VmErrorKind)>(
                            iviews(out@) + rest,
                        ),
                        Err(e) => whole == Err::<Seq<InstructionV>, (int, VmErrorKind)>(e),
                    }
                }),
            decreases self.data.len() - self.pointer,
        {
            let ghost pre = self@;
            let ghost out0 = out@;
            match parse_value(&self.data, self.pointer) {
                None => {
                    return Err(VmError { ip: self.pointer, kind: VmErrorKind::ValueParseError });
                },
                Some((Token::Op(a, b), p2)) => {
                    let code = crate::opcode::pack(a, b);
                    match Opcode::from_u16(code) {
                        None => {
                            return Err(VmError {
                                ip: self.pointer,
                                kind: VmErrorKind::UnknownOpcode(a, b),
                            });
                        },
                        Some(op) => {
                            out.push(Instruction::Op(op));
                            self.pointer = p2;
                            proof {
                                assert(iviews(out@) =~= iviews(out0).push(InstructionV::Op(op)));
                                match spec_program(self@.data, self@.pointer) {
                                    Ok(rest) => {
                                        assert(iviews(out@) + rest =~= iviews(out0) + (seq![
                                            InstructionV::Op(op),
                                        ] + rest));
                                    },
                                    Err(_) => {},
                                }
                            }
                        },
                    }
                },
                Some((Token::Lit(v), p2)) => {
                    let ghost gv = v@;
                    out.push(Instruction::Value(v));
                    self.pointer = p2;
                    proof {
                        assert(iviews(out@) =~= iviews(out0).push(InstructionV::Value(gv)));
                        match spec_program(self@.data, self@.pointer) {
                            Ok(rest) => {
                                assert(iviews(out@) + rest =~= iviews(out0) + (seq![
                                    InstructionV::Value(gv),
                                ] + rest));
                            },
                            Err(_) => {},
                        }
                    }
                },
            }
        }
        proof {
            assert(iviews(out@) + Seq::<InstructionV>::empty() =~= iviews(out@));
        }
        Ok(out)
    }

    /// The cursor: how far parsing has come.
    pub fn position(&self) -> (r: usize)
        ensures
            r == self@.pointer,
    {
        self.pointer
    }

    /// Whether the whole stream has been consumed.
    pub fn is_complete(&self) -> (r: bool)
        ensures
            r == (self@.pointer >= self@.data.len()),
    {
        self.pointer >= self.data.len()
    }
}

} // verus!
