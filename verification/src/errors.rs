//! Error taxonomy.
//!
//! Every engine error carries the instruction-pointer offset at which it
//! originated, so that a fault can be located in a disassembly without
//! further tooling.  No error is recovered from inside the engine: each one
//! is surfaced to the caller and leaves the machine halted.

use vstd::prelude::*;

use crate::opcode::Opcode;
use crate::value::TypeTag;

verus! {

/// What went wrong during one instruction.
#[derive(Debug, Clone, Copy, PartialEq, Eq, Structural)]
pub enum VmErrorKind {
    /// A two-letter mnemonic that names no opcode, with the offending letters.
    UnknownOpcode(u8, u8),
    /// An opcode the engine knows but does not execute.
    UnsupportedOpcode(Opcode),
    /// A binary operation over two distinct concrete subtypes, naming the
    /// operator and both subtypes; nothing is ever coerced.
    TypeMismatch(Opcode, TypeTag, TypeTag),
    /// A unary or guarded operation over a subtype it is not defined for,
    /// naming the operator and the subtype.
    TypeUnsupported(Opcode, TypeTag),
    /// A division or remainder with a zero divisor.
    DivisionByZero,
    /// An opcode's input arity was not satisfiable from the operand stack.
    StackUnderflow,
    /// A local-slot index at or past the active frame's size.
    LocalOutOfBounds,
    /// A transfer target hash of any length other than 32 bytes.
    InvalidHashLength,
    /// A call or jump target hash that the function registry does not hold;
    /// the transfer fails closed, the instruction pointer does not move.
    UnknownFunctionHash,
    /// A return with no matching call.
    ReturnWithoutMatchingCall,
    /// The bytecode ended where the engine required another value.
    UnexpectedEndOfBytecode,
    /// Bytes at the instruction pointer that decode as no value the engine
    /// accepts.
    ValueParseError,
    /// A bare data literal where an opcode marker was required.
    ExpectedOpcode,
}

/// One engine error: the kind, tagged with the instruction-pointer offset at
/// which the failing instruction began.
#[derive(Debug, Clone, Copy, PartialEq, Eq, Structural)]
pub struct VmError {
    /// Byte offset of the instruction that failed.
    pub ip: usize,
    /// What went wrong there.
    pub kind: VmErrorKind,
}

/// What went wrong while building, loading or verifying a capsule.
#[derive(Debug, Clone, Copy, PartialEq, Eq, Structural)]
pub enum CapsuleError {
    /// The container held no section for the engine's bytecode.
    MissingSection,
    /// The bytecode section's field could not be read back.
    MalformedField,
    /// The container's header could not be read.
    MalformedHeader,
    /// Bytecode handed to the builder that does not parse as a sequence of
    /// wire values, with the byte offset at which parsing stopped.
    MalformedBytecode(usize),
    /// The container could not be serialized.
    BuildFailed,
    /// A signed capsule whose signature does not verify.
    SignatureInvalid,
    /// An unsigned capsule whose integrity hash does not match its bytes.
    IntegrityFailed,
}

} // verus!
