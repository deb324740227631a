//! Capability-bounded, deterministic bytecode virtual machine.
//!
//! The library executes signed, distributable program fragments ("capsules")
//! identically on any host: a typed stack machine with no implicit numeric
//! coercion, content-addressed control flow keyed by 32-byte hashes instead of
//! fixed jump offsets, and a capsule container with a build / load / verify
//! lifecycle.  Drawing opcodes append to an owned call log that an embedder
//! may rasterize; the capsule container's binary layout and cryptography are
//! delegated to the vsf crate.

use vstd::prelude::*;

pub mod opcode;
pub mod value;
pub mod errors;
pub mod numeric;
pub mod wire;
pub mod canvas;
pub mod vm;
pub mod bytecode;
pub mod capsule;

verus! {

/// Library version.
pub const VERSION: &'static str = "0.0.0";

} // verus!
