//! A bytecode virtual machine for a 16-bit instruction set: a
//! fetch-decode-execute loop over word-addressable self-modifiable
//! memory, eight registers, an operand/return stack, and a line-buffered
//! input protocol that delivers one character per input instruction.
//!
//! The machine's mathematical value is the `model::Model`, and every
//! operation's contract says what it does to that model;
//! `model::step_spec` is the instruction-set semantics itself.  Loading,
//! display-only disassembly, the inspection snapshot and the debugger
//! bookkeeping live in their own modules around the engine in `exec`.

pub mod debug;
pub mod disasm;
pub mod error;
pub mod exec;
pub mod laws;
pub mod loader;
pub mod model;
pub mod opcode;
pub mod snapshot;
pub mod util;
