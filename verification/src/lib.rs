//! An instruction-level model of a 6502-family processor.
//!
//! The crate is built in layers:
//!
//! - [`status`]: the status register and its flags;
//! - [`memory`]: the 64 KB memory space with its mirrored windows;
//! - [`machine`]: the mathematical machine that every contract speaks about;
//! - [`semantics`]: what each instruction, and a whole step, does to that machine;
//! - [`table`]: the instruction table;
//! - [`cpu`]: the processor, its addressing-mode resolver and its stack;
//! - [`instructions`]: the handlers, one per mnemonic;
//! - [`disasm`] and [`trace`]: the disassembler, the trace formatter and the
//!   conformance verifier;
//! - [`engine`]: the dispatch loop;
//! - [`laws`]: what holds of every machine.
pub mod cpu;
pub mod disasm;
pub mod engine;
pub mod instructions;
pub mod laws;
pub mod machine;
pub mod memory;
pub mod semantics;
pub mod status;
pub mod table;
pub mod trace;

pub use crate::cpu::{Registers, StackBoundary, CPU};
pub use crate::engine::{
    Breakpoint, Conformance, RunReport, StepError, StopCondition, StopReason, Unconditional,
};
pub use crate::machine::{Operand, RunState};
pub use crate::memory::{resolve, LoadError, MemMap, Memory, MEMORY_SIZE};
pub use crate::status::{
    assign_flag, set_zero_negative, test_flag, BREAK, CARRY, DECIMAL, INTERRUPT, NEGATIVE,
    OVERFLOW, UNUSED, ZERO,
};
pub use crate::table::{decode, AddrMode, Entry, Mnemonic};
pub use crate::trace::{
    compare_line, format_record, truncate_line, verify_trace, TraceMismatch, TraceRecord,
    TRACE_COLUMNS,
};
