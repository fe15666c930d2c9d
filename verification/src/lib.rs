//! An interpreter for a 6502-class 8-bit CPU.
//!
//! The machine has three 8-bit registers, a packed status byte, a 16-bit
//! program counter, an 8-bit stack pointer into a fixed page, and 65536 bytes
//! of flat memory. Every function of the interpreter is specified over
//! [`state::CpuState`], the machine state as a mathematical value, and is
//! verified against that specification.
//!
//! - [`bits`] and [`status`]: arithmetic on bytes and words, and the flags.
//! - [`state`]: the machine state as a value, with memory, stack and flags.
//! - [`cpu`]: the processor itself.
//! - [`opcode`]: the instruction set as a table.
//! - [`addressing`]: how an instruction finds its operand.
//! - [`instructions`]: what each instruction does.
//! - [`execute`]: one instruction cycle, and runs of them.
//! - [`laws`]: what holds of the machine in every state.

pub mod addressing;
pub mod bits;
pub mod cpu;
pub mod execute;
pub mod instructions;
pub mod laws;
pub mod opcode;
pub mod state;
pub mod status;
