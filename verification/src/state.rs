//! The machine state as a mathematical value.
//!
//! [`CpuState`] is what every contract of the interpreter speaks of: the
//! registers, the status byte and the 65536 bytes of memory as a sequence.
//! The functions here define reading and writing memory, the stack and the
//! flags over that value.

use crate::bits::{high_byte, low_byte, word};
use crate::status::{NEGATIVE, ZERO};
use vstd::prelude::*;

verus! {

/// The number of bytes the machine addresses.
pub const MEMORY_SIZE: usize = 0x10000;

/// The page that holds the stack.
pub const STACK: u16 = 0x0100;

/// The stack pointer after power-on and after reset.
pub const STACK_RESET: u8 = 0xFD;

/// Where a loaded program starts.
pub const PROGRAM_START: u16 = 0x0600;

/// Where the two bytes of the reset vector lie.
pub const RESET_VECTOR: u16 = 0xFFFC;

/// The longest program that fits between `PROGRAM_START` and the end of
/// memory.
pub const MAX_PROGRAM_LEN: usize = 0xFA00;

/// The registers and memory of the machine.
#[verifier::ext_equal]
pub struct CpuState {
    /// The accumulator.
    pub a: u8,
    /// The index register X.
    pub x: u8,
    /// The index register Y.
    pub y: u8,
    /// The packed flags.
    pub status: u8,
    /// The program counter.
    pub pc: u16,
    /// The stack pointer: an offset into the stack page.
    pub sp: u8,
    /// Memory, indexed by address.
    pub mem: Seq<u8>,
}

impl CpuState {
    /// Memory covers the whole 16-bit address range.
    pub open spec fn wf(self) -> bool {
        self.mem.len() == MEMORY_SIZE
    }

    /// The state after power-on: everything zero but the stack pointer.
    pub open spec fn power_on() -> CpuState {
        CpuState {
            a: 0,
            x: 0,
            y: 0,
            status: 0,
            pc: 0,
            sp: STACK_RESET,
            mem: Seq::new(MEMORY_SIZE as nat, |i: int| 0u8),
        }
    }

    /// The byte at `addr`.
    pub open spec fn read(self, addr: u16) -> u8 {
        self.mem[addr as int]
    }

    /// The little-endian word at `addr`; the high byte is taken from the next
    /// address modulo 65536.
    pub open spec fn read_u16(self, addr: u16) -> u16 {
        word(self.read(addr), self.read(addr.wrapping_add(1)))
    }

    /// The state with `data` stored at `addr`.
    pub open spec fn write(self, addr: u16, data: u8) -> CpuState {
        CpuState { mem: self.mem.update(addr as int, data), ..self }
    }

    /// The state with `data` stored little-endian at `addr` and the address
    /// after it modulo 65536.
    pub open spec fn write_u16(self, addr: u16, data: u16) -> CpuState {
        self.write(addr, low_byte(data)).write(addr.wrapping_add(1), high_byte(data))
    }

    /// The address the stack pointer designates.
    pub open spec fn stack_address(self) -> u16 {
        (STACK + self.sp) as u16
    }

    /// The state after pushing one byte: it is stored where the stack pointer
    /// designates, and the stack pointer goes down by one modulo 256.
    pub open spec fn push(self, data: u8) -> CpuState {
        CpuState { sp: self.sp.wrapping_sub(1), ..self.write(self.stack_address(), data) }
    }

    /// The state after pushing the bytes of `data` one after the other.
    pub open spec fn push_all(self, data: Seq<u8>) -> CpuState
        decreases data.len(),
    {
        if data.len() == 0 {
            self
        } else {
            self.push_all(data.drop_last()).push(data.last())
        }
    }

    /// The state after pushing a word, high byte first.
    pub open spec fn push_u16(self, data: u16) -> CpuState {
        self.push(high_byte(data)).push(low_byte(data))
    }

    /// The state after popping one byte: the stack pointer goes up by one
    /// modulo 256.
    pub open spec fn pop(self) -> CpuState {
        CpuState { sp: self.sp.wrapping_add(1), ..self }
    }

    /// The byte that a pop yields: the one the stack pointer designates once
    /// it has gone up.
    pub open spec fn popped(self) -> u8 {
        self.pop().read(self.pop().stack_address())
    }

    /// The state after popping a word.
    pub open spec fn pop_u16(self) -> CpuState {
        self.pop().pop()
    }

    /// The word that popping two bytes yields, low byte first.
    pub open spec fn popped_u16(self) -> u16 {
        word(self.popped(), self.pop().popped())
    }

    /// Whether the flag selected by `mask` is set.
    pub open spec fn flag(self, mask: u8) -> bool {
        crate::status::flag(self.status, mask)
    }

    /// The state with the flag selected by `mask` set to `value`.
    pub open spec fn with_flag(self, mask: u8, value: bool) -> CpuState {
        CpuState { status: crate::status::with_flag(self.status, mask, value), ..self }
    }

    /// The state with zero and negative describing `result`: zero is set iff
    /// `result` is 0, negative iff its bit 7 is set.
    pub open spec fn with_zero_and_negative(self, result: u8) -> CpuState {
        self.with_flag(ZERO, result == 0).with_flag(NEGATIVE, result >= 0x80)
    }

    /// The state after a reset: registers and flags cleared, the stack pointer
    /// at its initial value, the program counter taken from the reset vector.
    pub open spec fn reset(self) -> CpuState {
        CpuState {
            a: 0,
            x: 0,
            y: 0,
            status: 0,
            pc: self.read_u16(RESET_VECTOR),
            sp: STACK_RESET,
            mem: self.mem,
        }
    }

    /// Memory with `program` copied to `PROGRAM_START` and following.
    pub open spec fn with_program(self, program: Seq<u8>) -> CpuState {
        CpuState {
            mem: Seq::new(
                MEMORY_SIZE as nat,
                |i: int|
                    if PROGRAM_START <= i < PROGRAM_START + program.len() {
                        program[i - PROGRAM_START]
                    } else {
                        self.mem[i]
                    },
            ),
            ..self
        }
    }

    /// The state after loading `program`: the bytes are copied, then the reset
    /// vector is made to point at them.
    pub open spec fn load(self, program: Seq<u8>) -> CpuState {
        self.with_program(program).write_u16(RESET_VECTOR, PROGRAM_START)
    }
}

} // verus!
