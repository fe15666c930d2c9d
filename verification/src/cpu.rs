//! The processor: registers, memory, stack and flags.

use crate::bits::{high_byte_of, lemma_byte_bits, low_byte_of, make_word};
use crate::state::{
    CpuState, MAX_PROGRAM_LEN, PROGRAM_START, RESET_VECTOR, STACK, STACK_RESET,
};
use crate::status::{
    lemma_flag_by_shift, BREAK, CARRY, DECIMAL_MODE, INTERRUPT_DISABLE, NEGATIVE, OVERFLOW, ZERO,
};
use vstd::prelude::*;

verus! {

/// How an instruction finds its operand.
#[allow(non_camel_case_types)]
#[derive(Debug, Clone, Copy, PartialEq, Eq, Structural)]
pub enum AddressingMode {
    /// The operand is the byte after the opcode.
    Immediate,
    /// The byte after the opcode is an address in page zero.
    ZeroPage,
    /// As `ZeroPage`, with X added modulo 256.
    ZeroPage_X,
    /// As `ZeroPage`, with Y added modulo 256.
    ZeroPage_Y,
    /// The word after the opcode is the address.
    Absolute,
    /// As `Absolute`, with X added modulo 65536.
    Absolute_X,
    /// As `Absolute`, with Y added modulo 65536.
    Absolute_Y,
    /// The byte after the opcode plus X, modulo 256, points at the address
    /// in page zero.
    Indirect_X,
    /// The byte after the opcode points at a word in page zero; the address
    /// is that word plus Y, modulo 65536.
    Indirect_Y,
    /// The instruction has no operand in memory, or finds it by itself.
    NoneAddressing,
}

/// The processor with its 64 KiB of flat memory.
pub struct CPU {
    /// The accumulator.
    pub register_a: u8,
    /// The index register X.
    pub register_x: u8,
    /// The index register Y.
    pub register_y: u8,
    /// The packed flags; see the module `status` for the bits.
    pub status: u8,
    /// The address of the next byte to fetch.
    pub program_counter: u16,
    /// The offset of the next free byte in the stack page.
    pub stack_pointer: u8,
    /// All of memory, indexed by address.
    pub memory: [u8; 0x10000],
}

impl View for CPU {
    type V = CpuState;

    open spec fn view(&self) -> CpuState {
        CpuState {
            a: self.register_a,
            x: self.register_x,
            y: self.register_y,
            status: self.status,
            pc: self.program_counter,
            sp: self.stack_pointer,
            mem: self.memory@,
        }
    }
}

impl Default for CPU {
    /// A processor in its power-on state.
    fn default() -> (cpu: Self)
        ensures
            cpu@ == CpuState::power_on(),
    {
        Self::new()
    }
}

impl CPU {
    /// A processor in its power-on state.
    pub fn new() -> (cpu: Self)
        ensures
            cpu@ == CpuState::power_on(),
    {
        CPU {
            register_a: 0,
            register_x: 0,
            register_y: 0,
            status: 0,
            program_counter: 0,
            stack_pointer: STACK_RESET,
            memory: [0u8; 0x10000],
        }
    }

    /// Every processor holds all 65536 bytes of memory.
    pub proof fn lemma_wf(&self)
        ensures
            self@.wf(),
    {
    }

    /// Whether the carry flag is set.
    pub fn get_carry_flag(&self) -> (set: bool)
        ensures
            set == self@.flag(CARRY),
    {
        proof {
            lemma_flag_by_shift(self.status);
        }
        self.status & 1 == 1
    }

    /// Sets the carry flag to `value`; no other bit of the status byte
    /// changes.
    pub fn set_carry_flag(&mut self, value: bool)
        ensures
            final(self)@ == old(self)@.with_flag(CARRY, value),
    {
        if value {
            self.status |= CARRY;
        } else {
            self.status &= !CARRY;
        }
    }

    /// Whether the zero flag is set.
    pub fn get_zero_flag(&self) -> (set: bool)
        ensures
            set == self@.flag(ZERO),
    {
        proof {
            lemma_flag_by_shift(self.status);
        }
        (self.status >> 1) & 1 == 1
    }

    /// Sets the zero flag to `value`; no other bit of the status byte
    /// changes.
    pub fn set_zero_flag(&mut self, value: bool)
        ensures
            final(self)@ == old(self)@.with_flag(ZERO, value),
    {
        if value {
            self.status |= ZERO;
        } else {
            self.status &= !ZERO;
        }
    }

    /// Whether the interrupt-disable flag is set.
    pub fn get_interrupt_disable(&self) -> (set: bool)
        ensures
            set == self@.flag(INTERRUPT_DISABLE),
    {
        proof {
            lemma_flag_by_shift(self.status);
        }
        (self.status >> 2) & 1 == 1
    }

    /// Sets the interrupt-disable flag to `value`; no other bit of the status
    /// byte changes.
    pub fn set_interrupt_disable(&mut self, value: bool)
        ensures
            final(self)@ == old(self)@.with_flag(INTERRUPT_DISABLE, value),
    {
        if value {
            self.status |= INTERRUPT_DISABLE;
        } else {
            self.status &= !INTERRUPT_DISABLE;
        }
    }

    /// Whether the decimal-mode flag is set.
    pub fn get_decimal_mode_flag(&self) -> (set: bool)
        ensures
            set == self@.flag(DECIMAL_MODE),
    {
        proof {
            lemma_flag_by_shift(self.status);
        }
        (self.status >> 3) & 1 == 1
    }

    /// Sets the decimal-mode flag to `value`; no other bit of the status
    /// byte changes.
    pub fn set_decimal_mode_flag(&mut self, value: bool)
        ensures
            final(self)@ == old(self)@.with_flag(DECIMAL_MODE, value),
    {
        if value {
            self.status |= DECIMAL_MODE;
        } else {
            self.status &= !DECIMAL_MODE;
        }
    }

    /// Whether the break flag is set.
    pub fn get_break_command(&self) -> (set: bool)
        ensures
            set == self@.flag(BREAK),
    {
        proof {
            lemma_flag_by_shift(self.status);
        }
        (self.status >> 4) & 1 == 1
    }

    /// Sets the break flag to `value`; no other bit of the status byte
    /// changes.
    pub fn set_break_command(&mut self, value: bool)
        ensures
            final(self)@ == old(self)@.with_flag(BREAK, value),
    {
        if value {
            self.status |= BREAK;
        } else {
            self.status &= !BREAK;
        }
    }

    /// Whether the overflow flag is set.
    pub fn get_overflow_flag(&self) -> (set: bool)
        ensures
            set == self@.flag(OVERFLOW),
    {
        proof {
            lemma_flag_by_shift(self.status);
        }
        (self.status >> 6) & 1 == 1
    }

    /// Sets the overflow flag to `value`; no other bit of the status byte
    /// changes.
    pub fn set_overflow_flag(&mut self, value: bool)
        ensures
            final(self)@ == old(self)@.with_flag(OVERFLOW, value),
    {
        if value {
            self.status |= OVERFLOW;
        } else {
            self.status &= !OVERFLOW;
        }
    }

    /// Whether the negative flag is set.
    pub fn get_negative_flag(&self) -> (set: bool)
        ensures
            set == self@.flag(NEGATIVE),
    {
        proof {
            lemma_flag_by_shift(self.status);
        }
        (self.status >> 7) & 1 == 1
    }

    /// Sets the negative flag to `value`; no other bit of the status byte
    /// changes.
    pub fn set_negative_flag(&mut self, value: bool)
        ensures
            final(self)@ == old(self)@.with_flag(NEGATIVE, value),
    {
        if value {
            self.status |= NEGATIVE;
        } else {
            self.status &= !NEGATIVE;
        }
    }

    /// The little-endian word at `pos`.
    pub fn mem_read_u16(&self, pos: u16) -> (data: u16)
        ensures
            data == self@.read_u16(pos),
    {
        let lo = self.mem_read(pos);
        let hi = self.mem_read(pos.wrapping_add(1));
        make_word(lo, hi)
    }

    /// Stores `data` little-endian at `pos`.
    pub fn mem_write_u16(&mut self, pos: u16, data: u16)
        ensures
            final(self)@ == old(self)@.write_u16(pos, data),
    {
        let hi = high_byte_of(data);
        let lo = low_byte_of(data);
        self.mem_write(pos, lo);
        self.mem_write(pos.wrapping_add(1), hi);
    }

    /// The byte at `addr`.
    pub fn mem_read(&self, addr: u16) -> (data: u8)
        ensures
            data == self@.read(addr),
    {
        self.memory[addr as usize]
    }

    /// Stores `data` at `addr`.
    pub fn mem_write(&mut self, addr: u16, data: u8)
        ensures
            final(self)@ == old(self)@.write(addr, data),
    {
        self.memory[addr as usize] = data;
    }

    /// Pushes one byte on the stack.
    pub fn stack_push(&mut self, data: u8)
        ensures
            final(self)@ == old(self)@.push(data),
    {
        self.mem_write(STACK + self.stack_pointer as u16, data);
        self.stack_pointer = self.stack_pointer.wrapping_sub(1);
    }

    /// Pushes a word on the stack, high byte first.
    pub fn stack_push_u16(&mut self, data: u16)
        ensures
            final(self)@ == old(self)@.push_u16(data),
    {
        let hi = high_byte_of(data);
        let lo = low_byte_of(data);
        self.stack_push(hi);
        self.stack_push(lo);
    }

    /// Pops one byte off the stack.
    pub fn stack_pop(&mut self) -> (data: u8)
        ensures
            data == old(self)@.popped(),
            final(self)@ == old(self)@.pop(),
    {
        self.stack_pointer = self.stack_pointer.wrapping_add(1);
        self.mem_read(STACK + self.stack_pointer as u16)
    }

    /// Pops a word off the stack, low byte first.
    pub fn stack_pop_u16(&mut self) -> (data: u16)
        ensures
            data == old(self)@.popped_u16(),
            final(self)@ == old(self)@.pop_u16(),
    {
        let lo = self.stack_pop();
        let hi = self.stack_pop();
        make_word(lo, hi)
    }

    /// Clears the registers and flags and restarts at the reset vector.
    pub fn reset(&mut self)
        ensures
            final(self)@ == old(self)@.reset(),
    {
        self.register_a = 0;
        self.register_x = 0;
        self.register_y = 0;
        self.stack_pointer = STACK_RESET;
        self.status = 0;
        self.program_counter = self.mem_read_u16(RESET_VECTOR);
    }

    /// Makes the zero and negative flags describe `result`.
    pub fn update_zero_and_negative_flags(&mut self, result: u8)
        ensures
            final(self)@ == old(self)@.with_zero_and_negative(result),
    {
        proof {
            lemma_byte_bits(result);
        }
        self.set_zero_flag(result == 0);
        self.set_negative_flag(result & 0x80 != 0);
    }

    /// Copies `program` into memory at `PROGRAM_START` and points the reset
    /// vector at it.
    pub fn load(&mut self, program: Vec<u8>)
        requires
            program.len() <= MAX_PROGRAM_LEN,
        ensures
            final(self)@ == old(self)@.load(program@),
    {
        let mut i: usize = 0;
        while i < program.len()
            invariant
                i <= program.len() <= MAX_PROGRAM_LEN,
                self@ == old(self)@.with_program(program@.take(i as int)),
            decreases program.len() - i,
        {
            self.memory[PROGRAM_START as usize + i] = program[i];
            i += 1;
        }
        self.mem_write_u16(RESET_VECTOR, PROGRAM_START);
    }
}

} // verus!
