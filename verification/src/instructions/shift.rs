//! Shifts and rotates.
//!
//! Each of the four works on a byte of memory, or on the accumulator where
//! the instruction has no operand (`AddressingMode::NoneAddressing`). The
//! specifications state the results over the integers: doubling and halving,
//! with the carry going in at one end and the bit that falls off the other
//! end becoming the new carry.

use crate::bits::{lemma_byte_bits, wrap8};
use crate::cpu::{AddressingMode, CPU};
use crate::opcode::Operation;
use crate::state::CpuState;
use crate::status::CARRY;
use vstd::prelude::*;

verus! {

impl CpuState {
    /// The byte that a shift or rotate under `mode` works on: the
    /// accumulator where the instruction has no operand, else the operand.
    pub open spec fn shift_operand(self, mode: AddressingMode) -> u8 {
        if mode == AddressingMode::NoneAddressing {
            self.a
        } else {
            self.operand(mode)
        }
    }

    /// The state with `value` stored where a shift or rotate under `mode`
    /// took its byte from.
    pub open spec fn with_shift_result(self, mode: AddressingMode, value: u8) -> CpuState {
        if mode == AddressingMode::NoneAddressing {
            CpuState { a: value, ..self }
        } else {
            self.write(self.operand_address(mode), value)
        }
    }

    /// The state after a shift or rotate under `mode` that made `result`
    /// and moved `carry_out` into the carry flag; zero and negative describe
    /// `result`.
    pub open spec fn shifted(self, mode: AddressingMode, carry_out: bool, result: u8) -> CpuState {
        self.with_flag(CARRY, carry_out).with_shift_result(mode, result).with_zero_and_negative(
            result,
        )
    }

    /// What ASL writes: twice the byte, modulo 256.
    pub open spec fn asl_result(self, mode: AddressingMode) -> u8 {
        wrap8(2 * self.shift_operand(mode))
    }

    /// ASL: the byte is doubled modulo 256; carry takes its bit 7.
    pub open spec fn asl(self, mode: AddressingMode) -> CpuState {
        self.shifted(mode, self.shift_operand(mode) >= 0x80, self.asl_result(mode))
    }

    /// What LSR writes: half the byte, rounded down.
    pub open spec fn lsr_result(self, mode: AddressingMode) -> u8 {
        self.shift_operand(mode) / 2
    }

    /// LSR: the byte is halved; carry takes its bit 0.
    pub open spec fn lsr(self, mode: AddressingMode) -> CpuState {
        self.shifted(mode, self.shift_operand(mode) % 2 == 1, self.lsr_result(mode))
    }

    /// What ROL writes: twice the byte plus the carry, modulo 256.
    pub open spec fn rol_result(self, mode: AddressingMode) -> u8 {
        wrap8(2 * self.shift_operand(mode) + self.carry_in())
    }

    /// ROL: the byte is doubled modulo 256 and the old carry comes in as bit
    /// 0; carry takes the old bit 7.
    pub open spec fn rol(self, mode: AddressingMode) -> CpuState {
        self.shifted(mode, self.shift_operand(mode) >= 0x80, self.rol_result(mode))
    }

    /// What ROR writes: half the byte, plus 128 if carry is set.
    pub open spec fn ror_result(self, mode: AddressingMode) -> u8 {
        (self.shift_operand(mode) / 2 + 128 * self.carry_in()) as u8
    }

    /// ROR: the byte is halved and the old carry comes in as bit 7; carry
    /// takes the old bit 0.
    pub open spec fn ror(self, mode: AddressingMode) -> CpuState {
        self.shifted(mode, self.shift_operand(mode) % 2 == 1, self.ror_result(mode))
    }
}

impl CPU {
    /// The byte that a shift or rotate under `mode` works on.
    pub fn shift_operand(&self, mode: &AddressingMode) -> (value: u8)
        ensures
            value == self@.shift_operand(*mode),
    {
        match mode {
            AddressingMode::NoneAddressing => self.register_a,
            _ => {
                let addr = self.get_operand_address(mode);
                self.mem_read(addr)
            },
        }
    }

    /// Stores `value` where a shift or rotate under `mode` took its byte
    /// from.
    pub fn store_shift_result(&mut self, mode: &AddressingMode, value: u8)
        ensures
            final(self)@ == old(self)@.with_shift_result(*mode, value),
    {
        match mode {
            AddressingMode::NoneAddressing => {
                self.register_a = value;
            },
            _ => {
                let addr = self.get_operand_address(mode);
                self.mem_write(addr, value);
            },
        }
    }

    /// LSR: shifts the byte right by one bit. Returns the value written.
    pub fn lsr(&mut self, mode: &AddressingMode) -> (value: u8)
        ensures
            final(self)@ == old(self)@.lsr(*mode),
            value == old(self)@.lsr_result(*mode),
    {
        let mut value = self.shift_operand(mode);
        proof {
            lemma_byte_bits(value);
        }

        self.set_carry_flag(value & 1 == 1);

        value >>= 1;
        self.store_shift_result(mode, value);
        self.update_zero_and_negative_flags(value);
        value
    }

    /// ROL: rotates the byte left through carry. Returns the value written.
    pub fn rol(&mut self, mode: &AddressingMode) -> (value: u8)
        ensures
            final(self)@ == old(self)@.rol(*mode),
            value == old(self)@.rol_result(*mode),
    {
        let mut value = self.shift_operand(mode);
        proof {
            lemma_byte_bits(value);
        }

        let old_carry = self.get_carry_flag();

        self.set_carry_flag(value >> 7 == 1);

        value <<= 1;
        if old_carry {
            value |= 1;
        }
        self.store_shift_result(mode, value);
        self.update_zero_and_negative_flags(value);
        value
    }

    /// ROR: rotates the byte right through carry. Returns the value written.
    pub fn ror(&mut self, mode: &AddressingMode) -> (value: u8)
        ensures
            final(self)@ == old(self)@.ror(*mode),
            value == old(self)@.ror_result(*mode),
    {
        let mut value = self.shift_operand(mode);
        proof {
            lemma_byte_bits(value);
        }

        let old_carry = self.get_carry_flag();

        self.set_carry_flag(value & 1 == 1);

        value >>= 1;
        if old_carry {
            value |= 0x80;
        }
        self.store_shift_result(mode, value);
        self.update_zero_and_negative_flags(value);
        value
    }

    /// ASL: shifts the byte left by one bit. Returns the value written.
    pub fn asl(&mut self, mode: &AddressingMode) -> (value: u8)
        ensures
            final(self)@ == old(self)@.asl(*mode),
            value == old(self)@.asl_result(*mode),
    {
        let mut value = self.shift_operand(mode);
        proof {
            lemma_byte_bits(value);
        }

        self.set_carry_flag(value >> 7 == 1);

        value <<= 1;
        self.store_shift_result(mode, value);
        self.update_zero_and_negative_flags(value);
        value
    }

    /// Runs the handler of `operation`, one of the operations of this module.
    pub(crate) fn execute_shift(&mut self, operation: Operation, mode: &AddressingMode)
        requires
            operation == Operation::Asl
                || operation == Operation::Lsr
                || operation == Operation::Rol
                || operation == Operation::Ror,
        ensures
            final(self)@ == old(self)@.execute(operation, *mode),
    {
        match operation {
            Operation::Asl => {
                self.asl(mode);
            },
            Operation::Lsr => {
                self.lsr(mode);
            },
            Operation::Rol => {
                self.rol(mode);
            },
            Operation::Ror => {
                self.ror(mode);
            },
            _ => unreached(),
        }
    }
}

} // verus!
