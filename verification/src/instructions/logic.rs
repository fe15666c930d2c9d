//! Bitwise operations on the accumulator, and the bit test.

use crate::cpu::{AddressingMode, CPU};
use crate::opcode::Operation;
use crate::state::CpuState;
use crate::status::{NEGATIVE, OVERFLOW, ZERO};
use vstd::prelude::*;

verus! {

impl CpuState {
    /// AND: the accumulator takes its bitwise AND with the operand; zero and
    /// negative describe it.
    pub open spec fn and(self, mode: AddressingMode) -> CpuState {
        let value = self.a & self.operand(mode);
        CpuState { a: value, ..self }.with_zero_and_negative(value)
    }

    /// ORA: the accumulator takes its bitwise OR with the operand; zero and
    /// negative describe it.
    pub open spec fn ora(self, mode: AddressingMode) -> CpuState {
        let value = self.a | self.operand(mode);
        CpuState { a: value, ..self }.with_zero_and_negative(value)
    }

    /// EOR: the accumulator takes its bitwise exclusive OR with the operand;
    /// zero and negative describe it.
    pub open spec fn eor(self, mode: AddressingMode) -> CpuState {
        let value = self.a ^ self.operand(mode);
        CpuState { a: value, ..self }.with_zero_and_negative(value)
    }

    /// BIT: zero is set iff the accumulator and the operand have no bit in
    /// common; overflow and negative take bits 6 and 7 of the operand itself.
    /// Nothing is stored.
    pub open spec fn bit(self, mode: AddressingMode) -> CpuState {
        let value = self.operand(mode);
        self.with_flag(ZERO, self.a & value == 0).with_flag(
            OVERFLOW,
            crate::status::flag(value, OVERFLOW),
        ).with_flag(NEGATIVE, crate::status::flag(value, NEGATIVE))
    }
}

impl CPU {
    /// AND: combines the operand into the accumulator by bitwise AND.
    pub fn and(&mut self, mode: &AddressingMode)
        requires
            *mode != AddressingMode::NoneAddressing,
        ensures
            final(self)@ == old(self)@.and(*mode),
    {
        let addr = self.get_operand_address(mode);
        let value = self.mem_read(addr);

        self.register_a &= value;
        self.update_zero_and_negative_flags(self.register_a);
    }

    /// ORA: combines the operand into the accumulator by bitwise OR.
    pub fn ora(&mut self, mode: &AddressingMode)
        requires
            *mode != AddressingMode::NoneAddressing,
        ensures
            final(self)@ == old(self)@.ora(*mode),
    {
        let addr = self.get_operand_address(mode);
        let value = self.mem_read(addr);

        self.register_a |= value;
        self.update_zero_and_negative_flags(self.register_a);
    }

    /// EOR: combines the operand into the accumulator by bitwise exclusive OR.
    pub fn eor(&mut self, mode: &AddressingMode)
        requires
            *mode != AddressingMode::NoneAddressing,
        ensures
            final(self)@ == old(self)@.eor(*mode),
    {
        let addr = self.get_operand_address(mode);
        let value = self.mem_read(addr);

        self.register_a ^= value;
        self.update_zero_and_negative_flags(self.register_a);
    }

    /// BIT: tests the operand against the accumulator.
    pub fn bit(&mut self, mode: &AddressingMode)
        requires
            *mode != AddressingMode::NoneAddressing,
        ensures
            final(self)@ == old(self)@.bit(*mode),
    {
        let addr = self.get_operand_address(mode);
        let value = self.mem_read(addr);

        let and = self.register_a & value;

        self.set_zero_flag(and == 0);

        self.set_overflow_flag(value & OVERFLOW > 0);
        self.set_negative_flag(value & NEGATIVE > 0);
    }

    /// Runs the handler of `operation`, one of the operations of this module.
    pub(crate) fn execute_logic(&mut self, operation: Operation, mode: &AddressingMode)
        requires
            operation == Operation::And
                || operation == Operation::Ora
                || operation == Operation::Eor
                || operation == Operation::Bit,
            operation.has_memory_operand() ==> *mode != AddressingMode::NoneAddressing,
        ensures
            final(self)@ == old(self)@.execute(operation, *mode),
    {
        match operation {
            Operation::And => self.and(mode),
            Operation::Ora => self.ora(mode),
            Operation::Eor => self.eor(mode),
            Operation::Bit => self.bit(mode),
            _ => unreached(),
        }
    }
}

} // verus!
