//! Addition and subtraction with carry, comparison, increment and
//! decrement.
//!
//! The specifications state the results over the integers: a sum and its
//! carry, a signed sum and whether it fits a byte. The handlers compute them
//! the way the hardware does, with one adder: subtraction adds the
//! complement of the operand, and overflow is read off the sign bits.

use crate::bits::{lemma_sign_bits, signed, wrap8};
use crate::cpu::{AddressingMode, CPU};
use crate::opcode::Operation;
use crate::state::CpuState;
use crate::status::{CARRY, OVERFLOW};
use vstd::prelude::*;

verus! {

impl CpuState {
    /// The carry flag as a number: 1 if set, else 0.
    pub open spec fn carry_in(self) -> int {
        if self.flag(CARRY) {
            1
        } else {
            0
        }
    }

    /// The accumulator plus `value` plus the carry. The accumulator takes the
    /// sum modulo 256; carry is set iff the sum exceeds 255; overflow is set
    /// iff the sum of the two bytes read as signed numbers, plus the carry,
    /// lies outside `-128..=127`; zero and negative describe the new
    /// accumulator.
    pub open spec fn add_to_register_a(self, value: u8) -> CpuState {
        let sum = self.a + value + self.carry_in();
        let signed_sum = signed(self.a) + signed(value) + self.carry_in();
        let result = wrap8(sum);
        CpuState { a: result, ..self }.with_flag(CARRY, sum > 0xFF).with_flag(
            OVERFLOW,
            !(-128 <= signed_sum <= 127),
        ).with_zero_and_negative(result)
    }

    /// ADC: adds the operand and the carry to the accumulator.
    pub open spec fn adc(self, mode: AddressingMode) -> CpuState {
        self.add_to_register_a(self.operand(mode))
    }

    /// SBC: subtracts the operand and the borrow from the accumulator, where
    /// the borrow is 1 iff carry is clear. The accumulator takes the
    /// difference modulo 256; carry is set iff the difference is not
    /// negative (no borrow out); overflow is set iff the signed difference
    /// lies outside `-128..=127`; zero and negative describe the new
    /// accumulator.
    pub open spec fn sbc(self, mode: AddressingMode) -> CpuState {
        let value = self.operand(mode);
        let borrow = 1 - self.carry_in();
        let difference = self.a - value - borrow;
        let signed_difference = signed(self.a) - signed(value) - borrow;
        let result = wrap8(difference);
        CpuState { a: result, ..self }.with_flag(CARRY, difference >= 0).with_flag(
            OVERFLOW,
            !(-128 <= signed_difference <= 127),
        ).with_zero_and_negative(result)
    }

    /// Compares `register` with the operand: zero and negative describe
    /// `register - operand` modulo 256, and carry is set iff
    /// `register >= operand`.
    pub open spec fn compare(self, mode: AddressingMode, register: u8) -> CpuState {
        let value = self.operand(mode);
        self.with_zero_and_negative(register.wrapping_sub(value)).with_flag(
            CARRY,
            register >= value,
        )
    }

    /// CMP: compares the accumulator with the operand.
    pub open spec fn cmp(self, mode: AddressingMode) -> CpuState {
        self.compare(mode, self.a)
    }

    /// CPX: compares X with the operand.
    pub open spec fn cpx(self, mode: AddressingMode) -> CpuState {
        self.compare(mode, self.x)
    }

    /// CPY: compares Y with the operand.
    pub open spec fn cpy(self, mode: AddressingMode) -> CpuState {
        self.compare(mode, self.y)
    }

    /// INC: the operand goes up by one modulo 256; zero and negative describe
    /// the new value.
    pub open spec fn inc(self, mode: AddressingMode) -> CpuState {
        let value = self.operand(mode).wrapping_add(1);
        self.write(self.operand_address(mode), value).with_zero_and_negative(value)
    }

    /// DEC: the operand goes down by one modulo 256; zero and negative
    /// describe the new value.
    pub open spec fn dec(self, mode: AddressingMode) -> CpuState {
        let value = self.operand(mode).wrapping_sub(1);
        self.write(self.operand_address(mode), value).with_zero_and_negative(value)
    }

    /// INX: X goes up by one modulo 256; zero and negative describe it.
    pub open spec fn inx(self) -> CpuState {
        let value = self.x.wrapping_add(1);
        CpuState { x: value, ..self }.with_zero_and_negative(value)
    }

    /// INY: Y goes up by one modulo 256; zero and negative describe it.
    pub open spec fn iny(self) -> CpuState {
        let value = self.y.wrapping_add(1);
        CpuState { y: value, ..self }.with_zero_and_negative(value)
    }

    /// DEX: X goes down by one modulo 256; zero and negative describe it.
    pub open spec fn dex(self) -> CpuState {
        let value = self.x.wrapping_sub(1);
        CpuState { x: value, ..self }.with_zero_and_negative(value)
    }

    /// DEY: Y goes down by one modulo 256; zero and negative describe it.
    pub open spec fn dey(self) -> CpuState {
        let value = self.y.wrapping_sub(1);
        CpuState { y: value, ..self }.with_zero_and_negative(value)
    }
}

/// The overflow of an addition, read off the sign bits of the operands and
/// of the result: where `result` is `a + value + carry` modulo 256, bit 7 of
/// `(value ^ result) & (result ^ a)` is set iff the signed sum does not fit a
/// byte.
pub proof fn lemma_overflow_by_sign_bits(a: u8, value: u8, carry: int)
    requires
        carry == 0 || carry == 1,
    ensures
        ({
            let result = wrap8(a + value + carry);
            ((value ^ result) & (result ^ a) & 0x80 != 0) == !(-128 <= signed(a) + signed(value)
                + carry <= 127)
        }),
{
    lemma_sign_bits(a, value, wrap8(a + value + carry));
}

/// Subtracting is adding the complement: SBC does what the adder does when
/// it is given `255 - operand` in place of the operand.
pub proof fn lemma_sbc_adds_complement(s: CpuState, mode: AddressingMode)
    ensures
        s.sbc(mode) == s.add_to_register_a((255 - s.operand(mode)) as u8),
{
    let value = s.operand(mode);
    let complement = (255 - value) as u8;
    let difference = s.a - value - (1 - s.carry_in());
    let sum = s.a + complement + s.carry_in();
    assert(wrap8(sum) == wrap8(difference)) by {
        if difference >= 0 {
            assert(difference % 256 == difference);
            assert(sum % 256 == difference);
        } else {
            assert(sum % 256 == sum);
            assert(difference % 256 == sum);
        }
    }
}

impl CPU {
    /// ADC: adds the operand and the carry to the accumulator.
    pub fn adc(&mut self, mode: &AddressingMode)
        requires
            *mode != AddressingMode::NoneAddressing,
        ensures
            final(self)@ == old(self)@.adc(*mode),
    {
        let addr = self.get_operand_address(mode);
        let value = self.mem_read(addr);

        self.add_to_register_a(value);
    }

    /// SBC: subtracts the operand and the borrow from the accumulator, by
    /// adding the complement of the operand.
    pub fn sbc(&mut self, mode: &AddressingMode)
        requires
            *mode != AddressingMode::NoneAddressing,
        ensures
            final(self)@ == old(self)@.sbc(*mode),
    {
        let addr = self.get_operand_address(mode);
        let value = self.mem_read(addr);

        let complement = 0u8.wrapping_sub(value).wrapping_sub(1);
        proof {
            lemma_sbc_adds_complement(self@, *mode);
        }
        self.add_to_register_a(complement);
    }

    /// CMP: compares the accumulator with the operand.
    pub fn cmp(&mut self, mode: &AddressingMode)
        requires
            *mode != AddressingMode::NoneAddressing,
        ensures
            final(self)@ == old(self)@.cmp(*mode),
    {
        self.compare(mode, self.register_a);
    }

    /// CPX: compares X with the operand.
    pub fn cpx(&mut self, mode: &AddressingMode)
        requires
            *mode != AddressingMode::NoneAddressing,
        ensures
            final(self)@ == old(self)@.cpx(*mode),
    {
        self.compare(mode, self.register_x);
    }

    /// CPY: compares Y with the operand.
    pub fn cpy(&mut self, mode: &AddressingMode)
        requires
            *mode != AddressingMode::NoneAddressing,
        ensures
            final(self)@ == old(self)@.cpy(*mode),
    {
        self.compare(mode, self.register_y);
    }

    /// DEC: decrements the operand in memory. Returns the value written.
    pub fn dec(&mut self, mode: &AddressingMode) -> (value: u8)
        requires
            *mode != AddressingMode::NoneAddressing,
        ensures
            final(self)@ == old(self)@.dec(*mode),
            value == old(self)@.operand(*mode).wrapping_sub(1),
    {
        let addr = self.get_operand_address(mode);
        let mut value = self.mem_read(addr);

        value = value.wrapping_sub(1);
        self.mem_write(addr, value);
        self.update_zero_and_negative_flags(value);
        value
    }

    /// INC: increments the operand in memory. Returns the value written.
    pub fn inc(&mut self, mode: &AddressingMode) -> (value: u8)
        requires
            *mode != AddressingMode::NoneAddressing,
        ensures
            final(self)@ == old(self)@.inc(*mode),
            value == old(self)@.operand(*mode).wrapping_add(1),
    {
        let addr = self.get_operand_address(mode);
        let mut value = self.mem_read(addr);

        value = value.wrapping_add(1);
        self.mem_write(addr, value);
        self.update_zero_and_negative_flags(value);
        value
    }

    /// INX: increments X.
    pub fn inx(&mut self)
        ensures
            final(self)@ == old(self)@.inx(),
    {
        self.register_x = self.register_x.wrapping_add(1);
        self.update_zero_and_negative_flags(self.register_x);
    }

    /// INY: increments Y.
    pub fn iny(&mut self)
        ensures
            final(self)@ == old(self)@.iny(),
    {
        self.register_y = self.register_y.wrapping_add(1);
        self.update_zero_and_negative_flags(self.register_y);
    }

    /// DEX: decrements X.
    pub fn dex(&mut self)
        ensures
            final(self)@ == old(self)@.dex(),
    {
        self.register_x = self.register_x.wrapping_sub(1);
        self.update_zero_and_negative_flags(self.register_x);
    }

    /// DEY: decrements Y.
    pub fn dey(&mut self)
        ensures
            final(self)@ == old(self)@.dey(),
    {
        self.register_y = self.register_y.wrapping_sub(1);
        self.update_zero_and_negative_flags(self.register_y);
    }

    /// Adds `value` and the carry to the accumulator and sets carry,
    /// overflow, zero and negative from the sum.
    pub fn add_to_register_a(&mut self, value: u8)
        ensures
            final(self)@ == old(self)@.add_to_register_a(value),
    {
        let carry_in: u16 = if self.get_carry_flag() {
            1
        } else {
            0
        };
        let sum = self.register_a as u16 + value as u16 + carry_in;

        let carry = sum > 0xFF;
        let result = (sum % 0x100) as u8;
        proof {
            lemma_overflow_by_sign_bits(self.register_a, value, carry_in as int);
        }
        let overflow = (value ^ result) & (result ^ self.register_a) & 0x80 != 0;

        self.register_a = result;
        self.set_carry_flag(carry);
        self.set_overflow_flag(overflow);
        self.update_zero_and_negative_flags(result);
    }

    /// Compares `compare_w` with the operand.
    pub fn compare(&mut self, mode: &AddressingMode, compare_w: u8)
        requires
            *mode != AddressingMode::NoneAddressing,
        ensures
            final(self)@ == old(self)@.compare(*mode, compare_w),
    {
        let addr = self.get_operand_address(mode);
        let value = self.mem_read(addr);

        let result = compare_w.wrapping_sub(value);
        self.update_zero_and_negative_flags(result);
        self.set_carry_flag(compare_w >= value);
    }

    /// Runs the handler of `operation`, one of the operations of this module.
    pub(crate) fn execute_arithmetic(&mut self, operation: Operation, mode: &AddressingMode)
        requires
            operation == Operation::Adc
                || operation == Operation::Sbc
                || operation == Operation::Cmp
                || operation == Operation::Cpx
                || operation == Operation::Cpy
                || operation == Operation::Inc
                || operation == Operation::Dec
                || operation == Operation::Inx
                || operation == Operation::Iny
                || operation == Operation::Dex
                || operation == Operation::Dey,
            operation.has_memory_operand() ==> *mode != AddressingMode::NoneAddressing,
        ensures
            final(self)@ == old(self)@.execute(operation, *mode),
    {
        match operation {
            Operation::Adc => self.adc(mode),
            Operation::Sbc => self.sbc(mode),
            Operation::Cmp => self.cmp(mode),
            Operation::Cpx => self.cpx(mode),
            Operation::Cpy => self.cpy(mode),
            Operation::Inc => {
                self.inc(mode);
            },
            Operation::Dec => {
                self.dec(mode);
            },
            Operation::Inx => self.inx(),
            Operation::Iny => self.iny(),
            Operation::Dex => self.dex(),
            Operation::Dey => self.dey(),
            _ => unreached(),
        }
    }
}

} // verus!
