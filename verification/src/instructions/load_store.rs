//! Loads, stores and register transfers.

use crate::cpu::{AddressingMode, CPU};
use crate::opcode::Operation;
use crate::state::CpuState;
use vstd::prelude::*;

verus! {

impl CpuState {
    /// LDA: the accumulator takes the operand; zero and negative describe it.
    pub open spec fn lda(self, mode: AddressingMode) -> CpuState {
        let value = self.operand(mode);
        CpuState { a: value, ..self }.with_zero_and_negative(value)
    }

    /// LDX: X takes the operand; zero and negative describe it.
    pub open spec fn ldx(self, mode: AddressingMode) -> CpuState {
        let value = self.operand(mode);
        CpuState { x: value, ..self }.with_zero_and_negative(value)
    }

    /// LDY: Y takes the operand; zero and negative describe it.
    pub open spec fn ldy(self, mode: AddressingMode) -> CpuState {
        let value = self.operand(mode);
        CpuState { y: value, ..self }.with_zero_and_negative(value)
    }

    /// STA: the accumulator is stored at the effective address.
    pub open spec fn sta(self, mode: AddressingMode) -> CpuState {
        self.write(self.operand_address(mode), self.a)
    }

    /// STX: X is stored at the effective address.
    pub open spec fn stx(self, mode: AddressingMode) -> CpuState {
        self.write(self.operand_address(mode), self.x)
    }

    /// STY: Y is stored at the effective address.
    pub open spec fn sty(self, mode: AddressingMode) -> CpuState {
        self.write(self.operand_address(mode), self.y)
    }

    /// TAX: X takes the accumulator; zero and negative describe it.
    pub open spec fn tax(self) -> CpuState {
        CpuState { x: self.a, ..self }.with_zero_and_negative(self.a)
    }

    /// TAY: Y takes the accumulator; zero and negative describe it.
    pub open spec fn tay(self) -> CpuState {
        CpuState { y: self.a, ..self }.with_zero_and_negative(self.a)
    }

    /// TSX: X takes the stack pointer; zero and negative describe it.
    pub open spec fn tsx(self) -> CpuState {
        CpuState { x: self.sp, ..self }.with_zero_and_negative(self.sp)
    }

    /// TXA: the accumulator takes X; zero and negative describe it.
    pub open spec fn txa(self) -> CpuState {
        CpuState { a: self.x, ..self }.with_zero_and_negative(self.x)
    }

    /// TXS: the stack pointer takes X; no flag changes.
    pub open spec fn txs(self) -> CpuState {
        CpuState { sp: self.x, ..self }
    }

    /// TYA: the accumulator takes Y; zero and negative describe it.
    pub open spec fn tya(self) -> CpuState {
        CpuState { a: self.y, ..self }.with_zero_and_negative(self.y)
    }
}

impl CPU {
    /// LDA: loads the accumulator with the operand.
    pub fn lda(&mut self, mode: &AddressingMode)
        requires
            *mode != AddressingMode::NoneAddressing,
        ensures
            final(self)@ == old(self)@.lda(*mode),
    {
        let addr = self.get_operand_address(mode);
        let value = self.mem_read(addr);

        self.register_a = value;
        self.update_zero_and_negative_flags(self.register_a);
    }

    /// LDX: loads X with the operand.
    pub fn ldx(&mut self, mode: &AddressingMode)
        requires
            *mode != AddressingMode::NoneAddressing,
        ensures
            final(self)@ == old(self)@.ldx(*mode),
    {
        let addr = self.get_operand_address(mode);
        let value = self.mem_read(addr);

        self.register_x = value;
        self.update_zero_and_negative_flags(self.register_x);
    }

    /// LDY: loads Y with the operand.
    pub fn ldy(&mut self, mode: &AddressingMode)
        requires
            *mode != AddressingMode::NoneAddressing,
        ensures
            final(self)@ == old(self)@.ldy(*mode),
    {
        let addr = self.get_operand_address(mode);
        let value = self.mem_read(addr);

        self.register_y = value;
        self.update_zero_and_negative_flags(self.register_y);
    }

    /// STA: stores the accumulator at the effective address.
    pub fn sta(&mut self, mode: &AddressingMode)
        requires
            *mode != AddressingMode::NoneAddressing,
        ensures
            final(self)@ == old(self)@.sta(*mode),
    {
        let addr = self.get_operand_address(mode);
        self.mem_write(addr, self.register_a);
    }

    /// STX: stores X at the effective address.
    pub fn stx(&mut self, mode: &AddressingMode)
        requires
            *mode != AddressingMode::NoneAddressing,
        ensures
            final(self)@ == old(self)@.stx(*mode),
    {
        let addr = self.get_operand_address(mode);
        self.mem_write(addr, self.register_x);
    }

    /// STY: stores Y at the effective address.
    pub fn sty(&mut self, mode: &AddressingMode)
        requires
            *mode != AddressingMode::NoneAddressing,
        ensures
            final(self)@ == old(self)@.sty(*mode),
    {
        let addr = self.get_operand_address(mode);
        self.mem_write(addr, self.register_y);
    }

    /// TAX: copies the accumulator to X.
    pub fn tax(&mut self)
        ensures
            final(self)@ == old(self)@.tax(),
    {
        self.register_x = self.register_a;
        self.update_zero_and_negative_flags(self.register_x);
    }

    /// TAY: copies the accumulator to Y.
    pub fn tay(&mut self)
        ensures
            final(self)@ == old(self)@.tay(),
    {
        self.register_y = self.register_a;
        self.update_zero_and_negative_flags(self.register_y);
    }

    /// TSX: copies the stack pointer to X.
    pub fn tsx(&mut self)
        ensures
            final(self)@ == old(self)@.tsx(),
    {
        self.register_x = self.stack_pointer;
        self.update_zero_and_negative_flags(self.register_x);
    }

    /// TXA: copies X to the accumulator.
    pub fn txa(&mut self)
        ensures
            final(self)@ == old(self)@.txa(),
    {
        self.register_a = self.register_x;
        self.update_zero_and_negative_flags(self.register_a);
    }

    /// TXS: copies X to the stack pointer.
    pub fn txs(&mut self)
        ensures
            final(self)@ == old(self)@.txs(),
    {
        self.stack_pointer = self.register_x;
    }

    /// TYA: copies Y to the accumulator.
    pub fn tya(&mut self)
        ensures
            final(self)@ == old(self)@.tya(),
    {
        self.register_a = self.register_y;
        self.update_zero_and_negative_flags(self.register_a);
    }

    /// Runs the handler of `operation`, one of the operations of this module.
    pub(crate) fn execute_load_store(&mut self, operation: Operation, mode: &AddressingMode)
        requires
            operation == Operation::Lda
                || operation == Operation::Ldx
                || operation == Operation::Ldy
                || operation == Operation::Sta
                || operation == Operation::Stx
                || operation == Operation::Sty
                || operation == Operation::Tax
                || operation == Operation::Tay
                || operation == Operation::Tsx
                || operation == Operation::Txa
                || operation == Operation::Txs
                || operation == Operation::Tya,
            operation.has_memory_operand() ==> *mode != AddressingMode::NoneAddressing,
        ensures
            final(self)@ == old(self)@.execute(operation, *mode),
    {
        match operation {
            Operation::Lda => self.lda(mode),
            Operation::Ldx => self.ldx(mode),
            Operation::Ldy => self.ldy(mode),
            Operation::Sta => self.sta(mode),
            Operation::Stx => self.stx(mode),
            Operation::Sty => self.sty(mode),
            Operation::Tax => self.tax(),
            Operation::Tay => self.tay(),
            Operation::Tsx => self.tsx(),
            Operation::Txa => self.txa(),
            Operation::Txs => self.txs(),
            Operation::Tya => self.tya(),
            _ => unreached(),
        }
    }
}

} // verus!
