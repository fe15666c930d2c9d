//! The instructions that set or clear one flag.

use crate::cpu::{AddressingMode, CPU};
use crate::opcode::Operation;
use crate::state::CpuState;
use crate::status::{CARRY, DECIMAL_MODE, INTERRUPT_DISABLE, OVERFLOW};
use vstd::prelude::*;

verus! {

impl CpuState {
    /// CLC: carry is cleared.
    pub open spec fn clc(self) -> CpuState {
        self.with_flag(CARRY, false)
    }

    /// CLD: decimal mode is cleared.
    pub open spec fn cld(self) -> CpuState {
        self.with_flag(DECIMAL_MODE, false)
    }

    /// CLI: interrupt-disable is cleared.
    pub open spec fn cli(self) -> CpuState {
        self.with_flag(INTERRUPT_DISABLE, false)
    }

    /// CLV: overflow is cleared.
    pub open spec fn clv(self) -> CpuState {
        self.with_flag(OVERFLOW, false)
    }

    /// SEC: carry is set.
    pub open spec fn sec(self) -> CpuState {
        self.with_flag(CARRY, true)
    }

    /// SED: decimal mode is set.
    pub open spec fn sed(self) -> CpuState {
        self.with_flag(DECIMAL_MODE, true)
    }

    /// SEI: interrupt-disable is set.
    pub open spec fn sei(self) -> CpuState {
        self.with_flag(INTERRUPT_DISABLE, true)
    }
}

impl CPU {
    /// CLC: clears carry.
    pub fn clc(&mut self)
        ensures
            final(self)@ == old(self)@.clc(),
    {
        self.set_carry_flag(false);
    }

    /// CLD: clears decimal mode.
    pub fn cld(&mut self)
        ensures
            final(self)@ == old(self)@.cld(),
    {
        self.set_decimal_mode_flag(false);
    }

    /// CLI: clears interrupt-disable.
    pub fn cli(&mut self)
        ensures
            final(self)@ == old(self)@.cli(),
    {
        self.set_interrupt_disable(false);
    }

    /// CLV: clears overflow.
    pub fn clv(&mut self)
        ensures
            final(self)@ == old(self)@.clv(),
    {
        self.set_overflow_flag(false);
    }

    /// SEC: sets carry.
    pub fn sec(&mut self)
        ensures
            final(self)@ == old(self)@.sec(),
    {
        self.set_carry_flag(true);
    }

    /// SED: sets decimal mode.
    pub fn sed(&mut self)
        ensures
            final(self)@ == old(self)@.sed(),
    {
        self.set_decimal_mode_flag(true);
    }

    /// SEI: sets interrupt-disable.
    pub fn sei(&mut self)
        ensures
            final(self)@ == old(self)@.sei(),
    {
        self.set_interrupt_disable(true);
    }

    /// Runs the handler of `operation`, one of the operations of this module.
    pub(crate) fn execute_flag(&mut self, operation: Operation, mode: &AddressingMode)
        requires
            operation == Operation::Clc
                || operation == Operation::Cld
                || operation == Operation::Cli
                || operation == Operation::Clv
                || operation == Operation::Sec
                || operation == Operation::Sed
                || operation == Operation::Sei,
        ensures
            final(self)@ == old(self)@.execute(operation, *mode),
    {
        match operation {
            Operation::Clc => self.clc(),
            Operation::Cld => self.cld(),
            Operation::Cli => self.cli(),
            Operation::Clv => self.clv(),
            Operation::Sec => self.sec(),
            Operation::Sed => self.sed(),
            Operation::Sei => self.sei(),
            _ => unreached(),
        }
    }
}

} // verus!
