//! Pushing and pulling the accumulator and the status byte.
//!
//! The status byte never passes through the stack unchanged: a push stores
//! it with break and the unused bit forced to 1, and a pull takes it with
//! break cleared and the unused bit forced to 1.

use crate::cpu::{AddressingMode, CPU};
use crate::opcode::Operation;
use crate::state::CpuState;
use crate::status::{pulled_status, pushed_status, BREAK, UNUSED};
use vstd::prelude::*;

verus! {

impl CpuState {
    /// PHA: the accumulator is pushed.
    pub open spec fn pha(self) -> CpuState {
        self.push(self.a)
    }

    /// PHP: the status byte is pushed with break and the unused bit set; the
    /// status register itself keeps its value.
    pub open spec fn php(self) -> CpuState {
        self.push(pushed_status(self.status))
    }

    /// PLA: the accumulator takes the byte popped; zero and negative describe
    /// it.
    pub open spec fn pla(self) -> CpuState {
        let value = self.popped();
        CpuState { a: value, ..self.pop() }.with_zero_and_negative(value)
    }

    /// PLP: the status register takes the byte popped, with break cleared
    /// and the unused bit set.
    pub open spec fn plp(self) -> CpuState {
        CpuState { status: pulled_status(self.popped()), ..self.pop() }
    }
}

impl CPU {
    /// PHA: pushes the accumulator.
    pub fn pha(&mut self)
        ensures
            final(self)@ == old(self)@.pha(),
    {
        self.stack_push(self.register_a);
    }

    /// PHP: pushes the status byte, break and the unused bit set.
    pub fn php(&mut self)
        ensures
            final(self)@ == old(self)@.php(),
    {
        let mut flags = self.status;
        flags |= BREAK;
        flags |= UNUSED;
        self.stack_push(flags);
    }

    /// PLA: pulls the accumulator.
    pub fn pla(&mut self)
        ensures
            final(self)@ == old(self)@.pla(),
    {
        let value = self.stack_pop();

        self.register_a = value;
        self.update_zero_and_negative_flags(self.register_a);
    }

    /// PLP: pulls the status byte, break cleared and the unused bit set.
    pub fn plp(&mut self)
        ensures
            final(self)@ == old(self)@.plp(),
    {
        let mut value = self.stack_pop();

        value &= !BREAK;
        value |= UNUSED;

        self.status = value;
    }

    /// Runs the handler of `operation`, one of the operations of this module.
    pub(crate) fn execute_stack(&mut self, operation: Operation, mode: &AddressingMode)
        requires
            operation == Operation::Pha
                || operation == Operation::Php
                || operation == Operation::Pla
                || operation == Operation::Plp,
        ensures
            final(self)@ == old(self)@.execute(operation, *mode),
    {
        match operation {
            Operation::Pha => self.pha(),
            Operation::Php => self.php(),
            Operation::Pla => self.pla(),
            Operation::Plp => self.plp(),
            _ => unreached(),
        }
    }
}

} // verus!
