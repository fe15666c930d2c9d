//! Branches, jumps, and the call and return instructions.
//!
//! The program counter points at the first byte after the opcode when a
//! handler runs. A branch that is not taken and a handler that does not
//! touch the program counter leave it there.

use crate::bits::{lemma_split_bits, low_byte, make_word, sign_extend, signed, word, wrap16};
use crate::cpu::{AddressingMode, CPU};
use crate::opcode::Operation;
use crate::state::CpuState;
use crate::status::{pulled_status, BREAK, CARRY, NEGATIVE, OVERFLOW, UNUSED, ZERO};
use vstd::prelude::*;

verus! {

impl CpuState {
    /// Where a taken branch goes: the address after the offset byte, plus
    /// that byte read as a signed number, modulo 65536.
    pub open spec fn branch_target(self) -> u16 {
        wrap16(self.pc + 1 + signed(self.read(self.pc)))
    }

    /// A branch: taken iff `condition` holds.
    pub open spec fn branch(self, condition: bool) -> CpuState {
        if condition {
            CpuState { pc: self.branch_target(), ..self }
        } else {
            self
        }
    }

    /// BCC: branches iff carry is clear.
    pub open spec fn bcc(self) -> CpuState {
        self.branch(!self.flag(CARRY))
    }

    /// BCS: branches iff carry is set.
    pub open spec fn bcs(self) -> CpuState {
        self.branch(self.flag(CARRY))
    }

    /// BEQ: branches iff zero is set.
    pub open spec fn beq(self) -> CpuState {
        self.branch(self.flag(ZERO))
    }

    /// BMI: branches iff negative is set.
    pub open spec fn bmi(self) -> CpuState {
        self.branch(self.flag(NEGATIVE))
    }

    /// BNE: branches iff zero is clear.
    pub open spec fn bne(self) -> CpuState {
        self.branch(!self.flag(ZERO))
    }

    /// BPL: branches iff negative is clear.
    pub open spec fn bpl(self) -> CpuState {
        self.branch(!self.flag(NEGATIVE))
    }

    /// BVC: branches iff overflow is clear.
    pub open spec fn bvc(self) -> CpuState {
        self.branch(!self.flag(OVERFLOW))
    }

    /// BVS: branches iff overflow is set.
    pub open spec fn bvs(self) -> CpuState {
        self.branch(self.flag(OVERFLOW))
    }

    /// JMP absolute: the program counter takes the operand word.
    pub open spec fn jmp_abs(self) -> CpuState {
        CpuState { pc: self.read_u16(self.pc), ..self }
    }

    /// Where JMP indirect takes the high byte of its target from, given the
    /// pointer: the next address, but the start of the pointer's own page
    /// where the pointer is the last byte of a page.
    pub open spec fn indirect_high_address(ptr: u16) -> u16 {
        if low_byte(ptr) == 0xFF {
            (ptr - 0xFF) as u16
        } else {
            (ptr + 1) as u16
        }
    }

    /// JMP indirect: the operand word is a pointer; the program counter takes
    /// the word it points at, whose high byte never comes from the next page.
    pub open spec fn jmp_ind(self) -> CpuState {
        let ptr = self.read_u16(self.pc);
        CpuState {
            pc: word(self.read(ptr), self.read(Self::indirect_high_address(ptr))),
            ..self
        }
    }

    /// JSR: the address of the last byte of the instruction is pushed as a
    /// word, then the program counter takes the operand word.
    pub open spec fn jsr(self) -> CpuState {
        let pushed = self.push_u16(self.pc.wrapping_add(1));
        CpuState { pc: pushed.read_u16(self.pc), ..pushed }
    }

    /// RTS: a word is popped; the program counter takes the address after
    /// it.
    pub open spec fn rts(self) -> CpuState {
        CpuState { pc: self.popped_u16().wrapping_add(1), ..self.pop_u16() }
    }

    /// RTI: the status register takes the byte popped, with break cleared
    /// and the unused bit set; then the program counter takes the word
    /// popped.
    pub open spec fn rti(self) -> CpuState {
        CpuState {
            status: pulled_status(self.popped()),
            pc: self.pop().popped_u16(),
            ..self.pop().pop_u16()
        }
    }
}

impl CPU {
    /// BCC: branches if carry is clear.
    pub fn bcc(&mut self)
        ensures
            final(self)@ == old(self)@.bcc(),
    {
        self.branch(!self.get_carry_flag());
    }

    /// BCS: branches if carry is set.
    pub fn bcs(&mut self)
        ensures
            final(self)@ == old(self)@.bcs(),
    {
        self.branch(self.get_carry_flag());
    }

    /// BEQ: branches if zero is set.
    pub fn beq(&mut self)
        ensures
            final(self)@ == old(self)@.beq(),
    {
        self.branch(self.get_zero_flag());
    }

    /// BMI: branches if negative is set.
    pub fn bmi(&mut self)
        ensures
            final(self)@ == old(self)@.bmi(),
    {
        self.branch(self.get_negative_flag());
    }

    /// BNE: branches if zero is clear.
    pub fn bne(&mut self)
        ensures
            final(self)@ == old(self)@.bne(),
    {
        self.branch(!self.get_zero_flag());
    }

    /// BPL: branches if negative is clear.
    pub fn bpl(&mut self)
        ensures
            final(self)@ == old(self)@.bpl(),
    {
        self.branch(!self.get_negative_flag());
    }

    /// BVC: branches if overflow is clear.
    pub fn bvc(&mut self)
        ensures
            final(self)@ == old(self)@.bvc(),
    {
        self.branch(!self.get_overflow_flag());
    }

    /// BVS: branches if overflow is set.
    pub fn bvs(&mut self)
        ensures
            final(self)@ == old(self)@.bvs(),
    {
        self.branch(self.get_overflow_flag());
    }

    /// JMP absolute: jumps to the operand word.
    pub fn jmp_abs(&mut self)
        ensures
            final(self)@ == old(self)@.jmp_abs(),
    {
        let addr = self.mem_read_u16(self.program_counter);
        self.program_counter = addr;
    }

    /// JMP indirect: jumps to the word that the operand word points at.
    pub fn jmp_ind(&mut self)
        ensures
            final(self)@ == old(self)@.jmp_ind(),
    {
        let addr = self.mem_read_u16(self.program_counter);
        proof {
            lemma_split_bits(addr);
        }

        let indirect_ref = if addr & 0x00FF == 0x00FF {
            let lo = self.mem_read(addr);
            let hi = self.mem_read(addr & 0xFF00);
            make_word(lo, hi)
        } else {
            self.mem_read_u16(addr)
        };

        self.program_counter = indirect_ref;
    }

    /// JSR: pushes the return address and jumps to the operand word.
    pub fn jsr(&mut self)
        ensures
            final(self)@ == old(self)@.jsr(),
    {
        self.stack_push_u16(self.program_counter.wrapping_add(1));
        let target_addr = self.mem_read_u16(self.program_counter);
        self.program_counter = target_addr;
    }

    /// RTI: pulls the status byte, then the program counter.
    pub fn rti(&mut self)
        ensures
            final(self)@ == old(self)@.rti(),
    {
        let mut flags = self.stack_pop();
        flags &= !BREAK;
        flags |= UNUSED;

        self.status = flags;
        self.program_counter = self.stack_pop_u16();
    }

    /// RTS: pulls the return address and goes on after it.
    pub fn rts(&mut self)
        ensures
            final(self)@ == old(self)@.rts(),
    {
        self.program_counter = self.stack_pop_u16().wrapping_add(1);
    }

    /// Takes the branch iff `cond` holds.
    pub fn branch(&mut self, cond: bool)
        ensures
            final(self)@ == old(self)@.branch(cond),
    {
        if cond {
            let jmp = self.mem_read(self.program_counter);
            let jmp_addr = self.program_counter.wrapping_add(1).wrapping_add(sign_extend(jmp));
            self.program_counter = jmp_addr;
        }
    }

    /// Runs the handler of `operation`, one of the operations of this module.
    pub(crate) fn execute_control(&mut self, operation: Operation, mode: &AddressingMode)
        requires
            operation == Operation::Bcc
                || operation == Operation::Bcs
                || operation == Operation::Beq
                || operation == Operation::Bmi
                || operation == Operation::Bne
                || operation == Operation::Bpl
                || operation == Operation::Bvc
                || operation == Operation::Bvs
                || operation == Operation::Jmp
                || operation == Operation::Jsr
                || operation == Operation::Rts
                || operation == Operation::Rti,
        ensures
            final(self)@ == old(self)@.execute(operation, *mode),
    {
        match operation {
            Operation::Bcc => self.bcc(),
            Operation::Bcs => self.bcs(),
            Operation::Beq => self.beq(),
            Operation::Bmi => self.bmi(),
            Operation::Bne => self.bne(),
            Operation::Bpl => self.bpl(),
            Operation::Bvc => self.bvc(),
            Operation::Bvs => self.bvs(),
            Operation::Jmp => match mode {
                AddressingMode::Absolute => self.jmp_abs(),
                _ => self.jmp_ind(),
            },
            Operation::Jsr => self.jsr(),
            Operation::Rts => self.rts(),
            Operation::Rti => self.rti(),
            _ => unreached(),
        }
    }
}

} // verus!
