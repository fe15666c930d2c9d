//! Where an instruction finds its operand.
//!
//! The program counter points at the first byte after the opcode. Resolving
//! an address reads that byte, or that word, and the index registers; it
//! changes nothing. Indexing wraps silently: within page zero for the
//! zero-page modes and for the pointers of the indirect modes, modulo 65536
//! for the absolute modes.

use crate::bits::{make_word, word};
use crate::cpu::{AddressingMode, CPU};
use crate::state::CpuState;
use vstd::prelude::*;

verus! {

impl CpuState {
    /// The little-endian word that page zero holds at `ptr`; its high byte is
    /// taken from `ptr + 1` modulo 256, so the word never leaves page zero.
    pub open spec fn zero_page_word(self, ptr: u8) -> u16 {
        word(self.read(ptr as u16), self.read(ptr.wrapping_add(1) as u16))
    }

    /// The effective address of the operand under `mode`.
    pub open spec fn operand_address(self, mode: AddressingMode) -> u16
        recommends
            mode != AddressingMode::NoneAddressing,
    {
        match mode {
            AddressingMode::Immediate => self.pc,
            AddressingMode::ZeroPage => self.read(self.pc) as u16,
            AddressingMode::ZeroPage_X => self.read(self.pc).wrapping_add(self.x) as u16,
            AddressingMode::ZeroPage_Y => self.read(self.pc).wrapping_add(self.y) as u16,
            AddressingMode::Absolute => self.read_u16(self.pc),
            AddressingMode::Absolute_X => self.read_u16(self.pc).wrapping_add(self.x as u16),
            AddressingMode::Absolute_Y => self.read_u16(self.pc).wrapping_add(self.y as u16),
            AddressingMode::Indirect_X => self.zero_page_word(
                self.read(self.pc).wrapping_add(self.x),
            ),
            AddressingMode::Indirect_Y => self.zero_page_word(self.read(self.pc)).wrapping_add(
                self.y as u16,
            ),
            AddressingMode::NoneAddressing => arbitrary(),
        }
    }

    /// The operand under `mode`: the byte at its effective address.
    pub open spec fn operand(self, mode: AddressingMode) -> u8
        recommends
            mode != AddressingMode::NoneAddressing,
    {
        self.read(self.operand_address(mode))
    }
}

/// The zero-page modes yield an address in page zero, whatever the index
/// register holds.
pub proof fn lemma_zero_page_stays_in_page_zero(s: CpuState, mode: AddressingMode)
    requires
        mode == AddressingMode::ZeroPage || mode == AddressingMode::ZeroPage_X || mode
            == AddressingMode::ZeroPage_Y,
    ensures
        s.operand_address(mode) < 0x100,
{
}

impl CPU {
    /// The little-endian word that page zero holds at `ptr`, the high byte
    /// taken from `ptr + 1` modulo 256.
    pub fn zero_page_word(&self, ptr: u8) -> (data: u16)
        ensures
            data == self@.zero_page_word(ptr),
    {
        let lo = self.mem_read(ptr as u16);
        let hi = self.mem_read(ptr.wrapping_add(1) as u16);
        make_word(lo, hi)
    }

    /// The effective address of the operand of the instruction whose first
    /// operand byte the program counter points at.
    pub fn get_operand_address(&self, mode: &AddressingMode) -> (addr: u16)
        requires
            *mode != AddressingMode::NoneAddressing,
        ensures
            addr == self@.operand_address(*mode),
    {
        match mode {
            AddressingMode::Immediate => self.program_counter,
            AddressingMode::ZeroPage => self.mem_read(self.program_counter) as u16,
            AddressingMode::Absolute => self.mem_read_u16(self.program_counter),
            AddressingMode::ZeroPage_X => {
                let pos = self.mem_read(self.program_counter);
                pos.wrapping_add(self.register_x) as u16
            },
            AddressingMode::ZeroPage_Y => {
                let pos = self.mem_read(self.program_counter);
                pos.wrapping_add(self.register_y) as u16
            },
            AddressingMode::Absolute_X => {
                let base = self.mem_read_u16(self.program_counter);
                base.wrapping_add(self.register_x as u16)
            },
            AddressingMode::Absolute_Y => {
                let base = self.mem_read_u16(self.program_counter);
                base.wrapping_add(self.register_y as u16)
            },
            AddressingMode::Indirect_X => {
                let base = self.mem_read(self.program_counter);
                let ptr: u8 = base.wrapping_add(self.register_x);
                self.zero_page_word(ptr)
            },
            AddressingMode::Indirect_Y => {
                let base = self.mem_read(self.program_counter);
                let deref_base = self.zero_page_word(base);
                deref_base.wrapping_add(self.register_y as u16)
            },
            AddressingMode::NoneAddressing => unreached(),
        }
    }
}

} // verus!
