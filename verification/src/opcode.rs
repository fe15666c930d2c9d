//! The instruction set: one descriptor for each of the 151 defined opcodes.

use crate::cpu::AddressingMode;
use vstd::prelude::*;

verus! {

/// What an instruction does, whatever its addressing mode.
#[derive(Debug, Clone, Copy, PartialEq, Eq, Structural)]
pub enum Operation {
    /// ADC: add memory to the accumulator with carry.
    Adc,
    /// AND: bitwise AND of memory into the accumulator.
    And,
    /// ASL: shift left by one bit.
    Asl,
    /// BCC: branch if carry is clear.
    Bcc,
    /// BCS: branch if carry is set.
    Bcs,
    /// BEQ: branch if zero is set.
    Beq,
    /// BIT: test bits of memory against the accumulator.
    Bit,
    /// BMI: branch if negative is set.
    Bmi,
    /// BNE: branch if zero is clear.
    Bne,
    /// BPL: branch if negative is clear.
    Bpl,
    /// BRK: stop.
    Brk,
    /// BVC: branch if overflow is clear.
    Bvc,
    /// BVS: branch if overflow is set.
    Bvs,
    /// CLC: clear carry.
    Clc,
    /// CLD: clear decimal mode.
    Cld,
    /// CLI: clear interrupt-disable.
    Cli,
    /// CLV: clear overflow.
    Clv,
    /// CMP: compare memory with the accumulator.
    Cmp,
    /// CPX: compare memory with X.
    Cpx,
    /// CPY: compare memory with Y.
    Cpy,
    /// DEC: decrement memory.
    Dec,
    /// DEX: decrement X.
    Dex,
    /// DEY: decrement Y.
    Dey,
    /// EOR: bitwise exclusive OR of memory into the accumulator.
    Eor,
    /// INC: increment memory.
    Inc,
    /// INX: increment X.
    Inx,
    /// INY: increment Y.
    Iny,
    /// JMP: jump.
    Jmp,
    /// JSR: jump to a subroutine.
    Jsr,
    /// LDA: load the accumulator.
    Lda,
    /// LDX: load X.
    Ldx,
    /// LDY: load Y.
    Ldy,
    /// LSR: shift right by one bit.
    Lsr,
    /// NOP: do nothing.
    Nop,
    /// ORA: bitwise OR of memory into the accumulator.
    Ora,
    /// PHA: push the accumulator.
    Pha,
    /// PHP: push the status byte.
    Php,
    /// PLA: pull the accumulator.
    Pla,
    /// PLP: pull the status byte.
    Plp,
    /// ROL: rotate left through carry.
    Rol,
    /// ROR: rotate right through carry.
    Ror,
    /// RTI: return from an interrupt.
    Rti,
    /// RTS: return from a subroutine.
    Rts,
    /// SBC: subtract memory from the accumulator with borrow.
    Sbc,
    /// SEC: set carry.
    Sec,
    /// SED: set decimal mode.
    Sed,
    /// SEI: set interrupt-disable.
    Sei,
    /// STA: store the accumulator.
    Sta,
    /// STX: store X.
    Stx,
    /// STY: store Y.
    Sty,
    /// TAX: copy the accumulator to X.
    Tax,
    /// TAY: copy the accumulator to Y.
    Tay,
    /// TSX: copy the stack pointer to X.
    Tsx,
    /// TXA: copy X to the accumulator.
    Txa,
    /// TXS: copy X to the stack pointer.
    Txs,
    /// TYA: copy Y to the accumulator.
    Tya,
}

impl Operation {
    /// The three-letter assembler name of the operation.
    pub open spec fn mnemonic(self) -> &'static str {
        match self {
            Operation::Adc => "ADC",
            Operation::And => "AND",
            Operation::Asl => "ASL",
            Operation::Bcc => "BCC",
            Operation::Bcs => "BCS",
            Operation::Beq => "BEQ",
            Operation::Bit => "BIT",
            Operation::Bmi => "BMI",
            Operation::Bne => "BNE",
            Operation::Bpl => "BPL",
            Operation::Brk => "BRK",
            Operation::Bvc => "BVC",
            Operation::Bvs => "BVS",
            Operation::Clc => "CLC",
            Operation::Cld => "CLD",
            Operation::Cli => "CLI",
            Operation::Clv => "CLV",
            Operation::Cmp => "CMP",
            Operation::Cpx => "CPX",
            Operation::Cpy => "CPY",
            Operation::Dec => "DEC",
            Operation::Dex => "DEX",
            Operation::Dey => "DEY",
            Operation::Eor => "EOR",
            Operation::Inc => "INC",
            Operation::Inx => "INX",
            Operation::Iny => "INY",
            Operation::Jmp => "JMP",
            Operation::Jsr => "JSR",
            Operation::Lda => "LDA",
            Operation::Ldx => "LDX",
            Operation::Ldy => "LDY",
            Operation::Lsr => "LSR",
            Operation::Nop => "NOP",
            Operation::Ora => "ORA",
            Operation::Pha => "PHA",
            Operation::Php => "PHP",
            Operation::Pla => "PLA",
            Operation::Plp => "PLP",
            Operation::Rol => "ROL",
            Operation::Ror => "ROR",
            Operation::Rti => "RTI",
            Operation::Rts => "RTS",
            Operation::Sbc => "SBC",
            Operation::Sec => "SEC",
            Operation::Sed => "SED",
            Operation::Sei => "SEI",
            Operation::Sta => "STA",
            Operation::Stx => "STX",
            Operation::Sty => "STY",
            Operation::Tax => "TAX",
            Operation::Tay => "TAY",
            Operation::Tsx => "TSX",
            Operation::Txa => "TXA",
            Operation::Txs => "TXS",
            Operation::Tya => "TYA",
        }
    }

    /// Whether the operation always works on a byte of memory, found through
    /// its addressing mode.
    pub open spec fn has_memory_operand(self) -> bool {
        match self {
            Operation::Adc
            | Operation::And
            | Operation::Bit
            | Operation::Cmp
            | Operation::Cpx
            | Operation::Cpy
            | Operation::Dec
            | Operation::Eor
            | Operation::Inc
            | Operation::Lda
            | Operation::Ldx
            | Operation::Ldy
            | Operation::Ora
            | Operation::Sbc
            | Operation::Sta
            | Operation::Stx
            | Operation::Sty => true,
            _ => false,
        }
    }

    /// Whether the operation is a conditional branch, whose operand is one
    /// byte of signed offset.
    pub open spec fn is_branch(self) -> bool {
        match self {
            Operation::Bcc
            | Operation::Bcs
            | Operation::Beq
            | Operation::Bmi
            | Operation::Bne
            | Operation::Bpl
            | Operation::Bvc
            | Operation::Bvs => true,
            _ => false,
        }
    }

    /// The three-letter assembler name of the operation.
    pub fn name(&self) -> (name: &'static str)
        ensures
            name == self.mnemonic(),
    {
        match self {
            Operation::Adc => "ADC",
            Operation::And => "AND",
            Operation::Asl => "ASL",
            Operation::Bcc => "BCC",
            Operation::Bcs => "BCS",
            Operation::Beq => "BEQ",
            Operation::Bit => "BIT",
            Operation::Bmi => "BMI",
            Operation::Bne => "BNE",
            Operation::Bpl => "BPL",
            Operation::Brk => "BRK",
            Operation::Bvc => "BVC",
            Operation::Bvs => "BVS",
            Operation::Clc => "CLC",
            Operation::Cld => "CLD",
            Operation::Cli => "CLI",
            Operation::Clv => "CLV",
            Operation::Cmp => "CMP",
            Operation::Cpx => "CPX",
            Operation::Cpy => "CPY",
            Operation::Dec => "DEC",
            Operation::Dex => "DEX",
            Operation::Dey => "DEY",
            Operation::Eor => "EOR",
            Operation::Inc => "INC",
            Operation::Inx => "INX",
            Operation::Iny => "INY",
            Operation::Jmp => "JMP",
            Operation::Jsr => "JSR",
            Operation::Lda => "LDA",
            Operation::Ldx => "LDX",
            Operation::Ldy => "LDY",
            Operation::Lsr => "LSR",
            Operation::Nop => "NOP",
            Operation::Ora => "ORA",
            Operation::Pha => "PHA",
            Operation::Php => "PHP",
            Operation::Pla => "PLA",
            Operation::Plp => "PLP",
            Operation::Rol => "ROL",
            Operation::Ror => "ROR",
            Operation::Rti => "RTI",
            Operation::Rts => "RTS",
            Operation::Sbc => "SBC",
            Operation::Sec => "SEC",
            Operation::Sed => "SED",
            Operation::Sei => "SEI",
            Operation::Sta => "STA",
            Operation::Stx => "STX",
            Operation::Sty => "STY",
            Operation::Tax => "TAX",
            Operation::Tay => "TAY",
            Operation::Tsx => "TSX",
            Operation::Txa => "TXA",
            Operation::Txs => "TXS",
            Operation::Tya => "TYA",
        }
    }
}

/// The descriptor of one opcode.
#[derive(Debug, Clone, Copy)]
pub struct OpCode {
    /// The byte that encodes the instruction.
    pub code: u8,
    /// The assembler name of the operation.
    pub inst: &'static str,
    /// The length of the instruction in bytes, opcode included.
    pub len: u8,
    /// The number of cycles the instruction takes at least.
    pub cycles: u8,
    /// The number of cycles added when indexing crosses a page boundary.
    pub page_crossed_cycles: u8,
    /// How the instruction finds its operand.
    pub mode: AddressingMode,
    /// What the instruction does.
    pub operation: Operation,
}

/// The number of bytes that follow the opcode of an instruction with the
/// given operation and addressing mode.
pub open spec fn operand_len(operation: Operation, mode: AddressingMode) -> int {
    match mode {
        AddressingMode::Immediate
        | AddressingMode::ZeroPage
        | AddressingMode::ZeroPage_X
        | AddressingMode::ZeroPage_Y
        | AddressingMode::Indirect_X
        | AddressingMode::Indirect_Y => 1,
        AddressingMode::Absolute | AddressingMode::Absolute_X | AddressingMode::Absolute_Y => 2,
        AddressingMode::NoneAddressing => if operation.is_branch() {
            1
        } else if operation == Operation::Jmp {
            2
        } else {
            0
        },
    }
}

impl OpCode {
    /// The descriptor with the given fields, named after its operation.
    pub open spec fn describe(
        code: u8,
        operation: Operation,
        len: u8,
        cycles: u8,
        page_crossed_cycles: u8,
        mode: AddressingMode,
    ) -> OpCode {
        OpCode {
            code,
            inst: operation.mnemonic(),
            len,
            cycles,
            page_crossed_cycles,
            mode,
            operation,
        }
    }

    /// What holds of every descriptor in the table: it is named after its
    /// operation, its length is that of the opcode and its operand, an
    /// operation on memory has a mode that yields an address, it takes
    /// between 2 and 7 cycles, and a page crossing adds one cycle at most.
    pub open spec fn well_formed(self) -> bool {
        &&& self.inst == self.operation.mnemonic()
        &&& self.len == 1 + operand_len(self.operation, self.mode)
        &&& self.operation.has_memory_operand() ==> self.mode != AddressingMode::NoneAddressing
        &&& self.page_crossed_cycles <= 1
        &&& 2 <= self.cycles <= 7
    }

    /// The descriptor with the given fields, named after its operation.
    pub fn new(
        code: u8,
        operation: Operation,
        len: u8,
        cycles: u8,
        page_crossed_cycles: u8,
        mode: AddressingMode,
    ) -> (op: OpCode)
        ensures
            op == OpCode::describe(code, operation, len, cycles, page_crossed_cycles, mode),
    {
        OpCode { code, inst: operation.name(), len, cycles, page_crossed_cycles, mode, operation }
    }
}

/// The instruction set as a function from the opcode byte: the descriptor of
/// `code`, or `None` where the byte encodes no instruction.
pub open spec fn opcode_table(code: u8) -> Option<OpCode> {
    match code {
        0x00 => Some(OpCode::describe(0x00, Operation::Brk, 1, 7, 0, AddressingMode::NoneAddressing)),
        0x01 => Some(OpCode::describe(0x01, Operation::Ora, 2, 6, 0, AddressingMode::Indirect_X)),
        0x05 => Some(OpCode::describe(0x05, Operation::Ora, 2, 3, 0, AddressingMode::ZeroPage)),
        0x06 => Some(OpCode::describe(0x06, Operation::Asl, 2, 5, 0, AddressingMode::ZeroPage)),
        0x08 => Some(OpCode::describe(0x08, Operation::Php, 1, 3, 0, AddressingMode::NoneAddressing)),
        0x09 => Some(OpCode::describe(0x09, Operation::Ora, 2, 2, 0, AddressingMode::Immediate)),
        0x0A => Some(OpCode::describe(0x0A, Operation::Asl, 1, 2, 0, AddressingMode::NoneAddressing)),
        0x0D => Some(OpCode::describe(0x0D, Operation::Ora, 3, 4, 0, AddressingMode::Absolute)),
        0x0E => Some(OpCode::describe(0x0E, Operation::Asl, 3, 6, 0, AddressingMode::Absolute)),
        0x10 => Some(OpCode::describe(0x10, Operation::Bpl, 2, 2, 0, AddressingMode::NoneAddressing)),
        0x11 => Some(OpCode::describe(0x11, Operation::Ora, 2, 5, 1, AddressingMode::Indirect_Y)),
        0x15 => Some(OpCode::describe(0x15, Operation::Ora, 2, 4, 0, AddressingMode::ZeroPage_X)),
        0x16 => Some(OpCode::describe(0x16, Operation::Asl, 2, 6, 0, AddressingMode::ZeroPage_X)),
        0x18 => Some(OpCode::describe(0x18, Operation::Clc, 1, 2, 0, AddressingMode::NoneAddressing)),
        0x19 => Some(OpCode::describe(0x19, Operation::Ora, 3, 4, 1, AddressingMode::Absolute_Y)),
        0x1D => Some(OpCode::describe(0x1D, Operation::Ora, 3, 4, 1, AddressingMode::Absolute_X)),
        0x1E => Some(OpCode::describe(0x1E, Operation::Asl, 3, 7, 0, AddressingMode::Absolute_X)),
        0x20 => Some(OpCode::describe(0x20, Operation::Jsr, 3, 6, 0, AddressingMode::Absolute)),
        0x21 => Some(OpCode::describe(0x21, Operation::And, 2, 6, 0, AddressingMode::Indirect_X)),
        0x24 => Some(OpCode::describe(0x24, Operation::Bit, 2, 3, 0, AddressingMode::ZeroPage)),
        0x25 => Some(OpCode::describe(0x25, Operation::And, 2, 3, 0, AddressingMode::ZeroPage)),
        0x26 => Some(OpCode::describe(0x26, Operation::Rol, 2, 5, 0, AddressingMode::ZeroPage)),
        0x28 => Some(OpCode::describe(0x28, Operation::Plp, 1, 4, 0, AddressingMode::NoneAddressing)),
        0x29 => Some(OpCode::describe(0x29, Operation::And, 2, 2, 0, AddressingMode::Immediate)),
        0x2A => Some(OpCode::describe(0x2A, Operation::Rol, 1, 2, 0, AddressingMode::NoneAddressing)),
        0x2C => Some(OpCode::describe(0x2C, Operation::Bit, 3, 4, 0, AddressingMode::Absolute)),
        0x2D => Some(OpCode::describe(0x2D, Operation::And, 3, 4, 0, AddressingMode::Absolute)),
        0x2E => Some(OpCode::describe(0x2E, Operation::Rol, 3, 6, 0, AddressingMode::Absolute)),
        0x30 => Some(OpCode::describe(0x30, Operation::Bmi, 2, 2, 0, AddressingMode::NoneAddressing)),
        0x31 => Some(OpCode::describe(0x31, Operation::And, 2, 5, 1, AddressingMode::Indirect_Y)),
        0x35 => Some(OpCode::describe(0x35, Operation::And, 2, 4, 0, AddressingMode::ZeroPage_X)),
        0x36 => Some(OpCode::describe(0x36, Operation::Rol, 2, 6, 0, AddressingMode::ZeroPage_X)),
        0x38 => Some(OpCode::describe(0x38, Operation::Sec, 1, 2, 0, AddressingMode::NoneAddressing)),
        0x39 => Some(OpCode::describe(0x39, Operation::And, 3, 4, 1, AddressingMode::Absolute_Y)),
        0x3D => Some(OpCode::describe(0x3D, Operation::And, 3, 4, 1, AddressingMode::Absolute_X)),
        0x3E => Some(OpCode::describe(0x3E, Operation::Rol, 3, 7, 0, AddressingMode::Absolute_X)),
        0x40 => Some(OpCode::describe(0x40, Operation::Rti, 1, 6, 0, AddressingMode::NoneAddressing)),
        0x41 => Some(OpCode::describe(0x41, Operation::Eor, 2, 6, 0, AddressingMode::Indirect_X)),
        0x45 => Some(OpCode::describe(0x45, Operation::Eor, 2, 3, 0, AddressingMode::ZeroPage)),
        0x46 => Some(OpCode::describe(0x46, Operation::Lsr, 2, 5, 0, AddressingMode::ZeroPage)),
        0x48 => Some(OpCode::describe(0x48, Operation::Pha, 1, 3, 0, AddressingMode::NoneAddressing)),
        0x49 => Some(OpCode::describe(0x49, Operation::Eor, 2, 2, 0, AddressingMode::Immediate)),
        0x4A => Some(OpCode::describe(0x4A, Operation::Lsr, 1, 2, 0, AddressingMode::NoneAddressing)),
        0x4C => Some(OpCode::describe(0x4C, Operation::Jmp, 3, 3, 0, AddressingMode::Absolute)),
        0x4D => Some(OpCode::describe(0x4D, Operation::Eor, 3, 4, 0, AddressingMode::Absolute)),
        0x4E => Some(OpCode::describe(0x4E, Operation::Lsr, 3, 6, 0, AddressingMode::Absolute)),
        0x50 => Some(OpCode::describe(0x50, Operation::Bvc, 2, 2, 0, AddressingMode::NoneAddressing)),
        0x51 => Some(OpCode::describe(0x51, Operation::Eor, 2, 5, 1, AddressingMode::Indirect_Y)),
        0x55 => Some(OpCode::describe(0x55, Operation::Eor, 2, 4, 0, AddressingMode::ZeroPage_X)),
        0x56 => Some(OpCode::describe(0x56, Operation::Lsr, 2, 6, 0, AddressingMode::ZeroPage_X)),
        0x58 => Some(OpCode::describe(0x58, Operation::Cli, 1, 2, 0, AddressingMode::NoneAddressing)),
        0x59 => Some(OpCode::describe(0x59, Operation::Eor, 3, 4, 1, AddressingMode::Absolute_Y)),
        0x5D => Some(OpCode::describe(0x5D, Operation::Eor, 3, 4, 1, AddressingMode::Absolute_X)),
        0x5E => Some(OpCode::describe(0x5E, Operation::Lsr, 3, 7, 0, AddressingMode::Absolute_X)),
        0x60 => Some(OpCode::describe(0x60, Operation::Rts, 1, 6, 0, AddressingMode::NoneAddressing)),
        0x61 => Some(OpCode::describe(0x61, Operation::Adc, 2, 6, 0, AddressingMode::Indirect_X)),
        0x65 => Some(OpCode::describe(0x65, Operation::Adc, 2, 3, 0, AddressingMode::ZeroPage)),
        0x66 => Some(OpCode::describe(0x66, Operation::Ror, 2, 5, 0, AddressingMode::ZeroPage)),
        0x68 => Some(OpCode::describe(0x68, Operation::Pla, 1, 4, 0, AddressingMode::NoneAddressing)),
        0x69 => Some(OpCode::describe(0x69, Operation::Adc, 2, 2, 0, AddressingMode::Immediate)),
        0x6A => Some(OpCode::describe(0x6A, Operation::Ror, 1, 2, 0, AddressingMode::NoneAddressing)),
        0x6C => Some(OpCode::describe(0x6C, Operation::Jmp, 3, 5, 0, AddressingMode::NoneAddressing)),
        0x6D => Some(OpCode::describe(0x6D, Operation::Adc, 3, 4, 0, AddressingMode::Absolute)),
        0x6E => Some(OpCode::describe(0x6E, Operation::Ror, 3, 6, 0, AddressingMode::Absolute)),
        0x70 => Some(OpCode::describe(0x70, Operation::Bvs, 2, 2, 0, AddressingMode::NoneAddressing)),
        0x71 => Some(OpCode::describe(0x71, Operation::Adc, 2, 5, 1, AddressingMode::Indirect_Y)),
        0x75 => Some(OpCode::describe(0x75, Operation::Adc, 2, 4, 0, AddressingMode::ZeroPage_X)),
        0x76 => Some(OpCode::describe(0x76, Operation::Ror, 2, 6, 0, AddressingMode::ZeroPage_X)),
        0x78 => Some(OpCode::describe(0x78, Operation::Sei, 1, 2, 0, AddressingMode::NoneAddressing)),
        0x79 => Some(OpCode::describe(0x79, Operation::Adc, 3, 4, 1, AddressingMode::Absolute_Y)),
        0x7D => Some(OpCode::describe(0x7D, Operation::Adc, 3, 4, 1, AddressingMode::Absolute_X)),
        0x7E => Some(OpCode::describe(0x7E, Operation::Ror, 3, 7, 0, AddressingMode::Absolute_X)),
        0x81 => Some(OpCode::describe(0x81, Operation::Sta, 2, 6, 0, AddressingMode::Indirect_X)),
        0x84 => Some(OpCode::describe(0x84, Operation::Sty, 2, 3, 0, AddressingMode::ZeroPage)),
        0x85 => Some(OpCode::describe(0x85, Operation::Sta, 2, 3, 0, AddressingMode::ZeroPage)),
        0x86 => Some(OpCode::describe(0x86, Operation::Stx, 2, 3, 0, AddressingMode::ZeroPage)),
        0x88 => Some(OpCode::describe(0x88, Operation::Dey, 1, 2, 0, AddressingMode::NoneAddressing)),
        0x8A => Some(OpCode::describe(0x8A, Operation::Txa, 1, 2, 0, AddressingMode::NoneAddressing)),
        0x8C => Some(OpCode::describe(0x8C, Operation::Sty, 3, 4, 0, AddressingMode::Absolute)),
        0x8D => Some(OpCode::describe(0x8D, Operation::Sta, 3, 4, 0, AddressingMode::Absolute)),
        0x8E => Some(OpCode::describe(0x8E, Operation::Stx, 3, 4, 0, AddressingMode::Absolute)),
        0x90 => Some(OpCode::describe(0x90, Operation::Bcc, 2, 2, 0, AddressingMode::NoneAddressing)),
        0x91 => Some(OpCode::describe(0x91, Operation::Sta, 2, 6, 0, AddressingMode::Indirect_Y)),
        0x94 => Some(OpCode::describe(0x94, Operation::Sty, 2, 4, 0, AddressingMode::ZeroPage_X)),
        0x95 => Some(OpCode::describe(0x95, Operation::Sta, 2, 4, 0, AddressingMode::ZeroPage_X)),
        0x96 => Some(OpCode::describe(0x96, Operation::Stx, 2, 4, 0, AddressingMode::ZeroPage_Y)),
        0x98 => Some(OpCode::describe(0x98, Operation::Tya, 1, 2, 0, AddressingMode::NoneAddressing)),
        0x99 => Some(OpCode::describe(0x99, Operation::Sta, 3, 5, 0, AddressingMode::Absolute_Y)),
        0x9A => Some(OpCode::describe(0x9A, Operation::Txs, 1, 2, 0, AddressingMode::NoneAddressing)),
        0x9D => Some(OpCode::describe(0x9D, Operation::Sta, 3, 5, 0, AddressingMode::Absolute_X)),
        0xA0 => Some(OpCode::describe(0xA0, Operation::Ldy, 2, 2, 0, AddressingMode::Immediate)),
        0xA1 => Some(OpCode::describe(0xA1, Operation::Lda, 2, 6, 0, AddressingMode::Indirect_X)),
        0xA2 => Some(OpCode::describe(0xA2, Operation::Ldx, 2, 2, 0, AddressingMode::Immediate)),
        0xA4 => Some(OpCode::describe(0xA4, Operation::Ldy, 2, 3, 0, AddressingMode::ZeroPage)),
        0xA5 => Some(OpCode::describe(0xA5, Operation::Lda, 2, 3, 0, AddressingMode::ZeroPage)),
        0xA6 => Some(OpCode::describe(0xA6, Operation::Ldx, 2, 3, 0, AddressingMode::ZeroPage)),
        0xA8 => Some(OpCode::describe(0xA8, Operation::Tay, 1, 2, 0, AddressingMode::NoneAddressing)),
        0xA9 => Some(OpCode::describe(0xA9, Operation::Lda, 2, 2, 0, AddressingMode::Immediate)),
        0xAA => Some(OpCode::describe(0xAA, Operation::Tax, 1, 2, 0, AddressingMode::NoneAddressing)),
        0xAC => Some(OpCode::describe(0xAC, Operation::Ldy, 3, 4, 0, AddressingMode::Absolute)),
        0xAD => Some(OpCode::describe(0xAD, Operation::Lda, 3, 4, 0, AddressingMode::Absolute)),
        0xAE => Some(OpCode::describe(0xAE, Operation::Ldx, 3, 4, 0, AddressingMode::Absolute)),
        0xB0 => Some(OpCode::describe(0xB0, Operation::Bcs, 2, 2, 0, AddressingMode::NoneAddressing)),
        0xB1 => Some(OpCode::describe(0xB1, Operation::Lda, 2, 5, 1, AddressingMode::Indirect_Y)),
        0xB4 => Some(OpCode::describe(0xB4, Operation::Ldy, 2, 4, 0, AddressingMode::ZeroPage_X)),
        0xB5 => Some(OpCode::describe(0xB5, Operation::Lda, 2, 4, 0, AddressingMode::ZeroPage_X)),
        0xB6 => Some(OpCode::describe(0xB6, Operation::Ldx, 2, 4, 0, AddressingMode::ZeroPage_Y)),
        0xB8 => Some(OpCode::describe(0xB8, Operation::Clv, 1, 2, 0, AddressingMode::NoneAddressing)),
        0xB9 => Some(OpCode::describe(0xB9, Operation::Lda, 3, 4, 1, AddressingMode::Absolute_Y)),
        0xBA => Some(OpCode::describe(0xBA, Operation::Tsx, 1, 2, 0, AddressingMode::NoneAddressing)),
        0xBC => Some(OpCode::describe(0xBC, Operation::Ldy, 3, 4, 1, AddressingMode::Absolute_X)),
        0xBD => Some(OpCode::describe(0xBD, Operation::Lda, 3, 4, 1, AddressingMode::Absolute_X)),
        0xBE => Some(OpCode::describe(0xBE, Operation::Ldx, 3, 4, 1, AddressingMode::Absolute_Y)),
        0xC0 => Some(OpCode::describe(0xC0, Operation::Cpy, 2, 2, 0, AddressingMode::Immediate)),
        0xC1 => Some(OpCode::describe(0xC1, Operation::Cmp, 2, 6, 0, AddressingMode::Indirect_X)),
        0xC4 => Some(OpCode::describe(0xC4, Operation::Cpy, 2, 3, 0, AddressingMode::ZeroPage)),
        0xC5 => Some(OpCode::describe(0xC5, Operation::Cmp, 2, 3, 0, AddressingMode::ZeroPage)),
        0xC6 => Some(OpCode::describe(0xC6, Operation::Dec, 2, 5, 0, AddressingMode::ZeroPage)),
        0xC8 => Some(OpCode::describe(0xC8, Operation::Iny, 1, 2, 0, AddressingMode::NoneAddressing)),
        0xC9 => Some(OpCode::describe(0xC9, Operation::Cmp, 2, 2, 0, AddressingMode::Immediate)),
        0xCA => Some(OpCode::describe(0xCA, Operation::Dex, 1, 2, 0, AddressingMode::NoneAddressing)),
        0xCC => Some(OpCode::describe(0xCC, Operation::Cpy, 3, 4, 0, AddressingMode::Absolute)),
        0xCD => Some(OpCode::describe(0xCD, Operation::Cmp, 3, 4, 0, AddressingMode::Absolute)),
        0xCE => Some(OpCode::describe(0xCE, Operation::Dec, 3, 6, 0, AddressingMode::Absolute)),
        0xD0 => Some(OpCode::describe(0xD0, Operation::Bne, 2, 2, 0, AddressingMode::NoneAddressing)),
        0xD1 => Some(OpCode::describe(0xD1, Operation::Cmp, 2, 5, 1, AddressingMode::Indirect_Y)),
        0xD5 => Some(OpCode::describe(0xD5, Operation::Cmp, 2, 4, 0, AddressingMode::ZeroPage_X)),
        0xD6 => Some(OpCode::describe(0xD6, Operation::Dec, 2, 6, 0, AddressingMode::ZeroPage_X)),
        0xD8 => Some(OpCode::describe(0xD8, Operation::Cld, 1, 2, 0, AddressingMode::NoneAddressing)),
        0xD9 => Some(OpCode::describe(0xD9, Operation::Cmp, 3, 4, 1, AddressingMode::Absolute_Y)),
        0xDD => Some(OpCode::describe(0xDD, Operation::Cmp, 3, 4, 1, AddressingMode::Absolute_X)),
        0xDE => Some(OpCode::describe(0xDE, Operation::Dec, 3, 7, 0, AddressingMode::Absolute_X)),
        0xE0 => Some(OpCode::describe(0xE0, Operation::Cpx, 2, 2, 0, AddressingMode::Immediate)),
        0xE1 => Some(OpCode::describe(0xE1, Operation::Sbc, 2, 6, 0, AddressingMode::Indirect_X)),
        0xE4 => Some(OpCode::describe(0xE4, Operation::Cpx, 2, 3, 0, AddressingMode::ZeroPage)),
        0xE5 => Some(OpCode::describe(0xE5, Operation::Sbc, 2, 3, 0, AddressingMode::ZeroPage)),
        0xE6 => Some(OpCode::describe(0xE6, Operation::Inc, 2, 5, 0, AddressingMode::ZeroPage)),
        0xE8 => Some(OpCode::describe(0xE8, Operation::Inx, 1, 2, 0, AddressingMode::NoneAddressing)),
        0xE9 => Some(OpCode::describe(0xE9, Operation::Sbc, 2, 2, 0, AddressingMode::Immediate)),
        0xEA => Some(OpCode::describe(0xEA, Operation::Nop, 1, 2, 0, AddressingMode::NoneAddressing)),
        0xEC => Some(OpCode::describe(0xEC, Operation::Cpx, 3, 4, 0, AddressingMode::Absolute)),
        0xED => Some(OpCode::describe(0xED, Operation::Sbc, 3, 4, 0, AddressingMode::Absolute)),
        0xEE => Some(OpCode::describe(0xEE, Operation::Inc, 3, 6, 0, AddressingMode::Absolute)),
        0xF0 => Some(OpCode::describe(0xF0, Operation::Beq, 2, 2, 0, AddressingMode::NoneAddressing)),
        0xF1 => Some(OpCode::describe(0xF1, Operation::Sbc, 2, 5, 1, AddressingMode::Indirect_Y)),
        0xF5 => Some(OpCode::describe(0xF5, Operation::Sbc, 2, 4, 0, AddressingMode::ZeroPage_X)),
        0xF6 => Some(OpCode::describe(0xF6, Operation::Inc, 2, 6, 0, AddressingMode::ZeroPage_X)),
        0xF8 => Some(OpCode::describe(0xF8, Operation::Sed, 1, 2, 0, AddressingMode::NoneAddressing)),
        0xF9 => Some(OpCode::describe(0xF9, Operation::Sbc, 3, 4, 1, AddressingMode::Absolute_Y)),
        0xFD => Some(OpCode::describe(0xFD, Operation::Sbc, 3, 4, 1, AddressingMode::Absolute_X)),
        0xFE => Some(OpCode::describe(0xFE, Operation::Inc, 3, 7, 0, AddressingMode::Absolute_X)),
        _ => None,
    }
}

/// Every descriptor of the table is filed under its own code and is well
/// formed; so no code has two descriptors.
pub proof fn lemma_table_well_formed(code: u8)
    ensures
        opcode_table(code) matches Some(op) ==> op.code == code && op.well_formed(),
{
}

/// The operation of an opcode of the form `aaabbb01`, by `aaa`.
pub open spec fn group_one_operation(aaa: int) -> Operation {
    if aaa == 0 {
        Operation::Ora
    } else if aaa == 1 {
        Operation::And
    } else if aaa == 2 {
        Operation::Eor
    } else if aaa == 3 {
        Operation::Adc
    } else if aaa == 4 {
        Operation::Sta
    } else if aaa == 5 {
        Operation::Lda
    } else if aaa == 6 {
        Operation::Cmp
    } else {
        Operation::Sbc
    }
}

/// The addressing mode of an opcode of the form `aaabbb01`, by `bbb`.
pub open spec fn group_one_mode(bbb: int) -> AddressingMode {
    if bbb == 0 {
        AddressingMode::Indirect_X
    } else if bbb == 1 {
        AddressingMode::ZeroPage
    } else if bbb == 2 {
        AddressingMode::Immediate
    } else if bbb == 3 {
        AddressingMode::Absolute
    } else if bbb == 4 {
        AddressingMode::Indirect_Y
    } else if bbb == 5 {
        AddressingMode::ZeroPage_X
    } else if bbb == 6 {
        AddressingMode::Absolute_Y
    } else {
        AddressingMode::Absolute_X
    }
}

/// The branch of an opcode of the form `xxy10000`: `xx` selects the flag
/// (negative, overflow, carry, zero) and `y` the value it is tested for.
pub open spec fn branch_operation(xxy: int) -> Operation {
    if xxy == 0 {
        Operation::Bpl
    } else if xxy == 1 {
        Operation::Bmi
    } else if xxy == 2 {
        Operation::Bvc
    } else if xxy == 3 {
        Operation::Bvs
    } else if xxy == 4 {
        Operation::Bcc
    } else if xxy == 5 {
        Operation::Bcs
    } else if xxy == 6 {
        Operation::Bne
    } else {
        Operation::Beq
    }
}

/// The table follows the layout of the instruction set. An opcode of the
/// form `aaabbb01` is the operation that `aaa` selects under the mode that
/// `bbb` selects; the one exception is 89, a store to an immediate operand,
/// which is no instruction. An opcode of the form `xxy10000` is a branch.
/// No opcode ends in the bits `11`.
pub proof fn lemma_table_layout(code: u8)
    ensures
        code % 4 == 1 && code != 0x89 ==> (opcode_table(code) matches Some(op)
            && op.operation == group_one_operation(code as int / 32) && op.mode == group_one_mode(
            code as int / 4 % 8,
        )),
        code % 32 == 16 ==> (opcode_table(code) matches Some(op) && op.operation
            == branch_operation(code as int / 32) && op.mode == AddressingMode::NoneAddressing),
        code % 4 == 3 || code == 0x89 ==> opcode_table(code) is None,
{
}

/// Looks up the descriptor of `code`.
pub fn map_ops_code(code: u8) -> (found: Option<OpCode>)
    ensures
        found == opcode_table(code),
        found matches Some(op) ==> op.code == code && op.well_formed(),
{
    proof {
        lemma_table_well_formed(code);
    }
    match code {
        0x00 => Some(OpCode::new(0x00, Operation::Brk, 1, 7, 0, AddressingMode::NoneAddressing)),
        0x01 => Some(OpCode::new(0x01, Operation::Ora, 2, 6, 0, AddressingMode::Indirect_X)),
        0x05 => Some(OpCode::new(0x05, Operation::Ora, 2, 3, 0, AddressingMode::ZeroPage)),
        0x06 => Some(OpCode::new(0x06, Operation::Asl, 2, 5, 0, AddressingMode::ZeroPage)),
        0x08 => Some(OpCode::new(0x08, Operation::Php, 1, 3, 0, AddressingMode::NoneAddressing)),
        0x09 => Some(OpCode::new(0x09, Operation::Ora, 2, 2, 0, AddressingMode::Immediate)),
        0x0A => Some(OpCode::new(0x0A, Operation::Asl, 1, 2, 0, AddressingMode::NoneAddressing)),
        0x0D => Some(OpCode::new(0x0D, Operation::Ora, 3, 4, 0, AddressingMode::Absolute)),
        0x0E => Some(OpCode::new(0x0E, Operation::Asl, 3, 6, 0, AddressingMode::Absolute)),
        0x10 => Some(OpCode::new(0x10, Operation::Bpl, 2, 2, 0, AddressingMode::NoneAddressing)),
        0x11 => Some(OpCode::new(0x11, Operation::Ora, 2, 5, 1, AddressingMode::Indirect_Y)),
        0x15 => Some(OpCode::new(0x15, Operation::Ora, 2, 4, 0, AddressingMode::ZeroPage_X)),
        0x16 => Some(OpCode::new(0x16, Operation::Asl, 2, 6, 0, AddressingMode::ZeroPage_X)),
        0x18 => Some(OpCode::new(0x18, Operation::Clc, 1, 2, 0, AddressingMode::NoneAddressing)),
        0x19 => Some(OpCode::new(0x19, Operation::Ora, 3, 4, 1, AddressingMode::Absolute_Y)),
        0x1D => Some(OpCode::new(0x1D, Operation::Ora, 3, 4, 1, AddressingMode::Absolute_X)),
        0x1E => Some(OpCode::new(0x1E, Operation::Asl, 3, 7, 0, AddressingMode::Absolute_X)),
        0x20 => Some(OpCode::new(0x20, Operation::Jsr, 3, 6, 0, AddressingMode::Absolute)),
        0x21 => Some(OpCode::new(0x21, Operation::And, 2, 6, 0, AddressingMode::Indirect_X)),
        0x24 => Some(OpCode::new(0x24, Operation::Bit, 2, 3, 0, AddressingMode::ZeroPage)),
        0x25 => Some(OpCode::new(0x25, Operation::And, 2, 3, 0, AddressingMode::ZeroPage)),
        0x26 => Some(OpCode::new(0x26, Operation::Rol, 2, 5, 0, AddressingMode::ZeroPage)),
        0x28 => Some(OpCode::new(0x28, Operation::Plp, 1, 4, 0, AddressingMode::NoneAddressing)),
        0x29 => Some(OpCode::new(0x29, Operation::And, 2, 2, 0, AddressingMode::Immediate)),
        0x2A => Some(OpCode::new(0x2A, Operation::Rol, 1, 2, 0, AddressingMode::NoneAddressing)),
        0x2C => Some(OpCode::new(0x2C, Operation::Bit, 3, 4, 0, AddressingMode::Absolute)),
        0x2D => Some(OpCode::new(0x2D, Operation::And, 3, 4, 0, AddressingMode::Absolute)),
        0x2E => Some(OpCode::new(0x2E, Operation::Rol, 3, 6, 0, AddressingMode::Absolute)),
        0x30 => Some(OpCode::new(0x30, Operation::Bmi, 2, 2, 0, AddressingMode::NoneAddressing)),
        0x31 => Some(OpCode::new(0x31, Operation::And, 2, 5, 1, AddressingMode::Indirect_Y)),
        0x35 => Some(OpCode::new(0x35, Operation::And, 2, 4, 0, AddressingMode::ZeroPage_X)),
        0x36 => Some(OpCode::new(0x36, Operation::Rol, 2, 6, 0, AddressingMode::ZeroPage_X)),
        0x38 => Some(OpCode::new(0x38, Operation::Sec, 1, 2, 0, AddressingMode::NoneAddressing)),
        0x39 => Some(OpCode::new(0x39, Operation::And, 3, 4, 1, AddressingMode::Absolute_Y)),
        0x3D => Some(OpCode::new(0x3D, Operation::And, 3, 4, 1, AddressingMode::Absolute_X)),
        0x3E => Some(OpCode::new(0x3E, Operation::Rol, 3, 7, 0, AddressingMode::Absolute_X)),
        0x40 => Some(OpCode::new(0x40, Operation::Rti, 1, 6, 0, AddressingMode::NoneAddressing)),
        0x41 => Some(OpCode::new(0x41, Operation::Eor, 2, 6, 0, AddressingMode::Indirect_X)),
        0x45 => Some(OpCode::new(0x45, Operation::Eor, 2, 3, 0, AddressingMode::ZeroPage)),
        0x46 => Some(OpCode::new(0x46, Operation::Lsr, 2, 5, 0, AddressingMode::ZeroPage)),
        0x48 => Some(OpCode::new(0x48, Operation::Pha, 1, 3, 0, AddressingMode::NoneAddressing)),
        0x49 => Some(OpCode::new(0x49, Operation::Eor, 2, 2, 0, AddressingMode::Immediate)),
        0x4A => Some(OpCode::new(0x4A, Operation::Lsr, 1, 2, 0, AddressingMode::NoneAddressing)),
        0x4C => Some(OpCode::new(0x4C, Operation::Jmp, 3, 3, 0, AddressingMode::Absolute)),
        0x4D => Some(OpCode::new(0x4D, Operation::Eor, 3, 4, 0, AddressingMode::Absolute)),
        0x4E => Some(OpCode::new(0x4E, Operation::Lsr, 3, 6, 0, AddressingMode::Absolute)),
        0x50 => Some(OpCode::new(0x50, Operation::Bvc, 2, 2, 0, AddressingMode::NoneAddressing)),
        0x51 => Some(OpCode::new(0x51, Operation::Eor, 2, 5, 1, AddressingMode::Indirect_Y)),
        0x55 => Some(OpCode::new(0x55, Operation::Eor, 2, 4, 0, AddressingMode::ZeroPage_X)),
        0x56 => Some(OpCode::new(0x56, Operation::Lsr, 2, 6, 0, AddressingMode::ZeroPage_X)),
        0x58 => Some(OpCode::new(0x58, Operation::Cli, 1, 2, 0, AddressingMode::NoneAddressing)),
        0x59 => Some(OpCode::new(0x59, Operation::Eor, 3, 4, 1, AddressingMode::Absolute_Y)),
        0x5D => Some(OpCode::new(0x5D, Operation::Eor, 3, 4, 1, AddressingMode::Absolute_X)),
        0x5E => Some(OpCode::new(0x5E, Operation::Lsr, 3, 7, 0, AddressingMode::Absolute_X)),
        0x60 => Some(OpCode::new(0x60, Operation::Rts, 1, 6, 0, AddressingMode::NoneAddressing)),
        0x61 => Some(OpCode::new(0x61, Operation::Adc, 2, 6, 0, AddressingMode::Indirect_X)),
        0x65 => Some(OpCode::new(0x65, Operation::Adc, 2, 3, 0, AddressingMode::ZeroPage)),
        0x66 => Some(OpCode::new(0x66, Operation::Ror, 2, 5, 0, AddressingMode::ZeroPage)),
        0x68 => Some(OpCode::new(0x68, Operation::Pla, 1, 4, 0, AddressingMode::NoneAddressing)),
        0x69 => Some(OpCode::new(0x69, Operation::Adc, 2, 2, 0, AddressingMode::Immediate)),
        0x6A => Some(OpCode::new(0x6A, Operation::Ror, 1, 2, 0, AddressingMode::NoneAddressing)),
        0x6C => Some(OpCode::new(0x6C, Operation::Jmp, 3, 5, 0, AddressingMode::NoneAddressing)),
        0x6D => Some(OpCode::new(0x6D, Operation::Adc, 3, 4, 0, AddressingMode::Absolute)),
        0x6E => Some(OpCode::new(0x6E, Operation::Ror, 3, 6, 0, AddressingMode::Absolute)),
        0x70 => Some(OpCode::new(0x70, Operation::Bvs, 2, 2, 0, AddressingMode::NoneAddressing)),
        0x71 => Some(OpCode::new(0x71, Operation::Adc, 2, 5, 1, AddressingMode::Indirect_Y)),
        0x75 => Some(OpCode::new(0x75, Operation::Adc, 2, 4, 0, AddressingMode::ZeroPage_X)),
        0x76 => Some(OpCode::new(0x76, Operation::Ror, 2, 6, 0, AddressingMode::ZeroPage_X)),
        0x78 => Some(OpCode::new(0x78, Operation::Sei, 1, 2, 0, AddressingMode::NoneAddressing)),
        0x79 => Some(OpCode::new(0x79, Operation::Adc, 3, 4, 1, AddressingMode::Absolute_Y)),
        0x7D => Some(OpCode::new(0x7D, Operation::Adc, 3, 4, 1, AddressingMode::Absolute_X)),
        0x7E => Some(OpCode::new(0x7E, Operation::Ror, 3, 7, 0, AddressingMode::Absolute_X)),
        0x81 => Some(OpCode::new(0x81, Operation::Sta, 2, 6, 0, AddressingMode::Indirect_X)),
        0x84 => Some(OpCode::new(0x84, Operation::Sty, 2, 3, 0, AddressingMode::ZeroPage)),
        0x85 => Some(OpCode::new(0x85, Operation::Sta, 2, 3, 0, AddressingMode::ZeroPage)),
        0x86 => Some(OpCode::new(0x86, Operation::Stx, 2, 3, 0, AddressingMode::ZeroPage)),
        0x88 => Some(OpCode::new(0x88, Operation::Dey, 1, 2, 0, AddressingMode::NoneAddressing)),
        0x8A => Some(OpCode::new(0x8A, Operation::Txa, 1, 2, 0, AddressingMode::NoneAddressing)),
        0x8C => Some(OpCode::new(0x8C, Operation::Sty, 3, 4, 0, AddressingMode::Absolute)),
        0x8D => Some(OpCode::new(0x8D, Operation::Sta, 3, 4, 0, AddressingMode::Absolute)),
        0x8E => Some(OpCode::new(0x8E, Operation::Stx, 3, 4, 0, AddressingMode::Absolute)),
        0x90 => Some(OpCode::new(0x90, Operation::Bcc, 2, 2, 0, AddressingMode::NoneAddressing)),
        0x91 => Some(OpCode::new(0x91, Operation::Sta, 2, 6, 0, AddressingMode::Indirect_Y)),
        0x94 => Some(OpCode::new(0x94, Operation::Sty, 2, 4, 0, AddressingMode::ZeroPage_X)),
        0x95 => Some(OpCode::new(0x95, Operation::Sta, 2, 4, 0, AddressingMode::ZeroPage_X)),
        0x96 => Some(OpCode::new(0x96, Operation::Stx, 2, 4, 0, AddressingMode::ZeroPage_Y)),
        0x98 => Some(OpCode::new(0x98, Operation::Tya, 1, 2, 0, AddressingMode::NoneAddressing)),
        0x99 => Some(OpCode::new(0x99, Operation::Sta, 3, 5, 0, AddressingMode::Absolute_Y)),
        0x9A => Some(OpCode::new(0x9A, Operation::Txs, 1, 2, 0, AddressingMode::NoneAddressing)),
        0x9D => Some(OpCode::new(0x9D, Operation::Sta, 3, 5, 0, AddressingMode::Absolute_X)),
        0xA0 => Some(OpCode::new(0xA0, Operation::Ldy, 2, 2, 0, AddressingMode::Immediate)),
        0xA1 => Some(OpCode::new(0xA1, Operation::Lda, 2, 6, 0, AddressingMode::Indirect_X)),
        0xA2 => Some(OpCode::new(0xA2, Operation::Ldx, 2, 2, 0, AddressingMode::Immediate)),
        0xA4 => Some(OpCode::new(0xA4, Operation::Ldy, 2, 3, 0, AddressingMode::ZeroPage)),
        0xA5 => Some(OpCode::new(0xA5, Operation::Lda, 2, 3, 0, AddressingMode::ZeroPage)),
        0xA6 => Some(OpCode::new(0xA6, Operation::Ldx, 2, 3, 0, AddressingMode::ZeroPage)),
        0xA8 => Some(OpCode::new(0xA8, Operation::Tay, 1, 2, 0, AddressingMode::NoneAddressing)),
        0xA9 => Some(OpCode::new(0xA9, Operation::Lda, 2, 2, 0, AddressingMode::Immediate)),
        0xAA => Some(OpCode::new(0xAA, Operation::Tax, 1, 2, 0, AddressingMode::NoneAddressing)),
        0xAC => Some(OpCode::new(0xAC, Operation::Ldy, 3, 4, 0, AddressingMode::Absolute)),
        0xAD => Some(OpCode::new(0xAD, Operation::Lda, 3, 4, 0, AddressingMode::Absolute)),
        0xAE => Some(OpCode::new(0xAE, Operation::Ldx, 3, 4, 0, AddressingMode::Absolute)),
        0xB0 => Some(OpCode::new(0xB0, Operation::Bcs, 2, 2, 0, AddressingMode::NoneAddressing)),
        0xB1 => Some(OpCode::new(0xB1, Operation::Lda, 2, 5, 1, AddressingMode::Indirect_Y)),
        0xB4 => Some(OpCode::new(0xB4, Operation::Ldy, 2, 4, 0, AddressingMode::ZeroPage_X)),
        0xB5 => Some(OpCode::new(0xB5, Operation::Lda, 2, 4, 0, AddressingMode::ZeroPage_X)),
        0xB6 => Some(OpCode::new(0xB6, Operation::Ldx, 2, 4, 0, AddressingMode::ZeroPage_Y)),
        0xB8 => Some(OpCode::new(0xB8, Operation::Clv, 1, 2, 0, AddressingMode::NoneAddressing)),
        0xB9 => Some(OpCode::new(0xB9, Operation::Lda, 3, 4, 1, AddressingMode::Absolute_Y)),
        0xBA => Some(OpCode::new(0xBA, Operation::Tsx, 1, 2, 0, AddressingMode::NoneAddressing)),
        0xBC => Some(OpCode::new(0xBC, Operation::Ldy, 3, 4, 1, AddressingMode::Absolute_X)),
        0xBD => Some(OpCode::new(0xBD, Operation::Lda, 3, 4, 1, AddressingMode::Absolute_X)),
        0xBE => Some(OpCode::new(0xBE, Operation::Ldx, 3, 4, 1, AddressingMode::Absolute_Y)),
        0xC0 => Some(OpCode::new(0xC0, Operation::Cpy, 2, 2, 0, AddressingMode::Immediate)),
        0xC1 => Some(OpCode::new(0xC1, Operation::Cmp, 2, 6, 0, AddressingMode::Indirect_X)),
        0xC4 => Some(OpCode::new(0xC4, Operation::Cpy, 2, 3, 0, AddressingMode::ZeroPage)),
        0xC5 => Some(OpCode::new(0xC5, Operation::Cmp, 2, 3, 0, AddressingMode::ZeroPage)),
        0xC6 => Some(OpCode::new(0xC6, Operation::Dec, 2, 5, 0, AddressingMode::ZeroPage)),
        0xC8 => Some(OpCode::new(0xC8, Operation::Iny, 1, 2, 0, AddressingMode::NoneAddressing)),
        0xC9 => Some(OpCode::new(0xC9, Operation::Cmp, 2, 2, 0, AddressingMode::Immediate)),
        0xCA => Some(OpCode::new(0xCA, Operation::Dex, 1, 2, 0, AddressingMode::NoneAddressing)),
        0xCC => Some(OpCode::new(0xCC, Operation::Cpy, 3, 4, 0, AddressingMode::Absolute)),
        0xCD => Some(OpCode::new(0xCD, Operation::Cmp, 3, 4, 0, AddressingMode::Absolute)),
        0xCE => Some(OpCode::new(0xCE, Operation::Dec, 3, 6, 0, AddressingMode::Absolute)),
        0xD0 => Some(OpCode::new(0xD0, Operation::Bne, 2, 2, 0, AddressingMode::NoneAddressing)),
        0xD1 => Some(OpCode::new(0xD1, Operation::Cmp, 2, 5, 1, AddressingMode::Indirect_Y)),
        0xD5 => Some(OpCode::new(0xD5, Operation::Cmp, 2, 4, 0, AddressingMode::ZeroPage_X)),
        0xD6 => Some(OpCode::new(0xD6, Operation::Dec, 2, 6, 0, AddressingMode::ZeroPage_X)),
        0xD8 => Some(OpCode::new(0xD8, Operation::Cld, 1, 2, 0, AddressingMode::NoneAddressing)),
        0xD9 => Some(OpCode::new(0xD9, Operation::Cmp, 3, 4, 1, AddressingMode::Absolute_Y)),
        0xDD => Some(OpCode::new(0xDD, Operation::Cmp, 3, 4, 1, AddressingMode::Absolute_X)),
        0xDE => Some(OpCode::new(0xDE, Operation::Dec, 3, 7, 0, AddressingMode::Absolute_X)),
        0xE0 => Some(OpCode::new(0xE0, Operation::Cpx, 2, 2, 0, AddressingMode::Immediate)),
        0xE1 => Some(OpCode::new(0xE1, Operation::Sbc, 2, 6, 0, AddressingMode::Indirect_X)),
        0xE4 => Some(OpCode::new(0xE4, Operation::Cpx, 2, 3, 0, AddressingMode::ZeroPage)),
        0xE5 => Some(OpCode::new(0xE5, Operation::Sbc, 2, 3, 0, AddressingMode::ZeroPage)),
        0xE6 => Some(OpCode::new(0xE6, Operation::Inc, 2, 5, 0, AddressingMode::ZeroPage)),
        0xE8 => Some(OpCode::new(0xE8, Operation::Inx, 1, 2, 0, AddressingMode::NoneAddressing)),
        0xE9 => Some(OpCode::new(0xE9, Operation::Sbc, 2, 2, 0, AddressingMode::Immediate)),
        0xEA => Some(OpCode::new(0xEA, Operation::Nop, 1, 2, 0, AddressingMode::NoneAddressing)),
        0xEC => Some(OpCode::new(0xEC, Operation::Cpx, 3, 4, 0, AddressingMode::Absolute)),
        0xED => Some(OpCode::new(0xED, Operation::Sbc, 3, 4, 0, AddressingMode::Absolute)),
        0xEE => Some(OpCode::new(0xEE, Operation::Inc, 3, 6, 0, AddressingMode::Absolute)),
        0xF0 => Some(OpCode::new(0xF0, Operation::Beq, 2, 2, 0, AddressingMode::NoneAddressing)),
        0xF1 => Some(OpCode::new(0xF1, Operation::Sbc, 2, 5, 1, AddressingMode::Indirect_Y)),
        0xF5 => Some(OpCode::new(0xF5, Operation::Sbc, 2, 4, 0, AddressingMode::ZeroPage_X)),
        0xF6 => Some(OpCode::new(0xF6, Operation::Inc, 2, 6, 0, AddressingMode::ZeroPage_X)),
        0xF8 => Some(OpCode::new(0xF8, Operation::Sed, 1, 2, 0, AddressingMode::NoneAddressing)),
        0xF9 => Some(OpCode::new(0xF9, Operation::Sbc, 3, 4, 1, AddressingMode::Absolute_Y)),
        0xFD => Some(OpCode::new(0xFD, Operation::Sbc, 3, 4, 1, AddressingMode::Absolute_X)),
        0xFE => Some(OpCode::new(0xFE, Operation::Inc, 3, 7, 0, AddressingMode::Absolute_X)),
        _ => None,
    }
}

} // verus!
