//! The decode-execute loop.
//!
//! One step fetches the byte at the program counter, looks it up in the
//! instruction set, runs the handler of its operation and moves the program
//! counter past the instruction unless the handler moved it. The run
//! functions repeat that step until the machine halts at a BRK, meets a byte
//! that encodes no instruction, or has executed as many instructions as the
//! caller allows.

use crate::cpu::{AddressingMode, CPU};
use crate::opcode::{map_ops_code, opcode_table, Operation};
use crate::state::{CpuState, MAX_PROGRAM_LEN, RESET_VECTOR};
use vstd::prelude::*;

verus! {

/// Whether the machine can go on.
#[derive(Debug, Clone, Copy, PartialEq, Eq, Structural)]
pub enum Status {
    /// The last instruction was executed and another can follow.
    Running,
    /// A BRK was fetched: the run is over.
    Halted,
}

/// Why the machine cannot go on.
#[derive(Debug, Clone, Copy, PartialEq, Eq, Structural)]
pub enum CpuError {
    /// The byte at `program_counter` encodes no instruction.
    UnrecognizedOpcode { opcode: u8, program_counter: u16 },
}

/// A hook that is called before each instruction is fetched. It may read and
/// change the whole machine; the fetch that follows sees what it left.
pub trait Observer {
    /// Looks at the machine, and changes it at will, before the next fetch.
    fn observe(&mut self, cpu: &mut CPU);
}

impl CpuState {
    /// The state after the handler of `operation` has run under `mode`.
    pub open spec fn execute(self, operation: Operation, mode: AddressingMode) -> CpuState {
        match operation {
            Operation::Adc => self.adc(mode),
            Operation::And => self.and(mode),
            Operation::Asl => self.asl(mode),
            Operation::Bcc => self.bcc(),
            Operation::Bcs => self.bcs(),
            Operation::Beq => self.beq(),
            Operation::Bit => self.bit(mode),
            Operation::Bmi => self.bmi(),
            Operation::Bne => self.bne(),
            Operation::Bpl => self.bpl(),
            Operation::Brk => self,
            Operation::Bvc => self.bvc(),
            Operation::Bvs => self.bvs(),
            Operation::Clc => self.clc(),
            Operation::Cld => self.cld(),
            Operation::Cli => self.cli(),
            Operation::Clv => self.clv(),
            Operation::Cmp => self.cmp(mode),
            Operation::Cpx => self.cpx(mode),
            Operation::Cpy => self.cpy(mode),
            Operation::Dec => self.dec(mode),
            Operation::Dex => self.dex(),
            Operation::Dey => self.dey(),
            Operation::Eor => self.eor(mode),
            Operation::Inc => self.inc(mode),
            Operation::Inx => self.inx(),
            Operation::Iny => self.iny(),
            Operation::Jmp => if mode == AddressingMode::Absolute {
                self.jmp_abs()
            } else {
                self.jmp_ind()
            },
            Operation::Jsr => self.jsr(),
            Operation::Lda => self.lda(mode),
            Operation::Ldx => self.ldx(mode),
            Operation::Ldy => self.ldy(mode),
            Operation::Lsr => self.lsr(mode),
            Operation::Nop => self,
            Operation::Ora => self.ora(mode),
            Operation::Pha => self.pha(),
            Operation::Php => self.php(),
            Operation::Pla => self.pla(),
            Operation::Plp => self.plp(),
            Operation::Rol => self.rol(mode),
            Operation::Ror => self.ror(mode),
            Operation::Rti => self.rti(),
            Operation::Rts => self.rts(),
            Operation::Sbc => self.sbc(mode),
            Operation::Sec => self.sec(),
            Operation::Sed => self.sed(),
            Operation::Sei => self.sei(),
            Operation::Sta => self.sta(mode),
            Operation::Stx => self.stx(mode),
            Operation::Sty => self.sty(mode),
            Operation::Tax => self.tax(),
            Operation::Tay => self.tay(),
            Operation::Tsx => self.tsx(),
            Operation::Txa => self.txa(),
            Operation::Txs => self.txs(),
            Operation::Tya => self.tya(),
        }
    }

    /// The state once the opcode byte has been consumed.
    pub open spec fn fetched(self) -> CpuState {
        CpuState { pc: self.pc.wrapping_add(1), ..self }
    }

    /// The state once an instruction of `len` bytes is done: where the
    /// program counter still stands at `operand_address`, right after the
    /// opcode, it moves past the operand; where the handler moved it, it
    /// stays.
    pub open spec fn advanced(self, operand_address: u16, len: u8) -> CpuState {
        if self.pc == operand_address {
            CpuState { pc: self.pc.wrapping_add((len - 1) as u16), ..self }
        } else {
            self
        }
    }

    /// One instruction cycle: the state it leaves and how it ended.
    ///
    /// A byte that encodes no instruction leaves the state as it was and is
    /// reported with its address. BRK consumes its opcode byte and halts.
    /// Every other instruction is executed and the machine is still running.
    pub open spec fn step(self) -> (CpuState, Result<Status, CpuError>) {
        let code = self.read(self.pc);
        match opcode_table(code) {
            None => (
                self,
                Err(CpuError::UnrecognizedOpcode { opcode: code, program_counter: self.pc }),
            ),
            Some(op) => if op.operation == Operation::Brk {
                (self.fetched(), Ok(Status::Halted))
            } else {
                (
                    self.fetched().execute(op.operation, op.mode).advanced(
                        self.fetched().pc,
                        op.len,
                    ),
                    Ok(Status::Running),
                )
            },
        }
    }

    /// At most `max_instructions` instruction cycles, one after the other,
    /// stopping at the first that does not leave the machine running.
    pub open spec fn run(self, max_instructions: nat) -> (CpuState, Result<Status, CpuError>)
        decreases max_instructions,
    {
        if max_instructions == 0 {
            (self, Ok(Status::Running))
        } else {
            let (next, result) = self.step();
            if result == Ok::<Status, CpuError>(Status::Running) {
                next.run((max_instructions - 1) as nat)
            } else {
                (next, result)
            }
        }
    }

    /// The state in which a freshly loaded program starts: the program is in
    /// memory and the program counter is taken from the reset vector.
    pub open spec fn load_and_start(self, program: Seq<u8>) -> CpuState {
        let loaded = self.load(program);
        CpuState { pc: loaded.read_u16(RESET_VECTOR), ..loaded }
    }
}

impl CPU {
    /// Runs the handler of `operation` under `mode`.
    pub fn execute(&mut self, operation: Operation, mode: &AddressingMode)
        requires
            operation.has_memory_operand() ==> *mode != AddressingMode::NoneAddressing,
        ensures
            final(self)@ == old(self)@.execute(operation, *mode),
    {
        match operation {
            Operation::Brk | Operation::Nop => {},
            Operation::Adc
            | Operation::Sbc
            | Operation::Cmp
            | Operation::Cpx
            | Operation::Cpy
            | Operation::Inc
            | Operation::Dec
            | Operation::Inx
            | Operation::Iny
            | Operation::Dex
            | Operation::Dey => self.execute_arithmetic(operation, mode),
            Operation::And
            | Operation::Ora
            | Operation::Eor
            | Operation::Bit => self.execute_logic(operation, mode),
            Operation::Asl
            | Operation::Lsr
            | Operation::Rol
            | Operation::Ror => self.execute_shift(operation, mode),
            Operation::Lda
            | Operation::Ldx
            | Operation::Ldy
            | Operation::Sta
            | Operation::Stx
            | Operation::Sty
            | Operation::Tax
            | Operation::Tay
            | Operation::Tsx
            | Operation::Txa
            | Operation::Txs
            | Operation::Tya => self.execute_load_store(operation, mode),
            Operation::Pha
            | Operation::Php
            | Operation::Pla
            | Operation::Plp => self.execute_stack(operation, mode),
            Operation::Clc
            | Operation::Cld
            | Operation::Cli
            | Operation::Clv
            | Operation::Sec
            | Operation::Sed
            | Operation::Sei => self.execute_flag(operation, mode),
            Operation::Bcc
            | Operation::Bcs
            | Operation::Beq
            | Operation::Bmi
            | Operation::Bne
            | Operation::Bpl
            | Operation::Bvc
            | Operation::Bvs
            | Operation::Jmp
            | Operation::Jsr
            | Operation::Rts
            | Operation::Rti => self.execute_control(operation, mode),
        }
    }

    /// Moves the program counter past the operand of an instruction of `len`
    /// bytes, unless it no longer stands at `operand_address`.
    pub fn advance(&mut self, operand_address: u16, len: u8)
        requires
            len >= 1,
        ensures
            final(self)@ == old(self)@.advanced(operand_address, len),
    {
        if operand_address == self.program_counter {
            self.program_counter = self.program_counter.wrapping_add((len - 1) as u16);
        }
    }

    /// Executes one instruction.
    pub fn step(&mut self) -> (result: Result<Status, CpuError>)
        ensures
            (final(self)@, result) == old(self)@.step(),
    {
        let code = self.mem_read(self.program_counter);
        let opscode = match map_ops_code(code) {
            Some(opscode) => opscode,
            None => {
                return Err(
                    CpuError::UnrecognizedOpcode {
                        opcode: code,
                        program_counter: self.program_counter,
                    },
                );
            },
        };
        self.program_counter = self.program_counter.wrapping_add(1);
        let program_state = self.program_counter;

        match opscode.operation {
            Operation::Brk => {
                return Ok(Status::Halted);
            },
            _ => {
                self.execute(opscode.operation, &opscode.mode);
            },
        }

        self.advance(program_state, opscode.len);
        Ok(Status::Running)
    }

    /// Executes instructions until the machine halts, fails, or has executed
    /// `max_instructions` of them.
    pub fn run(&mut self, max_instructions: u64) -> (result: Result<Status, CpuError>)
        ensures
            (final(self)@, result) == old(self)@.run(max_instructions as nat),
    {
        let mut remaining = max_instructions;
        while remaining > 0
            invariant
                self@.run(remaining as nat) == old(self)@.run(max_instructions as nat),
            decreases remaining,
        {
            match self.step() {
                Ok(Status::Running) => {
                    remaining -= 1;
                },
                Ok(Status::Halted) => {
                    return Ok(Status::Halted);
                },
                Err(error) => {
                    return Err(error);
                },
            }
        }
        Ok(Status::Running)
    }

    /// Like `run`, but calls `observer` before each instruction is fetched.
    ///
    /// The observer may change the machine in any way, so the final state is
    /// known only through the last instruction cycle: unless no instruction
    /// was allowed, the state and the result are those of one step from the
    /// state that the last call of the observer left.
    pub fn run_with_callback<O: Observer>(
        &mut self,
        observer: &mut O,
        max_instructions: u64,
    ) -> (result: Result<Status, CpuError>)
        ensures
            max_instructions == 0 ==> final(self)@ == old(self)@ && result == Ok::<
                Status,
                CpuError,
            >(Status::Running),
            max_instructions > 0 ==> exists|observed: CpuState|
                observed.wf() && #[trigger] observed.step() == (final(self)@, result),
    {
        let mut remaining = max_instructions;
        while remaining > 0
            invariant
                remaining <= max_instructions,
                remaining == max_instructions ==> self@ == old(self)@,
                remaining < max_instructions ==> exists|observed: CpuState|
                    observed.wf() && #[trigger] observed.step() == (
                        self@,
                        Ok::<Status, CpuError>(Status::Running),
                    ),
            decreases remaining,
        {
            observer.observe(self);
            match self.step() {
                Ok(Status::Running) => {
                    remaining -= 1;
                },
                Ok(Status::Halted) => {
                    return Ok(Status::Halted);
                },
                Err(error) => {
                    return Err(error);
                },
            }
        }
        Ok(Status::Running)
    }

    /// Loads `program`, points the program counter at it and runs it.
    pub fn load_and_run(&mut self, program: Vec<u8>, max_instructions: u64) -> (result: Result<
        Status,
        CpuError,
    >)
        requires
            program.len() <= MAX_PROGRAM_LEN,
        ensures
            (final(self)@, result) == old(self)@.load_and_start(program@).run(
                max_instructions as nat,
            ),
    {
        self.load(program);
        self.program_counter = self.mem_read_u16(RESET_VECTOR);
        self.run(max_instructions)
    }
}

} // verus!
