//! What holds of the machine, whatever state it is in.
//!
//! Each proof function here states one law over the specification of the
//! interpreter; its callers get the law for the states they have in hand.

use crate::bits::{lemma_byte_bits, lemma_word_bytes, signed, wrap16, wrap8};
use crate::cpu::AddressingMode;
use crate::execute::{CpuError, Status};
use crate::opcode::lemma_table_well_formed;
use crate::state::{CpuState, MAX_PROGRAM_LEN, PROGRAM_START, RESET_VECTOR, STACK};
use crate::status::{
    lemma_flags_after_with_flag, lemma_pulled_pushed_status, pulled_status, BREAK, CARRY,
    DECIMAL_MODE, INTERRUPT_DISABLE, NEGATIVE, OVERFLOW, UNUSED, ZERO,
};
use vstd::prelude::*;

verus! {

/// Zero and negative describe the byte they were set from, and no other
/// flag moves: zero is set iff the byte is 0, negative iff its bit 7 is set.
pub proof fn lemma_zero_and_negative(s: CpuState, result: u8)
    ensures
        s.with_zero_and_negative(result).flag(ZERO) == (result == 0),
        s.with_zero_and_negative(result).flag(NEGATIVE) == (result & 0x80 != 0),
        s.with_zero_and_negative(result).flag(CARRY) == s.flag(CARRY),
        s.with_zero_and_negative(result).flag(INTERRUPT_DISABLE) == s.flag(INTERRUPT_DISABLE),
        s.with_zero_and_negative(result).flag(DECIMAL_MODE) == s.flag(DECIMAL_MODE),
        s.with_zero_and_negative(result).flag(BREAK) == s.flag(BREAK),
        s.with_zero_and_negative(result).flag(UNUSED) == s.flag(UNUSED),
        s.with_zero_and_negative(result).flag(OVERFLOW) == s.flag(OVERFLOW),
{
    lemma_flags_after_with_flag(s.status, ZERO, result == 0);
    lemma_flags_after_with_flag(
        s.with_flag(ZERO, result == 0).status,
        NEGATIVE,
        result >= 0x80,
    );
    lemma_byte_bits(result);
}

/// After a load of the accumulator, whatever it held before, it holds the
/// operand, zero is set iff the operand is 0 and negative iff bit 7 of the
/// operand is set.
pub proof fn lemma_lda_flags(s: CpuState, mode: AddressingMode)
    ensures
        s.lda(mode).a == s.operand(mode),
        s.lda(mode).flag(ZERO) == (s.operand(mode) == 0),
        s.lda(mode).flag(NEGATIVE) == (s.operand(mode) & 0x80 != 0),
{
    lemma_zero_and_negative(CpuState { a: s.operand(mode), ..s }, s.operand(mode));
}

/// One step from a state whose program counter points at an immediate load
/// of the accumulator (opcode A9): the accumulator holds the byte after the
/// opcode, the flags describe it, the program counter is past the
/// instruction, and the machine is running.
pub proof fn lemma_step_lda_immediate(s: CpuState)
    requires
        s.wf(),
        s.read(s.pc) == 0xA9,
    ensures
        s.step().1 == Ok::<Status, CpuError>(Status::Running),
        s.step().0.a == s.read(s.pc.wrapping_add(1)),
        s.step().0.flag(ZERO) == (s.read(s.pc.wrapping_add(1)) == 0),
        s.step().0.flag(NEGATIVE) == (s.read(s.pc.wrapping_add(1)) & 0x80 != 0),
        s.step().0.pc == s.pc.wrapping_add(2),
        s.step().0.mem == s.mem,
{
    lemma_lda_flags(s.fetched(), AddressingMode::Immediate);
}

/// A push stores its byte in the stack page, at the address the stack
/// pointer designates, and nowhere else; the stack pointer goes down by one
/// and wraps from 0 to 255.
pub proof fn lemma_push(s: CpuState, data: u8)
    requires
        s.wf(),
    ensures
        s.push(data).wf(),
        STACK <= s.stack_address() < STACK + 0x100,
        s.push(data).read(s.stack_address()) == data,
        forall|addr: u16| addr != s.stack_address() ==> s.push(data).read(addr) == s.read(addr),
        s.push(data).sp == (if s.sp == 0 {
            0xFFu8
        } else {
            (s.sp - 1) as u8
        }),
{
}

/// However many bytes are pushed, the stack stays in its page: the stack
/// pointer goes down by their number modulo 256, so 256 pushes bring it back
/// to where it was, and no byte outside the stack page changes.
pub proof fn lemma_push_all(s: CpuState, data: Seq<u8>)
    requires
        s.wf(),
    ensures
        s.push_all(data).wf(),
        s.push_all(data).sp == wrap8(s.sp - data.len()),
        data.len() == 256 ==> s.push_all(data).sp == s.sp,
        forall|addr: u16|
            !(STACK <= addr < STACK + 0x100) ==> s.push_all(data).read(addr) == s.read(addr),
        s.push_all(data).a == s.a,
        s.push_all(data).x == s.x,
        s.push_all(data).y == s.y,
        s.push_all(data).pc == s.pc,
        s.push_all(data).status == s.status,
    decreases data.len(),
{
    if data.len() > 0 {
        lemma_push_all(s, data.drop_last());
        lemma_push(s.push_all(data.drop_last()), data.last());
    }
}

/// A pop reads the stack page and changes nothing but the stack pointer,
/// which goes up by one and wraps from 255 to 0.
pub proof fn lemma_pop(s: CpuState)
    ensures
        s.pop().mem == s.mem,
        STACK <= s.pop().stack_address() < STACK + 0x100,
        s.popped() == s.read(s.pop().stack_address()),
        s.pop().sp == (if s.sp == 0xFF {
            0u8
        } else {
            (s.sp + 1) as u8
        }),
{
}

/// A byte that is pushed and popped comes back, and the stack pointer
/// returns to where it was.
pub proof fn lemma_push_pop(s: CpuState, data: u8)
    requires
        s.wf(),
    ensures
        s.push(data).popped() == data,
        s.push(data).pop().sp == s.sp,
{
}

/// A word that is pushed and popped comes back exactly, and the stack
/// pointer returns to where it was.
pub proof fn lemma_push_pop_u16(s: CpuState, data: u16)
    requires
        s.wf(),
    ensures
        s.push_u16(data).popped_u16() == data,
        s.push_u16(data).pop_u16().sp == s.sp,
{
    lemma_word_bytes(0, 0, data);
}

/// A call followed at once by a return comes back to the instruction after
/// the call: with the program counter at the operand of a JSR, two bytes
/// before the next instruction, JSR and then RTS leave it at that next
/// instruction and the stack pointer where it was.
pub proof fn lemma_jsr_rts(s: CpuState)
    requires
        s.wf(),
    ensures
        s.jsr().rts().pc == s.pc.wrapping_add(2),
        s.jsr().rts().sp == s.sp,
{
    lemma_push_pop_u16(s, s.pc.wrapping_add(1));
}

/// The same for whole instruction cycles: where the program counter points
/// at a JSR (opcode 20) and, after that step, at an RTS (opcode 60), the two
/// steps leave the program counter at the instruction that follows the
/// three bytes of the JSR.
pub proof fn lemma_step_jsr_rts(s: CpuState)
    requires
        s.wf(),
        s.read(s.pc) == 0x20,
        s.step().0.read(s.step().0.pc) == 0x60,
    ensures
        s.step().1 == Ok::<Status, CpuError>(Status::Running),
        s.step().0.step().1 == Ok::<Status, CpuError>(Status::Running),
        s.step().0.step().0.pc == s.pc.wrapping_add(3),
        s.step().0.step().0.sp == s.sp,
{
    let f = s.fetched();
    lemma_push_pop_u16(f, f.pc.wrapping_add(1));
}

/// A branch that is taken goes to the address after its offset byte plus
/// the offset read as a signed number; one that is not taken changes
/// nothing.
pub proof fn lemma_branch(s: CpuState, condition: bool)
    ensures
        condition ==> s.branch(condition).pc == wrap16(s.pc + 1 + signed(s.read(s.pc))),
        !condition ==> s.branch(condition) == s,
        s.branch(condition).mem == s.mem,
        s.branch(condition).status == s.status,
{
}

/// A taken BNE whose offset byte is FD goes three bytes back from the
/// address after the offset byte.
pub proof fn lemma_bne_back_three(s: CpuState)
    requires
        !s.flag(ZERO),
        s.read(s.pc) == 0xFD,
    ensures
        s.bne().pc == wrap16(s.pc + 1 - 3),
        2 <= s.pc < 0xFFFF ==> s.bne().pc == s.pc + 1 - 3,
{
}

/// Pushing the status and pulling it at once: break reads 0 and the unused
/// bit reads 1, whatever they were; the six other flags, the registers and
/// the stack pointer are as before.
pub proof fn lemma_php_plp(s: CpuState)
    requires
        s.wf(),
    ensures
        s.php().plp().status == pulled_status(s.status),
        !s.php().plp().flag(BREAK),
        s.php().plp().flag(UNUSED),
        s.php().plp().flag(CARRY) == s.flag(CARRY),
        s.php().plp().flag(ZERO) == s.flag(ZERO),
        s.php().plp().flag(INTERRUPT_DISABLE) == s.flag(INTERRUPT_DISABLE),
        s.php().plp().flag(DECIMAL_MODE) == s.flag(DECIMAL_MODE),
        s.php().plp().flag(OVERFLOW) == s.flag(OVERFLOW),
        s.php().plp().flag(NEGATIVE) == s.flag(NEGATIVE),
        s.php().plp().sp == s.sp,
        s.php().plp().a == s.a,
        s.php().plp().x == s.x,
        s.php().plp().y == s.y,
        s.php().plp().pc == s.pc,
{
    lemma_pulled_pushed_status(s.status);
}

/// What a comparison leaves in the flags: zero iff the register equals the
/// operand, carry iff the register is not below it, and negative iff bit 7
/// of their difference modulo 256 is set.
pub proof fn lemma_compare_flags(s: CpuState, mode: AddressingMode, register: u8)
    ensures
        s.compare(mode, register).flag(ZERO) == (register == s.operand(mode)),
        s.compare(mode, register).flag(CARRY) == (register >= s.operand(mode)),
        s.compare(mode, register).flag(NEGATIVE) == (register.wrapping_sub(s.operand(mode))
            >= 0x80),
{
    let result = register.wrapping_sub(s.operand(mode));
    lemma_zero_and_negative(s, result);
    lemma_byte_bits(result);
    lemma_flags_after_with_flag(
        s.with_zero_and_negative(result).status,
        CARRY,
        register >= s.operand(mode),
    );
}

/// What an addition leaves behind: the accumulator holds the sum modulo 256,
/// carry is set iff the sum exceeds 255, overflow iff the signed sum does
/// not fit a byte, and zero and negative describe the accumulator.
pub proof fn lemma_add_flags(s: CpuState, value: u8)
    ensures
        s.add_to_register_a(value).a == (s.a + value + s.carry_in()) % 256,
        s.add_to_register_a(value).flag(CARRY) == (s.a + value + s.carry_in() > 0xFF),
        s.add_to_register_a(value).flag(OVERFLOW) == !(-128 <= signed(s.a) + signed(value)
            + s.carry_in() <= 127),
        s.add_to_register_a(value).flag(ZERO) == (s.add_to_register_a(value).a == 0),
        s.add_to_register_a(value).flag(NEGATIVE) == (s.add_to_register_a(value).a >= 0x80),
{
    let sum = s.a + value + s.carry_in();
    let result = wrap8(sum);
    let overflow = !(-128 <= signed(s.a) + signed(value) + s.carry_in() <= 127);
    let t0 = CpuState { a: result, ..s };
    let t1 = t0.with_flag(CARRY, sum > 0xFF);
    let t2 = t1.with_flag(OVERFLOW, overflow);
    lemma_flags_after_with_flag(t0.status, CARRY, sum > 0xFF);
    lemma_flags_after_with_flag(t1.status, OVERFLOW, overflow);
    lemma_zero_and_negative(t2, result);
    lemma_byte_bits(result);
}

/// A loaded program lies at `PROGRAM_START`, byte for byte up to the reset
/// vector, and the reset vector points at it: a reset, and the start of a
/// run, find the program counter there.
pub proof fn lemma_load(s: CpuState, program: Seq<u8>)
    requires
        s.wf(),
        program.len() <= MAX_PROGRAM_LEN,
    ensures
        s.load(program).wf(),
        s.load(program).read_u16(RESET_VECTOR) == PROGRAM_START,
        s.load(program).reset().pc == PROGRAM_START,
        s.load_and_start(program).pc == PROGRAM_START,
        forall|i: int|
            0 <= i < program.len() && PROGRAM_START + i < RESET_VECTOR ==> s.load(program).mem[
                PROGRAM_START + i] == program[i],
        forall|addr: int|
            0 <= addr < PROGRAM_START ==> s.load(program).mem[addr] == s.mem[addr],
{
    lemma_word_bytes(0, 0, PROGRAM_START);
}

/// One instruction cycle keeps memory at its 65536 bytes.
pub proof fn lemma_step_keeps_memory_size(s: CpuState)
    requires
        s.wf(),
    ensures
        s.step().0.wf(),
{
}

/// A run keeps memory at its 65536 bytes.
pub proof fn lemma_run_keeps_memory_size(s: CpuState, max_instructions: nat)
    requires
        s.wf(),
    ensures
        s.run(max_instructions).0.wf(),
    decreases max_instructions,
{
    if max_instructions > 0 {
        lemma_step_keeps_memory_size(s);
        if s.step().1 == Ok::<Status, CpuError>(Status::Running) {
            lemma_run_keeps_memory_size(s.step().0, (max_instructions - 1) as nat);
        }
    }
}

/// A run that has ended, at a halt or at an error, ends the same way and in
/// the same state however many more instructions it is allowed.
pub proof fn lemma_run_ended(s: CpuState, max_instructions: nat, more: nat)
    requires
        s.run(max_instructions).1 != Ok::<Status, CpuError>(Status::Running),
        more >= max_instructions,
    ensures
        s.run(more) == s.run(max_instructions),
    decreases max_instructions,
{
    if max_instructions > 0 {
        if s.step().1 == Ok::<Status, CpuError>(Status::Running) {
            lemma_run_ended(s.step().0, (max_instructions - 1) as nat, (more - 1) as nat);
        }
    }
}

/// A run that is still going after `first` instructions goes on from where
/// it stands: allowing `first + second` instructions is allowing `first`
/// and then `second`.
pub proof fn lemma_run_continues(s: CpuState, first: nat, second: nat)
    requires
        s.run(first).1 == Ok::<Status, CpuError>(Status::Running),
    ensures
        s.run(first + second) == s.run(first).0.run(second),
    decreases first,
{
    if first > 0 {
        lemma_run_continues(s.step().0, (first - 1) as nat, second);
    }
}

/// A run halts only at a BRK: the byte before the final program counter is
/// 0.
pub proof fn lemma_halt_at_brk(s: CpuState, max_instructions: nat)
    requires
        s.wf(),
        s.run(max_instructions).1 == Ok::<Status, CpuError>(Status::Halted),
    ensures
        s.run(max_instructions).0.read(s.run(max_instructions).0.pc.wrapping_sub(1)) == 0,
    decreases max_instructions,
{
    if max_instructions > 0 {
        lemma_step_keeps_memory_size(s);
        if s.step().1 == Ok::<Status, CpuError>(Status::Running) {
            lemma_halt_at_brk(s.step().0, (max_instructions - 1) as nat);
        } else {
            lemma_table_well_formed(s.read(s.pc));
        }
    }
}

} // verus!
