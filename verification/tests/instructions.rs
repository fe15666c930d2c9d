use cpu6502::cpu::{AddressingMode, CPU};

const CARRY: u8 = 0x01;
const ZERO: u8 = 0x02;
const INTERRUPT_DISABLE: u8 = 0x04;
const DECIMAL_MODE: u8 = 0x08;
const BREAK: u8 = 0x10;
const UNUSED: u8 = 0x20;
const OVERFLOW: u8 = 0x40;
const NEGATIVE: u8 = 0x80;

/// A processor whose program counter points at `operand` as an immediate
/// operand.
fn with_immediate(operand: u8) -> CPU {
    let mut cpu = CPU::new();
    cpu.program_counter = 0x0601;
    cpu.mem_write(0x0601, operand);
    cpu
}

#[test]
fn lda_immediate_sets_zero_and_negative_for_every_byte() {
    for prior in [0x00u8, 0x01, 0x7F, 0x80, 0xFF] {
        for status in [0x00u8, 0xFF, ZERO, NEGATIVE] {
            for v in 0..=255u8 {
                let mut cpu = with_immediate(v);
                cpu.register_a = prior;
                cpu.status = status;
                cpu.lda(&AddressingMode::Immediate);
                assert_eq!(cpu.register_a, v);
                assert_eq!(cpu.get_zero_flag(), v == 0);
                assert_eq!(cpu.get_negative_flag(), v & 0x80 != 0);
                assert_eq!(cpu.status & !(ZERO | NEGATIVE), status & !(ZERO | NEGATIVE));
            }
        }
    }
}

#[test]
fn ldx_and_ldy_load_and_set_flags() {
    let mut cpu = with_immediate(0x00);
    cpu.register_x = 5;
    cpu.ldx(&AddressingMode::Immediate);
    assert_eq!(cpu.register_x, 0);
    assert_eq!(cpu.status, ZERO);
    let mut cpu = with_immediate(0x90);
    cpu.ldy(&AddressingMode::Immediate);
    assert_eq!(cpu.register_y, 0x90);
    assert_eq!(cpu.status, NEGATIVE);
    assert_eq!(cpu.register_a, 0);
}

#[test]
fn lda_from_memory() {
    let mut cpu = CPU::new();
    cpu.program_counter = 0x0601;
    cpu.mem_write(0x0601, 0x10);
    cpu.mem_write(0x0010, 0x55);
    cpu.lda(&AddressingMode::ZeroPage);
    assert_eq!(cpu.register_a, 0x55);
    assert_eq!(cpu.status, 0);
}

#[test]
fn stores_write_their_own_register_and_no_flag() {
    let mut cpu = CPU::new();
    cpu.program_counter = 0x0601;
    cpu.mem_write_u16(0x0601, 0x2000);
    cpu.register_a = 0x11;
    cpu.register_x = 0x22;
    cpu.register_y = 0x00;
    cpu.status = 0xC3;
    cpu.sta(&AddressingMode::Absolute);
    assert_eq!(cpu.mem_read(0x2000), 0x11);
    cpu.stx(&AddressingMode::Absolute);
    assert_eq!(cpu.mem_read(0x2000), 0x22);
    cpu.sty(&AddressingMode::Absolute);
    assert_eq!(cpu.mem_read(0x2000), 0x00);
    assert_eq!(cpu.status, 0xC3);
    assert_eq!(cpu.program_counter, 0x0601);
}

#[test]
fn adc_signed_overflow_without_carry() {
    let mut cpu = with_immediate(0x50);
    cpu.register_a = 0x50;
    cpu.adc(&AddressingMode::Immediate);
    assert_eq!(cpu.register_a, 0xA0);
    assert!(!cpu.get_carry_flag());
    assert!(cpu.get_overflow_flag());
    assert!(cpu.get_negative_flag());
    assert!(!cpu.get_zero_flag());
}

#[test]
fn adc_carry_out_without_overflow() {
    let mut cpu = with_immediate(0x01);
    cpu.register_a = 0xFF;
    cpu.adc(&AddressingMode::Immediate);
    assert_eq!(cpu.register_a, 0x00);
    assert!(cpu.get_carry_flag());
    assert!(cpu.get_zero_flag());
    assert!(!cpu.get_overflow_flag());
    assert!(!cpu.get_negative_flag());
}

#[test]
fn adc_adds_the_carry_in() {
    let mut cpu = with_immediate(0x10);
    cpu.register_a = 0x20;
    cpu.set_carry_flag(true);
    cpu.adc(&AddressingMode::Immediate);
    assert_eq!(cpu.register_a, 0x31);
    assert_eq!(cpu.status, 0);
}

#[test]
fn adc_negative_operands_overflow() {
    let mut cpu = with_immediate(0xD0);
    cpu.register_a = 0x90;
    cpu.adc(&AddressingMode::Immediate);
    assert_eq!(cpu.register_a, 0x60);
    assert_eq!(cpu.status, CARRY | OVERFLOW);
}

#[test]
fn adc_agrees_with_integer_arithmetic_everywhere() {
    for a in 0..=255u8 {
        for m in 0..=255u8 {
            for c in 0..2u8 {
                let mut cpu = with_immediate(m);
                cpu.register_a = a;
                cpu.set_carry_flag(c == 1);
                cpu.adc(&AddressingMode::Immediate);
                let sum = a as i32 + m as i32 + c as i32;
                let signed = (a as i8) as i32 + (m as i8) as i32 + c as i32;
                assert_eq!(cpu.register_a as i32, sum % 256);
                assert_eq!(cpu.get_carry_flag(), sum > 255);
                assert_eq!(cpu.get_overflow_flag(), signed < -128 || signed > 127);
                assert_eq!(cpu.get_zero_flag(), sum % 256 == 0);
                assert_eq!(cpu.get_negative_flag(), sum % 256 >= 128);
            }
        }
    }
}

#[test]
fn sbc_without_borrow() {
    let mut cpu = with_immediate(0x10);
    cpu.register_a = 0x50;
    cpu.set_carry_flag(true);
    cpu.sbc(&AddressingMode::Immediate);
    assert_eq!(cpu.register_a, 0x40);
    assert_eq!(cpu.status, CARRY);
}

#[test]
fn sbc_with_borrow_in_and_out() {
    let mut cpu = with_immediate(0x01);
    cpu.register_a = 0x00;
    cpu.sbc(&AddressingMode::Immediate);
    assert_eq!(cpu.register_a, 0xFE);
    assert_eq!(cpu.status, NEGATIVE);
}

#[test]
fn sbc_signed_overflow() {
    let mut cpu = with_immediate(0xB0);
    cpu.register_a = 0x50;
    cpu.set_carry_flag(true);
    cpu.sbc(&AddressingMode::Immediate);
    assert_eq!(cpu.register_a, 0xA0);
    assert_eq!(cpu.status, OVERFLOW | NEGATIVE);
}

#[test]
fn sbc_agrees_with_integer_arithmetic_everywhere() {
    for a in 0..=255u8 {
        for m in 0..=255u8 {
            for c in 0..2u8 {
                let mut cpu = with_immediate(m);
                cpu.register_a = a;
                cpu.set_carry_flag(c == 1);
                cpu.sbc(&AddressingMode::Immediate);
                let diff = a as i32 - m as i32 - (1 - c as i32);
                let signed = (a as i8) as i32 - (m as i8) as i32 - (1 - c as i32);
                assert_eq!(cpu.register_a as i32, diff.rem_euclid(256));
                assert_eq!(cpu.get_carry_flag(), diff >= 0);
                assert_eq!(cpu.get_overflow_flag(), signed < -128 || signed > 127);
                assert_eq!(cpu.get_zero_flag(), diff.rem_euclid(256) == 0);
                assert_eq!(cpu.get_negative_flag(), diff.rem_euclid(256) >= 128);
            }
        }
    }
}

#[test]
fn add_to_register_a_stores_the_sum() {
    let mut cpu = CPU::new();
    cpu.register_a = 0x7F;
    cpu.add_to_register_a(0x01);
    assert_eq!(cpu.register_a, 0x80);
    assert_eq!(cpu.status, OVERFLOW | NEGATIVE);
}

#[test]
fn cmp_equal_operand() {
    let mut cpu = with_immediate(0x10);
    cpu.register_a = 0x10;
    cpu.cmp(&AddressingMode::Immediate);
    assert!(cpu.get_zero_flag());
    assert!(cpu.get_carry_flag());
    assert!(!cpu.get_negative_flag());
    assert_eq!(cpu.register_a, 0x10);
}

#[test]
fn cmp_larger_operand() {
    let mut cpu = with_immediate(0x20);
    cpu.register_a = 0x10;
    cpu.cmp(&AddressingMode::Immediate);
    assert!(!cpu.get_zero_flag());
    assert!(!cpu.get_carry_flag());
    assert!(cpu.get_negative_flag());
    assert_eq!(cpu.register_a, 0x10);
}

#[test]
fn cmp_smaller_operand() {
    let mut cpu = with_immediate(0x01);
    cpu.register_a = 0x10;
    cpu.cmp(&AddressingMode::Immediate);
    assert_eq!(cpu.status, CARRY);
}

#[test]
fn cpx_and_cpy_compare_their_own_register() {
    let mut cpu = with_immediate(0x30);
    cpu.register_a = 0x00;
    cpu.register_x = 0x30;
    cpu.register_y = 0x40;
    cpu.cpx(&AddressingMode::Immediate);
    assert_eq!(cpu.status, ZERO | CARRY);
    cpu.cpy(&AddressingMode::Immediate);
    assert_eq!(cpu.status, CARRY);
    cpu.register_y = 0x2F;
    cpu.cpy(&AddressingMode::Immediate);
    assert_eq!(cpu.status, NEGATIVE);
}

#[test]
fn compare_with_a_given_value() {
    let mut cpu = with_immediate(0x05);
    cpu.compare(&AddressingMode::Immediate, 0x05);
    assert_eq!(cpu.status, ZERO | CARRY);
    cpu.compare(&AddressingMode::Immediate, 0x04);
    assert_eq!(cpu.status, NEGATIVE);
}

#[test]
fn inc_and_dec_wrap() {
    let mut cpu = CPU::new();
    cpu.program_counter = 0x0601;
    cpu.mem_write(0x0601, 0x40);
    cpu.mem_write(0x0040, 0xFF);
    assert_eq!(cpu.inc(&AddressingMode::ZeroPage), 0x00);
    assert_eq!(cpu.mem_read(0x0040), 0x00);
    assert_eq!(cpu.status, ZERO);
    assert_eq!(cpu.dec(&AddressingMode::ZeroPage), 0xFF);
    assert_eq!(cpu.mem_read(0x0040), 0xFF);
    assert_eq!(cpu.status, NEGATIVE);
    assert_eq!(cpu.dec(&AddressingMode::ZeroPage), 0xFE);
    assert_eq!(cpu.mem_read(0x0040), 0xFE);
}

#[test]
fn index_register_increments_and_decrements_wrap() {
    let mut cpu = CPU::new();
    cpu.register_x = 0xFF;
    cpu.inx();
    assert_eq!(cpu.register_x, 0x00);
    assert_eq!(cpu.status, ZERO);
    cpu.dex();
    assert_eq!(cpu.register_x, 0xFF);
    assert_eq!(cpu.status, NEGATIVE);
    cpu.register_y = 0x7F;
    cpu.iny();
    assert_eq!(cpu.register_y, 0x80);
    assert_eq!(cpu.status, NEGATIVE);
    cpu.dey();
    assert_eq!(cpu.register_y, 0x7F);
    assert_eq!(cpu.status, 0);
    cpu.register_y = 0;
    cpu.dey();
    assert_eq!(cpu.register_y, 0xFF);
}

#[test]
fn and_ora_eor_combine_into_the_accumulator() {
    let mut cpu = with_immediate(0b1100_1010);
    cpu.register_a = 0b1010_0110;
    cpu.and(&AddressingMode::Immediate);
    assert_eq!(cpu.register_a, 0b1000_0010);
    assert_eq!(cpu.status, NEGATIVE);

    let mut cpu = with_immediate(0b1100_1010);
    cpu.register_a = 0b0010_0110;
    cpu.ora(&AddressingMode::Immediate);
    assert_eq!(cpu.register_a, 0b1110_1110);
    assert_eq!(cpu.status, NEGATIVE);

    let mut cpu = with_immediate(0b1100_1010);
    cpu.register_a = 0b1100_1010;
    cpu.eor(&AddressingMode::Immediate);
    assert_eq!(cpu.register_a, 0);
    assert_eq!(cpu.status, ZERO);
}

#[test]
fn bit_takes_overflow_and_negative_from_the_operand() {
    let mut cpu = with_immediate(0b1100_0000);
    cpu.register_a = 0b0000_1111;
    cpu.bit(&AddressingMode::Immediate);
    assert_eq!(cpu.status, ZERO | OVERFLOW | NEGATIVE);
    assert_eq!(cpu.register_a, 0b0000_1111);

    let mut cpu = with_immediate(0b0100_0001);
    cpu.register_a = 0b1000_0001;
    cpu.status = NEGATIVE | ZERO | CARRY;
    cpu.bit(&AddressingMode::Immediate);
    assert_eq!(cpu.status, OVERFLOW | CARRY);
}

#[test]
fn asl_on_memory() {
    let mut cpu = CPU::new();
    cpu.program_counter = 0x0601;
    cpu.mem_write(0x0601, 0x40);
    cpu.mem_write(0x0040, 0b1100_0001);
    assert_eq!(cpu.asl(&AddressingMode::ZeroPage), 0b1000_0010);
    assert_eq!(cpu.mem_read(0x0040), 0b1000_0010);
    assert_eq!(cpu.status, CARRY | NEGATIVE);
    assert_eq!(cpu.register_a, 0);
}

#[test]
fn asl_on_the_accumulator() {
    let mut cpu = CPU::new();
    cpu.register_a = 0x80;
    assert_eq!(cpu.asl(&AddressingMode::NoneAddressing), 0x00);
    assert_eq!(cpu.register_a, 0x00);
    assert_eq!(cpu.status, CARRY | ZERO);
}

#[test]
fn lsr_moves_bit_zero_into_carry() {
    let mut cpu = CPU::new();
    cpu.register_a = 0b0000_0011;
    assert_eq!(cpu.lsr(&AddressingMode::NoneAddressing), 0b0000_0001);
    assert_eq!(cpu.register_a, 1);
    assert_eq!(cpu.status, CARRY);
    assert_eq!(cpu.lsr(&AddressingMode::NoneAddressing), 0);
    assert_eq!(cpu.status, CARRY | ZERO);
    assert_eq!(cpu.lsr(&AddressingMode::NoneAddressing), 0);
    assert_eq!(cpu.status, ZERO);
}

#[test]
fn rol_rotates_through_carry() {
    let mut cpu = CPU::new();
    cpu.program_counter = 0x0601;
    cpu.mem_write_u16(0x0601, 0x3000);
    cpu.mem_write(0x3000, 0b1000_0000);
    assert_eq!(cpu.rol(&AddressingMode::Absolute), 0);
    assert_eq!(cpu.status, CARRY | ZERO);
    assert_eq!(cpu.rol(&AddressingMode::Absolute), 1);
    assert_eq!(cpu.mem_read(0x3000), 1);
    assert_eq!(cpu.status, 0);
    cpu.mem_write(0x3000, 0b0100_0000);
    cpu.set_carry_flag(true);
    assert_eq!(cpu.rol(&AddressingMode::Absolute), 0b1000_0001);
    assert_eq!(cpu.status, NEGATIVE);
}

#[test]
fn ror_rotates_through_carry() {
    let mut cpu = CPU::new();
    cpu.register_a = 0b0000_0001;
    assert_eq!(cpu.ror(&AddressingMode::NoneAddressing), 0);
    assert_eq!(cpu.status, CARRY | ZERO);
    assert_eq!(cpu.ror(&AddressingMode::NoneAddressing), 0b1000_0000);
    assert_eq!(cpu.register_a, 0b1000_0000);
    assert_eq!(cpu.status, NEGATIVE);
    cpu.register_a = 0b0000_0010;
    cpu.set_carry_flag(true);
    assert_eq!(cpu.ror(&AddressingMode::NoneAddressing), 0b1000_0001);
    assert_eq!(cpu.status, NEGATIVE);
}

#[test]
fn shifts_agree_with_integer_arithmetic_everywhere() {
    for v in 0..=255u8 {
        for c in 0..2u8 {
            let mut cpu = CPU::new();
            cpu.register_a = v;
            cpu.set_carry_flag(c == 1);
            assert_eq!(cpu.asl(&AddressingMode::NoneAddressing) as u32, (2 * v as u32) % 256);
            assert_eq!(cpu.get_carry_flag(), v >= 128);

            let mut cpu = CPU::new();
            cpu.register_a = v;
            cpu.set_carry_flag(c == 1);
            assert_eq!(cpu.lsr(&AddressingMode::NoneAddressing), v / 2);
            assert_eq!(cpu.get_carry_flag(), v % 2 == 1);

            let mut cpu = CPU::new();
            cpu.register_a = v;
            cpu.set_carry_flag(c == 1);
            assert_eq!(
                cpu.rol(&AddressingMode::NoneAddressing) as u32,
                (2 * v as u32 + c as u32) % 256
            );
            assert_eq!(cpu.get_carry_flag(), v >= 128);

            let mut cpu = CPU::new();
            cpu.register_a = v;
            cpu.set_carry_flag(c == 1);
            assert_eq!(cpu.ror(&AddressingMode::NoneAddressing) as u32, v as u32 / 2 + 128 * c as u32);
            assert_eq!(cpu.get_carry_flag(), v % 2 == 1);
            assert_eq!(cpu.get_zero_flag(), cpu.register_a == 0);
            assert_eq!(cpu.get_negative_flag(), cpu.register_a >= 128);
        }
    }
}

#[test]
fn transfers_copy_and_set_flags() {
    let mut cpu = CPU::new();
    cpu.register_a = 0x80;
    cpu.tax();
    assert_eq!(cpu.register_x, 0x80);
    assert_eq!(cpu.status, NEGATIVE);
    cpu.register_a = 0x00;
    cpu.tay();
    assert_eq!(cpu.register_y, 0x00);
    assert_eq!(cpu.status, ZERO);
    cpu.tsx();
    assert_eq!(cpu.register_x, 0xFD);
    assert_eq!(cpu.status, NEGATIVE);
    cpu.register_x = 0x12;
    cpu.txa();
    assert_eq!(cpu.register_a, 0x12);
    assert_eq!(cpu.status, 0);
    cpu.register_y = 0x00;
    cpu.tya();
    assert_eq!(cpu.register_a, 0x00);
    assert_eq!(cpu.status, ZERO);
}

#[test]
fn txs_sets_no_flag() {
    let mut cpu = CPU::new();
    cpu.register_x = 0x00;
    cpu.status = NEGATIVE;
    cpu.txs();
    assert_eq!(cpu.stack_pointer, 0x00);
    assert_eq!(cpu.status, NEGATIVE);
    cpu.register_x = 0x80;
    cpu.status = ZERO;
    cpu.txs();
    assert_eq!(cpu.stack_pointer, 0x80);
    assert_eq!(cpu.status, ZERO);
}

#[test]
fn pha_and_pla() {
    let mut cpu = CPU::new();
    cpu.register_a = 0x80;
    cpu.pha();
    assert_eq!(cpu.mem_read(0x01FD), 0x80);
    assert_eq!(cpu.stack_pointer, 0xFC);
    assert_eq!(cpu.status, 0);
    cpu.register_a = 0;
    cpu.pla();
    assert_eq!(cpu.register_a, 0x80);
    assert_eq!(cpu.stack_pointer, 0xFD);
    assert_eq!(cpu.status, NEGATIVE);
}

#[test]
fn php_forces_break_and_unused_on_the_stack() {
    let mut cpu = CPU::new();
    cpu.status = CARRY | NEGATIVE;
    cpu.php();
    assert_eq!(cpu.mem_read(0x01FD), CARRY | NEGATIVE | BREAK | UNUSED);
    assert_eq!(cpu.status, CARRY | NEGATIVE);
    assert_eq!(cpu.stack_pointer, 0xFC);
}

#[test]
fn plp_clears_break_and_forces_unused() {
    let mut cpu = CPU::new();
    cpu.stack_push(0xFF);
    cpu.plp();
    assert_eq!(cpu.status, 0xFF & !BREAK);
    let mut cpu = CPU::new();
    cpu.stack_push(0x00);
    cpu.plp();
    assert_eq!(cpu.status, UNUSED);
}

#[test]
fn php_then_plp_normalizes_break_and_unused() {
    for status in 0..=255u8 {
        let mut cpu = CPU::new();
        cpu.status = status;
        cpu.php();
        cpu.status = !status;
        cpu.plp();
        assert_eq!(cpu.status, (status & !BREAK) | UNUSED);
        assert!(!cpu.get_break_command());
        assert_eq!(cpu.get_carry_flag(), status & CARRY != 0);
        assert_eq!(cpu.get_zero_flag(), status & ZERO != 0);
        assert_eq!(cpu.get_interrupt_disable(), status & INTERRUPT_DISABLE != 0);
        assert_eq!(cpu.get_decimal_mode_flag(), status & DECIMAL_MODE != 0);
        assert_eq!(cpu.get_overflow_flag(), status & OVERFLOW != 0);
        assert_eq!(cpu.get_negative_flag(), status & NEGATIVE != 0);
        assert_eq!(cpu.stack_pointer, 0xFD);
    }
}

#[test]
fn flag_instructions_touch_one_flag() {
    let mut cpu = CPU::new();
    cpu.sec();
    assert_eq!(cpu.status, CARRY);
    cpu.sed();
    assert_eq!(cpu.status, CARRY | DECIMAL_MODE);
    cpu.sei();
    assert_eq!(cpu.status, CARRY | DECIMAL_MODE | INTERRUPT_DISABLE);
    cpu.status = 0xFF;
    cpu.clc();
    assert_eq!(cpu.status, 0xFF & !CARRY);
    cpu.cld();
    assert_eq!(cpu.status, 0xFF & !CARRY & !DECIMAL_MODE);
    cpu.cli();
    assert_eq!(cpu.status, 0xFF & !CARRY & !DECIMAL_MODE & !INTERRUPT_DISABLE);
    cpu.clv();
    assert_eq!(cpu.status, NEGATIVE | UNUSED | BREAK | ZERO);
}

#[test]
fn bne_taken_goes_three_back() {
    let mut cpu = with_immediate(0xFD);
    cpu.program_counter = 0x0601;
    cpu.bne();
    assert_eq!(cpu.program_counter, 0x0601 + 1 - 3);
}

#[test]
fn bne_not_taken_leaves_the_program_counter() {
    let mut cpu = with_immediate(0xFD);
    cpu.set_zero_flag(true);
    cpu.bne();
    assert_eq!(cpu.program_counter, 0x0601);
}

#[test]
fn branch_forward_and_backward() {
    let mut cpu = with_immediate(0x7F);
    cpu.branch(true);
    assert_eq!(cpu.program_counter, 0x0602 + 0x7F);
    let mut cpu = with_immediate(0x80);
    cpu.branch(true);
    assert_eq!(cpu.program_counter, 0x0602 - 0x80);
    let mut cpu = with_immediate(0x00);
    cpu.branch(true);
    assert_eq!(cpu.program_counter, 0x0602);
    let mut cpu = with_immediate(0x10);
    cpu.branch(false);
    assert_eq!(cpu.program_counter, 0x0601);
}

#[test]
fn branch_wraps_around_the_address_space() {
    let mut cpu = CPU::new();
    cpu.program_counter = 0x0000;
    cpu.mem_write(0x0000, 0xFD);
    cpu.branch(true);
    assert_eq!(cpu.program_counter, 0xFFFE);
    let mut cpu = CPU::new();
    cpu.program_counter = 0xFFFF;
    cpu.mem_write(0xFFFF, 0x05);
    cpu.branch(true);
    assert_eq!(cpu.program_counter, 0x0005);
}

#[test]
fn each_branch_tests_its_flag() {
    let conditions: [(fn(&mut CPU), u8, bool); 8] = [
        (CPU::bcc, CARRY, false),
        (CPU::bcs, CARRY, true),
        (CPU::beq, ZERO, true),
        (CPU::bne, ZERO, false),
        (CPU::bmi, NEGATIVE, true),
        (CPU::bpl, NEGATIVE, false),
        (CPU::bvc, OVERFLOW, false),
        (CPU::bvs, OVERFLOW, true),
    ];
    for (handler, mask, taken_when_set) in conditions {
        let mut cpu = with_immediate(0x10);
        cpu.status = mask;
        handler(&mut cpu);
        assert_eq!(cpu.program_counter != 0x0601, taken_when_set);
        if taken_when_set {
            assert_eq!(cpu.program_counter, 0x0612);
        }
        let mut cpu = with_immediate(0x10);
        cpu.status = !mask;
        handler(&mut cpu);
        assert_eq!(cpu.program_counter != 0x0601, !taken_when_set);
        assert_eq!(cpu.status, !mask);
    }
}

#[test]
fn jmp_absolute() {
    let mut cpu = CPU::new();
    cpu.program_counter = 0x0601;
    cpu.mem_write_u16(0x0601, 0x1234);
    cpu.jmp_abs();
    assert_eq!(cpu.program_counter, 0x1234);
}

#[test]
fn jmp_indirect() {
    let mut cpu = CPU::new();
    cpu.program_counter = 0x0601;
    cpu.mem_write_u16(0x0601, 0x3000);
    cpu.mem_write_u16(0x3000, 0x4080);
    cpu.jmp_ind();
    assert_eq!(cpu.program_counter, 0x4080);
}

#[test]
fn jmp_indirect_takes_the_high_byte_from_the_same_page() {
    let mut cpu = CPU::new();
    cpu.program_counter = 0x0601;
    cpu.mem_write_u16(0x0601, 0x30FF);
    cpu.mem_write(0x30FF, 0x80);
    cpu.mem_write(0x3000, 0x40);
    cpu.mem_write(0x3100, 0x50);
    cpu.mem_write(0x00FF, 0x60);
    cpu.jmp_ind();
    assert_eq!(cpu.program_counter, 0x4080);
}

#[test]
fn jsr_pushes_the_address_of_its_last_byte() {
    let mut cpu = CPU::new();
    cpu.program_counter = 0x0601;
    cpu.mem_write_u16(0x0601, 0x1234);
    cpu.jsr();
    assert_eq!(cpu.program_counter, 0x1234);
    assert_eq!(cpu.stack_pointer, 0xFB);
    assert_eq!(cpu.mem_read(0x01FD), 0x06);
    assert_eq!(cpu.mem_read(0x01FC), 0x02);
}

#[test]
fn jsr_then_rts_returns_after_the_call() {
    for pc in [0x0601u16, 0x06FF, 0x0700, 0xFFFE, 0xFFFF, 0x0000] {
        let mut cpu = CPU::new();
        cpu.program_counter = pc;
        cpu.mem_write_u16(pc, 0x1234);
        cpu.jsr();
        assert_eq!(cpu.program_counter, 0x1234);
        cpu.rts();
        assert_eq!(cpu.program_counter, pc.wrapping_add(2));
        assert_eq!(cpu.stack_pointer, 0xFD);
    }
}

#[test]
fn rti_pulls_status_then_the_program_counter() {
    let mut cpu = CPU::new();
    cpu.stack_push_u16(0x8001);
    cpu.stack_push(0xFF);
    cpu.rti();
    assert_eq!(cpu.status, 0xFF & !BREAK);
    assert_eq!(cpu.program_counter, 0x8001);
    assert_eq!(cpu.stack_pointer, 0xFD);
    let mut cpu = CPU::new();
    cpu.stack_push_u16(0x0000);
    cpu.stack_push(0x00);
    cpu.rti();
    assert_eq!(cpu.status, UNUSED);
    assert_eq!(cpu.program_counter, 0x0000);
}
