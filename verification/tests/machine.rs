use cpu6502::cpu::{AddressingMode, CPU};

#[test]
fn new_cpu_is_in_power_on_state() {
    let cpu = CPU::new();
    assert_eq!(cpu.register_a, 0);
    assert_eq!(cpu.register_x, 0);
    assert_eq!(cpu.register_y, 0);
    assert_eq!(cpu.status, 0);
    assert_eq!(cpu.program_counter, 0);
    assert_eq!(cpu.stack_pointer, 0xFD);
    assert_eq!(cpu.mem_read(0x0000), 0);
    assert_eq!(cpu.mem_read(0x0600), 0);
    assert_eq!(cpu.mem_read(0xFFFF), 0);
}

#[test]
fn default_cpu_is_new_cpu() {
    let cpu = CPU::default();
    assert_eq!(cpu.stack_pointer, 0xFD);
    assert_eq!(cpu.status, 0);
    assert_eq!(cpu.program_counter, 0);
}

#[test]
fn memory_covers_the_whole_address_range() {
    let mut cpu = CPU::new();
    cpu.mem_write(0x0000, 0x11);
    cpu.mem_write(0xFFFF, 0x22);
    cpu.mem_write(0x8000, 0x33);
    assert_eq!(cpu.mem_read(0x0000), 0x11);
    assert_eq!(cpu.mem_read(0xFFFF), 0x22);
    assert_eq!(cpu.mem_read(0x8000), 0x33);
    assert_eq!(cpu.mem_read(0x0001), 0x00);
}

#[test]
fn words_are_little_endian() {
    let mut cpu = CPU::new();
    cpu.mem_write_u16(0x1000, 0xABCD);
    assert_eq!(cpu.mem_read(0x1000), 0xCD);
    assert_eq!(cpu.mem_read(0x1001), 0xAB);
    assert_eq!(cpu.mem_read_u16(0x1000), 0xABCD);
}

#[test]
fn word_access_wraps_at_the_end_of_memory() {
    let mut cpu = CPU::new();
    cpu.mem_write_u16(0xFFFF, 0x1234);
    assert_eq!(cpu.mem_read(0xFFFF), 0x34);
    assert_eq!(cpu.mem_read(0x0000), 0x12);
    assert_eq!(cpu.mem_read_u16(0xFFFF), 0x1234);
}

#[test]
fn each_flag_has_its_own_bit() {
    let mut cpu = CPU::new();
    cpu.set_carry_flag(true);
    assert_eq!(cpu.status, 0b0000_0001);
    cpu.set_zero_flag(true);
    assert_eq!(cpu.status, 0b0000_0011);
    cpu.set_interrupt_disable(true);
    assert_eq!(cpu.status, 0b0000_0111);
    cpu.set_decimal_mode_flag(true);
    assert_eq!(cpu.status, 0b0000_1111);
    cpu.set_break_command(true);
    assert_eq!(cpu.status, 0b0001_1111);
    cpu.set_overflow_flag(true);
    assert_eq!(cpu.status, 0b0101_1111);
    cpu.set_negative_flag(true);
    assert_eq!(cpu.status, 0b1101_1111);
    assert!(cpu.get_carry_flag());
    assert!(cpu.get_zero_flag());
    assert!(cpu.get_interrupt_disable());
    assert!(cpu.get_decimal_mode_flag());
    assert!(cpu.get_break_command());
    assert!(cpu.get_overflow_flag());
    assert!(cpu.get_negative_flag());
}

#[test]
fn clearing_a_flag_leaves_the_others() {
    let mut cpu = CPU::new();
    cpu.status = 0xFF;
    cpu.set_zero_flag(false);
    assert_eq!(cpu.status, 0b1111_1101);
    cpu.set_negative_flag(false);
    assert_eq!(cpu.status, 0b0111_1101);
    cpu.set_carry_flag(false);
    assert_eq!(cpu.status, 0b0111_1100);
    cpu.set_overflow_flag(false);
    assert_eq!(cpu.status, 0b0011_1100);
    cpu.set_break_command(false);
    assert_eq!(cpu.status, 0b0010_1100);
    cpu.set_decimal_mode_flag(false);
    assert_eq!(cpu.status, 0b0010_0100);
    cpu.set_interrupt_disable(false);
    assert_eq!(cpu.status, 0b0010_0000);
    assert!(!cpu.get_carry_flag());
    assert!(!cpu.get_zero_flag());
    assert!(!cpu.get_negative_flag());
}

#[test]
fn zero_and_negative_follow_the_result() {
    let mut cpu = CPU::new();
    cpu.status = 0b0100_0001;
    cpu.update_zero_and_negative_flags(0);
    assert_eq!(cpu.status, 0b0100_0011);
    cpu.update_zero_and_negative_flags(0x80);
    assert_eq!(cpu.status, 0b1100_0001);
    cpu.update_zero_and_negative_flags(0x7F);
    assert_eq!(cpu.status, 0b0100_0001);
}

#[test]
fn push_stores_then_moves_the_stack_pointer_down() {
    let mut cpu = CPU::new();
    cpu.stack_push(0x42);
    assert_eq!(cpu.mem_read(0x01FD), 0x42);
    assert_eq!(cpu.stack_pointer, 0xFC);
    assert_eq!(cpu.stack_pop(), 0x42);
    assert_eq!(cpu.stack_pointer, 0xFD);
}

#[test]
fn pushed_word_pops_back_exactly() {
    for w in [0x0000u16, 0x0001, 0x00FF, 0x0100, 0x1234, 0x8000, 0xABCD, 0xFF00, 0xFFFF] {
        let mut cpu = CPU::new();
        let before = cpu.stack_pointer;
        cpu.stack_push_u16(w);
        assert_eq!(cpu.stack_pointer, before.wrapping_sub(2));
        assert_eq!(cpu.stack_pop_u16(), w);
        assert_eq!(cpu.stack_pointer, before);
    }
}

#[test]
fn pushed_word_has_its_high_byte_first() {
    let mut cpu = CPU::new();
    cpu.stack_push_u16(0x1234);
    assert_eq!(cpu.mem_read(0x01FD), 0x12);
    assert_eq!(cpu.mem_read(0x01FC), 0x34);
}

#[test]
fn pushed_word_pops_back_across_the_wrap() {
    for sp in [0x00u8, 0x01, 0xFF] {
        let mut cpu = CPU::new();
        cpu.stack_pointer = sp;
        cpu.stack_push_u16(0xBEEF);
        assert_eq!(cpu.stack_pop_u16(), 0xBEEF);
        assert_eq!(cpu.stack_pointer, sp);
    }
}

#[test]
fn stack_pointer_wraps_from_zero() {
    let mut cpu = CPU::new();
    cpu.stack_pointer = 0x00;
    cpu.stack_push(0xAA);
    assert_eq!(cpu.stack_pointer, 0xFF);
    assert_eq!(cpu.mem_read(0x0100), 0xAA);
    for i in 1..256u16 {
        cpu.stack_push(i as u8);
    }
    assert_eq!(cpu.stack_pointer, 0x00);
    assert_eq!(cpu.mem_read(0x01FF), 0x01);
    assert_eq!(cpu.mem_read(0x0101), 0xFF);
    assert_eq!(cpu.mem_read(0x0100), 0xAA);
    assert_eq!(cpu.mem_read(0x00FF), 0x00);
    assert_eq!(cpu.mem_read(0x0200), 0x00);
}

#[test]
fn pop_wraps_from_the_top_of_the_page() {
    let mut cpu = CPU::new();
    cpu.mem_write(0x0100, 0x77);
    cpu.stack_pointer = 0xFF;
    assert_eq!(cpu.stack_pop(), 0x77);
    assert_eq!(cpu.stack_pointer, 0x00);
}

#[test]
fn load_copies_the_program_and_sets_the_reset_vector() {
    let mut cpu = CPU::new();
    cpu.load(vec![0xA9, 0xC0, 0xAA, 0xE8, 0x00]);
    assert_eq!(cpu.mem_read(0x0600), 0xA9);
    assert_eq!(cpu.mem_read(0x0601), 0xC0);
    assert_eq!(cpu.mem_read(0x0602), 0xAA);
    assert_eq!(cpu.mem_read(0x0603), 0xE8);
    assert_eq!(cpu.mem_read(0x0604), 0x00);
    assert_eq!(cpu.mem_read(0x05FF), 0x00);
    assert_eq!(cpu.mem_read(0xFFFC), 0x00);
    assert_eq!(cpu.mem_read(0xFFFD), 0x06);
    assert_eq!(cpu.mem_read_u16(0xFFFC), 0x0600);
    assert_eq!(cpu.program_counter, 0);
}

#[test]
fn load_of_an_empty_program_only_sets_the_reset_vector() {
    let mut cpu = CPU::new();
    cpu.mem_write(0x0600, 0x55);
    cpu.load(vec![]);
    assert_eq!(cpu.mem_read(0x0600), 0x55);
    assert_eq!(cpu.mem_read_u16(0xFFFC), 0x0600);
}

#[test]
fn load_of_the_longest_program_fills_memory_to_the_end() {
    let mut cpu = CPU::new();
    cpu.load(vec![0xEA; 0xFA00]);
    assert_eq!(cpu.mem_read(0x0600), 0xEA);
    assert_eq!(cpu.mem_read(0xFFFB), 0xEA);
    assert_eq!(cpu.mem_read(0xFFFE), 0xEA);
    assert_eq!(cpu.mem_read(0xFFFF), 0xEA);
    assert_eq!(cpu.mem_read_u16(0xFFFC), 0x0600);
    assert_eq!(cpu.mem_read(0x05FF), 0x00);
}

#[test]
fn reset_clears_registers_and_reads_the_vector() {
    let mut cpu = CPU::new();
    cpu.register_a = 1;
    cpu.register_x = 2;
    cpu.register_y = 3;
    cpu.status = 0xFF;
    cpu.stack_pointer = 0x10;
    cpu.mem_write_u16(0xFFFC, 0x8000);
    cpu.mem_write(0x0010, 0x99);
    cpu.reset();
    assert_eq!(cpu.register_a, 0);
    assert_eq!(cpu.register_x, 0);
    assert_eq!(cpu.register_y, 0);
    assert_eq!(cpu.status, 0);
    assert_eq!(cpu.stack_pointer, 0xFD);
    assert_eq!(cpu.program_counter, 0x8000);
    assert_eq!(cpu.mem_read(0x0010), 0x99);
}

fn cpu_at(pc: u16, operand: &[u8]) -> CPU {
    let mut cpu = CPU::new();
    cpu.program_counter = pc;
    for (i, b) in operand.iter().enumerate() {
        cpu.mem_write(pc.wrapping_add(i as u16), *b);
    }
    cpu
}

#[test]
fn immediate_operand_is_at_the_program_counter() {
    let cpu = cpu_at(0x0601, &[0x42]);
    assert_eq!(cpu.get_operand_address(&AddressingMode::Immediate), 0x0601);
}

#[test]
fn zero_page_operand_address_is_the_byte() {
    let cpu = cpu_at(0x0601, &[0x42]);
    assert_eq!(cpu.get_operand_address(&AddressingMode::ZeroPage), 0x0042);
}

#[test]
fn zero_page_indexing_stays_in_page_zero() {
    let mut cpu = cpu_at(0x0601, &[0xF0]);
    cpu.register_x = 0x20;
    cpu.register_y = 0x0F;
    assert_eq!(cpu.get_operand_address(&AddressingMode::ZeroPage_X), 0x0010);
    assert_eq!(cpu.get_operand_address(&AddressingMode::ZeroPage_Y), 0x00FF);
    cpu.register_y = 0x10;
    assert_eq!(cpu.get_operand_address(&AddressingMode::ZeroPage_Y), 0x0000);
}

#[test]
fn absolute_operand_address_is_the_word() {
    let cpu = cpu_at(0x0601, &[0x34, 0x12]);
    assert_eq!(cpu.get_operand_address(&AddressingMode::Absolute), 0x1234);
}

#[test]
fn absolute_indexing_wraps_at_sixteen_bits() {
    let mut cpu = cpu_at(0x0601, &[0xF0, 0xFF]);
    cpu.register_x = 0x20;
    cpu.register_y = 0x05;
    assert_eq!(cpu.get_operand_address(&AddressingMode::Absolute_X), 0x0010);
    assert_eq!(cpu.get_operand_address(&AddressingMode::Absolute_Y), 0xFFF5);
}

#[test]
fn indirect_x_adds_before_the_lookup() {
    let mut cpu = cpu_at(0x0601, &[0x20]);
    cpu.register_x = 0x04;
    cpu.mem_write(0x0024, 0x74);
    cpu.mem_write(0x0025, 0x20);
    assert_eq!(cpu.get_operand_address(&AddressingMode::Indirect_X), 0x2074);
}

#[test]
fn indirect_x_pointer_wraps_in_page_zero() {
    let mut cpu = cpu_at(0x0601, &[0xFE]);
    cpu.register_x = 0x01;
    cpu.mem_write(0x00FF, 0x34);
    cpu.mem_write(0x0000, 0x12);
    cpu.mem_write(0x0100, 0x99);
    assert_eq!(cpu.get_operand_address(&AddressingMode::Indirect_X), 0x1234);
    cpu.register_x = 0x03;
    cpu.mem_write(0x0001, 0x78);
    cpu.mem_write(0x0002, 0x56);
    assert_eq!(cpu.get_operand_address(&AddressingMode::Indirect_X), 0x5678);
}

#[test]
fn indirect_y_adds_after_the_lookup() {
    let mut cpu = cpu_at(0x0601, &[0x86]);
    cpu.register_y = 0x10;
    cpu.mem_write(0x0086, 0x28);
    cpu.mem_write(0x0087, 0x40);
    assert_eq!(cpu.get_operand_address(&AddressingMode::Indirect_Y), 0x4038);
}

#[test]
fn indirect_y_wraps_pointer_and_sum() {
    let mut cpu = cpu_at(0x0601, &[0xFF]);
    cpu.register_y = 0x02;
    cpu.mem_write(0x00FF, 0xFF);
    cpu.mem_write(0x0000, 0xFF);
    cpu.mem_write(0x0100, 0x11);
    assert_eq!(cpu.get_operand_address(&AddressingMode::Indirect_Y), 0x0001);
}

#[test]
fn operand_word_wraps_at_the_end_of_memory() {
    let cpu = cpu_at(0xFFFF, &[0x34, 0x12]);
    assert_eq!(cpu.get_operand_address(&AddressingMode::Absolute), 0x1234);
}

#[test]
fn resolving_an_address_changes_nothing() {
    let mut cpu = cpu_at(0x0601, &[0x20, 0x30]);
    cpu.register_x = 1;
    cpu.register_y = 2;
    cpu.register_a = 3;
    cpu.status = 0x45;
    let _ = cpu.get_operand_address(&AddressingMode::Absolute_X);
    let _ = cpu.get_operand_address(&AddressingMode::Indirect_Y);
    assert_eq!(cpu.program_counter, 0x0601);
    assert_eq!(cpu.register_a, 3);
    assert_eq!(cpu.register_x, 1);
    assert_eq!(cpu.register_y, 2);
    assert_eq!(cpu.status, 0x45);
    assert_eq!(cpu.stack_pointer, 0xFD);
}
