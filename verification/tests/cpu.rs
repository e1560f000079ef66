use nes::bus::{Bus, Mem};
use nes::cpu::{Flag, CPU};

#[test]
fn test_stack_function() {
    // a9 aa 08 48 28 68
    let mut cpu = CPU::new(Bus::new());
    cpu.load_and_run(vec![0xa9, 0xaa, 0x08, 0x48, 0x28, 0x68, 0x00]);

    // PHP pushes the status 0x80 with Break and Break2 set; PLA pulls that byte.
    assert_eq!(cpu.register_a, 0xb0);
    // PLP leaves 0xaa in the status; PLA then clears Zero.
    assert_eq!(cpu.status, 0xa8);
}

#[test]
fn test_bne() {
    // a2 08 ca 8e 00 02 e0 03 d0 f8 8e 01 02 00
    let mut cpu = CPU::new(Bus::new());
    cpu.load_and_run(vec![
        0xa2, 0x08, 0xca, 0x8e, 0x00, 0x02, 0xe0, 0x03, 0xd0, 0xf8, 0x8e, 0x01, 0x02, 0x00,
    ]);
    assert_eq!(cpu.get_flag(Flag::Zero), true);
    assert_eq!(cpu.register_x, 0x03);
}

#[test]
fn test_ror_a() {
    // 38 a9 ec 6a
    let mut cpu = CPU::new(Bus::new());
    cpu.load_and_run(vec![0x38, 0xa9, 0xec, 0x6a, 0x00]);

    assert_eq!(cpu.register_a, 0xf6);
    assert_eq!(cpu.get_flag(Flag::Negative), true);
    assert_eq!(cpu.get_flag(Flag::Carry), false);
    assert_eq!(cpu.get_flag(Flag::Zero), false);
}

#[test]
fn test_ror() {
    // 38 a9 ed 85 02 66 02
    let mut cpu = CPU::new(Bus::new());
    cpu.load_and_run(vec![0x38, 0xa9, 0xed, 0x85, 0x02, 0x66, 0x02, 0x00]);

    assert_eq!(cpu.mem_read(0x0002), 0xf6);
    assert_eq!(cpu.get_flag(Flag::Negative), true);
    assert_eq!(cpu.get_flag(Flag::Carry), true);
    assert_eq!(cpu.get_flag(Flag::Zero), false);
}

#[test]
fn test_rol() {
    // 38 a9 ec 85 02 26 02
    let mut cpu = CPU::new(Bus::new());
    cpu.load_and_run(vec![0x38, 0xa9, 0xec, 0x85, 0x02, 0x26, 0x02, 0x00]);

    assert_eq!(cpu.mem_read(0x0002), 0xd9);
    assert_eq!(cpu.get_flag(Flag::Carry), true);
    assert_eq!(cpu.get_flag(Flag::Zero), false);
    assert_eq!(cpu.get_flag(Flag::Negative), true);
}

#[test]
fn test_rol_a() {
    //a9 76 2a
    let mut cpu = CPU::new(Bus::new());
    cpu.load_and_run(vec![0x38, 0xa9, 0xec, 0x2a, 0x00]);
    assert_eq!(cpu.get_flag(Flag::Carry), true);
    assert_eq!(cpu.get_flag(Flag::Zero), false);
    assert_eq!(cpu.get_flag(Flag::Negative), true);
    assert_eq!(cpu.register_a, 0xd9);
}

#[test]
fn test_asl() {
    //a9 ec 85 02 06 02
    let mut cpu = CPU::new(Bus::new());
    cpu.load_and_run(vec![0xa9, 0xec, 0x85, 0x02, 0x06, 0x02, 0x00]);
    assert_eq!(cpu.get_flag(Flag::Carry), true);
    assert_eq!(cpu.get_flag(Flag::Negative), true);
    assert_eq!(cpu.get_flag(Flag::Zero), false);
    assert_eq!(cpu.mem_read(0x0002), 0xd8);
}

#[test]
fn test_asl_a() {
    //38 a9 ec 0a
    let mut cpu = CPU::new(Bus::new());
    cpu.load_and_run(vec![0x38, 0xa9, 0xec, 0x0a, 0x00]);
    assert_eq!(cpu.register_a, 0xd8);
    assert_eq!(cpu.get_flag(Flag::Carry), true);
    assert_eq!(cpu.get_flag(Flag::Negative), true);
    assert_eq!(cpu.get_flag(Flag::Zero), false);
}

#[test]
fn test_sbc() {
    //a9 50 e9 b0 00
    let mut cpu = CPU::new(Bus::new());
    cpu.load_and_run(vec![0xa9, 0x50, 0xe9, 0xb0, 0x00]);

    assert_eq!(cpu.register_a, 0x9f);
    assert_eq!(cpu.get_flag(Flag::Overflow), true);
    assert_eq!(cpu.get_flag(Flag::Negative), true);
    assert_eq!(cpu.get_flag(Flag::Carry), false);
    assert_eq!(cpu.get_flag(Flag::Zero), false);
}

#[test]
fn test_adc_positive_overflow() {
    //a9 50 69 50
    let mut cpu = CPU::new(Bus::new());
    cpu.load_and_run(vec![0xa9, 0x50, 0x69, 0x50, 0x00]);

    assert_eq!(cpu.register_a, 0xa0);
    assert_eq!(cpu.get_flag(Flag::Overflow), true);
    assert_eq!(cpu.get_flag(Flag::Zero), false);
    assert_eq!(cpu.get_flag(Flag::Carry), false);
    assert_eq!(cpu.get_flag(Flag::Negative), true);
}

#[test]
fn test_adc_negative_overflow() {
    //a9 d0 69 90
    let mut cpu = CPU::new(Bus::new());
    cpu.load_and_run(vec![0xa9, 0xd0, 0x69, 0x90, 0x00]);

    assert_eq!(cpu.register_a, 0x60);
    assert_eq!(cpu.get_flag(Flag::Overflow), true);
    assert_eq!(cpu.get_flag(Flag::Zero), false);
    assert_eq!(cpu.get_flag(Flag::Carry), true);
    assert_eq!(cpu.get_flag(Flag::Negative), false);
}
#[test]
fn test_lda_zero_page() {
    let mut cpu = CPU::new(Bus::new());
    cpu.mem_write(0x0006, 0xFA);
    cpu.load_and_run(vec![0xa5, 0x06, 0x00]);
    assert_eq!(cpu.register_a, 0xFA);
}

#[test]
fn test_lda_zero_page_x() {
    let mut cpu = CPU::new(Bus::new());

    cpu.mem_write(0x0006, 0xFA);
    cpu.register_x = 0x05;
    cpu.load_and_run(vec![0xb5, 0x01, 0x00]);
    assert_eq!(cpu.register_a, 0xFA);
}

#[test]
fn test_lda_zero_page_y() {
    let mut cpu = CPU::new(Bus::new());
    cpu.mem_write(0x0006, 0xFA);
    cpu.register_x = 0x03;
    cpu.load_and_run(vec![0xb5, 0x03, 0x00]);
    assert_eq!(cpu.register_a, 0xFA);
}

#[test]
fn test_lda_zero_absolute() {
    let mut cpu = CPU::new(Bus::new());
    cpu.mem_write(0x1234, 0xFA);
    cpu.load_and_run(vec![0xad, 0x34, 0x12, 0x00]);
    assert_eq!(cpu.register_a, 0xFA);
}

#[test]
fn test_lda_zero_absolute_x() {
    let mut cpu = CPU::new(Bus::new());
    cpu.mem_write(0x1234, 0xFA);
    cpu.register_x = 0x10;
    cpu.load_and_run(vec![0xbd, 0x24, 0x12, 0x00]);
    assert_eq!(cpu.register_a, 0xFA);
}

#[test]
fn test_lda_zero_absolute_y() {
    let mut cpu = CPU::new(Bus::new());
    cpu.mem_write(0x1234, 0xFA);
    cpu.register_y = 0x20;
    cpu.load_and_run(vec![0xb9, 0x14, 0x12, 0x00]);
    assert_eq!(cpu.register_a, 0xFA);
}

#[test]
fn test_lda_zero_indirect_x() {
    let mut cpu = CPU::new(Bus::new());
    cpu.register_x = 0x01;
    cpu.register_a = 0x05;
    cpu.mem_write(0x0001, cpu.register_a);
    cpu.register_a = 0x07;
    cpu.mem_write(0x0002, cpu.register_a);
    cpu.register_y = 0x0a;
    cpu.mem_write(0x0705, cpu.register_y);

    cpu.load_and_run(vec![0xa1, 0x00, 0x00]);

    assert_eq!(cpu.register_a, 0x0a);
}

#[test]
fn test_lda_zero_indirect_y() {
    let mut cpu = CPU::new(Bus::new());

    cpu.register_y = 0x02;
    cpu.mem_write_u16(0x0002, 0x0705);
    cpu.mem_write(0x0705, 0xfa);

    cpu.load_and_run(vec![0xb1, 0x00, 0x00]);

    assert_eq!(cpu.register_a, 0xfa);
}

#[test]
fn test_0xa9_lda_immediate_load_data() {
    let mut cpu = CPU::new(Bus::new());
    cpu.load_and_run(vec![0xa9, 0x05, 0x00]);
    assert_eq!(cpu.register_a, 0x05);
    assert!(cpu.status & 0b0000_0010 == 0b00);
    assert!(cpu.status & 0b1000_0000 == 0);
}

#[test]
fn test_0xa9_lda_zero_flag() {
    let mut cpu = CPU::new(Bus::new());
    cpu.load_and_run(vec![0xa9, 0x00, 0x00]);
    assert!(cpu.status & 0b0000_0010 == 0b10);
}

#[test]
fn test_cpy_immediate() {
    let mut cpu = CPU::new(Bus::new());
    cpu.load_and_run(vec![0xa0, 0x05, 0xc0, 0x05, 0x00]);
    assert!(cpu.status & Flag::Carry.mask() != 0);
    assert!(cpu.status & Flag::Zero.mask() != 0);
    assert!(cpu.status & Flag::Negative.mask() == 0);
}

#[test]
fn test_cpy_zero() {
    let mut cpu = CPU::new(Bus::new());
    cpu.load_and_run(vec![0xa0, 0x05, 0xa2, 0x04, 0x86, 0x02, 0xc4, 0x02, 0x00]);
    println!("{}", cpu.status);
    assert!(cpu.status & Flag::Carry.mask() != 0);
    assert!(cpu.status & Flag::Zero.mask() == 0);
    assert!(cpu.status & Flag::Negative.mask() == 0);
}

#[test]
fn test_cpy_absolute() {
    let mut cpu = CPU::new(Bus::new());
    cpu.load_and_run(vec![
        0xa0, 0x05, 0xa2, 0x06, 0x8e, 0x34, 0x12, 0xcc, 0x34, 0x12, 0x00,
    ]);
    assert!(cpu.status & Flag::Carry.mask() == 0);
    assert!(cpu.status & Flag::Zero.mask() == 0);
    assert!(cpu.status & Flag::Negative.mask() != 0);
}

#[test]
fn test_cpy_compare_y_register_set_carry() {
    let mut cpu = CPU::new(Bus::new());
    cpu.register_y = 0x30;
    cpu.load_and_run(vec![0xc0, 0x29, 0x00]);
    assert!(cpu.status & 0b1000_0011 == 0b0000_0001);
}

#[test]
fn test_0xc0_cpy_compare_y_register_set_zero() {
    let mut cpu = CPU::new(Bus::new());
    cpu.register_y = 0x29;
    cpu.load_and_run(vec![0xc0, 0x29, 0x00]);
    assert_eq!(cpu.status & Flag::Zero.mask(), Flag::Zero.mask());
}

#[test]
fn test_0xc0_cpy_compare_y_register_set_negative() {
    let mut cpu = CPU::new(Bus::new());
    cpu.register_y = 0x20;
    cpu.load_and_run(vec![0xc0, 0x29, 0x00]);
    assert!(cpu.status & 0b1000_0011 == 0b1000_0000);
}

#[test]
fn test_0xa8_tay_transfer_accumulator_to_y() {
    let mut cpu = CPU::new(Bus::new());
    cpu.register_a = 0x23;
    cpu.load_and_run(vec![0xa8, 0x00]);
    assert_eq!(cpu.register_y, cpu.register_a);
    assert!(cpu.status & 0b0000_0010 == 0);
    assert!(cpu.status & 0b1000_0000 == 0);
}

#[test]
fn test_0xa8_tay_transfer_accumulator_to_y_zero_flag() {
    let mut cpu = CPU::new(Bus::new());
    cpu.register_a = 0;
    cpu.load_and_run(vec![0xa8, 0x00]);
    assert_eq!(cpu.register_y, cpu.register_a);
    assert!(cpu.status & 0b0000_0010 == 0b0000_0010);
    assert!(cpu.status & 0b1000_0000 == 0);
}

#[test]
fn test_0xa8_tay_transfer_accumulator_to_y_negative_flag() {
    let mut cpu = CPU::new(Bus::new());
    cpu.register_a = 0xF0;
    cpu.load_and_run(vec![0xa8, 0x00]);
    assert_eq!(cpu.register_y, cpu.register_a);
    assert!(cpu.status & 0b0000_0010 == 0);
    assert!(cpu.status & 0b1000_0000 != 0);
}

#[test]
fn test_0xaa_tax_move_a_to_x() {
    let mut cpu = CPU::new(Bus::new());
    cpu.register_a = 10;
    cpu.load_and_run(vec![0xaa, 0x00]);

    assert_eq!(cpu.register_x, 10)
}

#[test]
fn test_0xaa_tax_move_a_to_x_zero_flag_on() {
    let mut cpu = CPU::new(Bus::new());
    cpu.register_a = 0x00;
    cpu.load_and_run(vec![0xaa, 0x00]);
    assert!(cpu.status & 0b0000_0010 != 0);
    assert!(cpu.status & 0b1000_0000 == 0);
}

#[test]
fn test_0xaa_tax_move_a_to_x_zero_negative_flag_on() {
    let mut cpu = CPU::new(Bus::new());
    cpu.register_a = 0xf1;
    cpu.load_and_run(vec![0xaa, 0x00]);
    assert!(cpu.status & 0b0000_0010 == 0);
    assert!(cpu.status & 0b1000_0000 != 0);
}

#[test]
fn test_5_ops_working_together() {
    let mut cpu = CPU::new(Bus::new());
    cpu.load_and_run(vec![0xa9, 0xc0, 0xaa, 0xe8, 0x00]);

    assert_eq!(cpu.register_x, 0xc1)
}

#[test]
fn test_inx_overflow() {
    let mut cpu = CPU::new(Bus::new());
    cpu.register_x = 0xff;
    cpu.load_and_run(vec![0xe8, 0x00]);

    assert_eq!(cpu.register_x, 0);
    assert!(cpu.status & Flag::Zero.mask() != 0);
}

#[test]
fn test_inx_positive() {
    let mut cpu = CPU::new(Bus::new());
    cpu.register_x = 0x11;
    cpu.load_and_run(vec![0xe8, 0xe8, 0x00]);

    assert_eq!(cpu.register_x, 0x13);
    assert!(cpu.status & Flag::Zero.mask() == 0);
    assert!(cpu.status & Flag::Negative.mask() == 0);
}
