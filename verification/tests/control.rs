use nes::bus::{Bus, Mem};
use nes::cpu::{AddressingMode, Flag, CPU};
use nes::opcodes::{lookup, Group, Mnemonic};

fn loaded(program: Vec<u8>) -> CPU {
    let mut cpu = CPU::new(Bus::new());
    cpu.load(program);
    cpu
}

// ----- the table -----

#[test]
fn lookup_knows_the_documented_opcodes() {
    let op = lookup(0xa9).unwrap();
    assert_eq!(op.code, 0xa9);
    assert_eq!(op.mnemonic, Mnemonic::LDA);
    assert_eq!(op.len, 2);
    assert_eq!(op.cycles, 2);
    assert_eq!(op.mode, AddressingMode::Immediate);

    let op = lookup(0x6c).unwrap();
    assert_eq!(op.mnemonic, Mnemonic::JMP);
    assert_eq!(op.len, 3);
    assert_eq!(op.cycles, 5);
    assert_eq!(op.mode, AddressingMode::Indirect);

    let op = lookup(0x00).unwrap();
    assert_eq!(op.mnemonic, Mnemonic::BRK);
    assert_eq!(op.len, 1);
    assert_eq!(op.cycles, 7);
    assert_eq!(op.mode, AddressingMode::NoneAddressing);

    let op = lookup(0x0a).unwrap();
    assert_eq!(op.mnemonic, Mnemonic::ASL);
    assert_eq!(op.len, 1);
    assert_eq!(op.mode, AddressingMode::Accumulator);

    let op = lookup(0x91).unwrap();
    assert_eq!(op.mnemonic, Mnemonic::STA);
    assert_eq!(op.len, 2);
    assert_eq!(op.cycles, 6);
    assert_eq!(op.mode, AddressingMode::Indirect_Y);

    let op = lookup(0xd0).unwrap();
    assert_eq!(op.mnemonic, Mnemonic::BNE);
    assert_eq!(op.len, 2);
    assert_eq!(op.mode, AddressingMode::NoneAddressing);

    let op = lookup(0x98).unwrap();
    assert_eq!(op.mnemonic, Mnemonic::TYA);
}

#[test]
fn lookup_rejects_undocumented_opcodes() {
    for code in [0x02u8, 0x03, 0x04, 0x0b, 0x1a, 0x80, 0x89, 0x9c, 0xa7, 0xeb, 0xff] {
        assert!(lookup(code).is_none());
    }
}

#[test]
fn table_holds_151_consistent_descriptors() {
    let mut known = 0;
    for code in 0..=255u8 {
        if let Some(op) = lookup(code) {
            known += 1;
            assert_eq!(op.code, code);
            assert!(1 <= op.len && op.len <= 3);
            assert!(1 <= op.cycles && op.cycles <= 7);
            let operand_bytes = match op.mode {
                AddressingMode::Accumulator | AddressingMode::NoneAddressing => 0,
                AddressingMode::Absolute
                | AddressingMode::Absolute_X
                | AddressingMode::Absolute_Y
                | AddressingMode::Indirect => 2,
                _ => 1,
            };
            if op.mnemonic.group() == Group::Control && op.len == 2 {
                assert_eq!(op.mode, AddressingMode::NoneAddressing);
            } else {
                assert_eq!(op.len, 1 + operand_bytes);
            }
        }
    }
    assert_eq!(known, 151);
}

#[test]
fn groups_of_mnemonics() {
    assert_eq!(Mnemonic::LDA.group(), Group::Move);
    assert_eq!(Mnemonic::TXS.group(), Group::Move);
    assert_eq!(Mnemonic::PHA.group(), Group::Arithmetic);
    assert_eq!(Mnemonic::SBC.group(), Group::Arithmetic);
    assert_eq!(Mnemonic::INC.group(), Group::Shift);
    assert_eq!(Mnemonic::ROR.group(), Group::Shift);
    assert_eq!(Mnemonic::JSR.group(), Group::Control);
    assert_eq!(Mnemonic::BVS.group(), Group::Control);
    assert_eq!(Mnemonic::CLV.group(), Group::System);
    assert_eq!(Mnemonic::BRK.group(), Group::System);
}

// ----- construction, reset, load -----

#[test]
fn new_processor_is_all_zero() {
    let cpu = CPU::new(Bus::new());
    assert_eq!(cpu.register_a, 0);
    assert_eq!(cpu.register_x, 0);
    assert_eq!(cpu.register_y, 0);
    assert_eq!(cpu.program_counter, 0);
    assert_eq!(cpu.stack_pointer, 0);
    assert_eq!(cpu.status, 0);
    assert_eq!(cpu.mem_read(0x0000), 0);
    assert_eq!(cpu.mem_read(0x07ff), 0);
}

#[test]
fn reset_restores_the_registers() {
    let mut cpu = CPU::new(Bus::new());
    cpu.register_a = 1;
    cpu.register_x = 2;
    cpu.register_y = 3;
    cpu.status = 0xff;
    cpu.stack_pointer = 0x10;
    cpu.program_counter = 0x1234;
    cpu.mem_write(0x0042, 0x99);
    cpu.reset();
    assert_eq!(cpu.register_a, 0);
    assert_eq!(cpu.register_x, 0);
    assert_eq!(cpu.register_y, 0);
    assert_eq!(cpu.status, 0);
    assert_eq!(cpu.stack_pointer, 0xfd);
    assert_eq!(cpu.program_counter, cpu.mem_read_u16(0xfffc));
    assert_eq!(cpu.mem_read(0x0042), 0x99);
}

#[test]
fn reset_vector_is_outside_ram() {
    let mut cpu = loaded(vec![0xa9, 0x01, 0x00]);
    assert_eq!(cpu.mem_read_u16(0xfffc), 0x0000);
    cpu.reset();
    assert_eq!(cpu.program_counter, 0x0000);
}

#[test]
fn load_copies_the_program_to_0x0600() {
    let mut cpu = CPU::new(Bus::new());
    cpu.register_a = 0x11;
    cpu.register_x = 0x22;
    cpu.register_y = 0x33;
    cpu.stack_pointer = 0x44;
    cpu.status = 0x55;
    cpu.mem_write(0x05ff, 0xee);
    cpu.mem_write(0x0604, 0xdd);
    cpu.load(vec![0xa9, 0x05, 0xaa, 0x00]);
    assert_eq!(cpu.program_counter, 0x0600);
    assert_eq!(cpu.mem_read(0x0600), 0xa9);
    assert_eq!(cpu.mem_read(0x0601), 0x05);
    assert_eq!(cpu.mem_read(0x0602), 0xaa);
    assert_eq!(cpu.mem_read(0x0603), 0x00);
    assert_eq!(cpu.mem_read(0x05ff), 0xee);
    assert_eq!(cpu.mem_read(0x0604), 0xdd);
    assert_eq!(cpu.mem_read(0x0e00), 0xa9);
    assert_eq!(cpu.register_a, 0x11);
    assert_eq!(cpu.register_x, 0x22);
    assert_eq!(cpu.register_y, 0x33);
    assert_eq!(cpu.stack_pointer, 0x44);
    assert_eq!(cpu.status, 0x55);
}

#[test]
fn load_of_an_empty_program() {
    let mut cpu = CPU::new(Bus::new());
    cpu.program_counter = 0x1234;
    cpu.load(vec![]);
    assert_eq!(cpu.program_counter, 0x0600);
    assert_eq!(cpu.mem_read(0x0600), 0x00);
}

#[test]
fn load_of_a_program_longer_than_ram_overwrites_itself() {
    let mut program = vec![0x11u8; 0x0801];
    program[0x0800] = 0x22;
    program[0x07ff] = 0x33;
    let cpu = loaded(program);
    assert_eq!(cpu.mem_read(0x0600), 0x22);
    assert_eq!(cpu.mem_read(0x0601), 0x11);
    assert_eq!(cpu.mem_read(0x05ff), 0x33);
    assert_eq!(cpu.program_counter, 0x0600);
}

#[test]
fn load_of_the_longest_program() {
    let mut program = vec![0x00u8; 0x1a00];
    program[0x19ff] = 0x77;
    let cpu = loaded(program);
    assert_eq!(cpu.mem_read(0x1fff), 0x77);
    assert_eq!(cpu.mem_read(0x07ff), 0x77);
}

// ----- single steps -----

#[test]
fn step_reports_brk() {
    let mut cpu = loaded(vec![0xea, 0x00]);
    assert!(cpu.step());
    assert_eq!(cpu.program_counter, 0x0601);
    assert!(!cpu.step());
    assert_eq!(cpu.program_counter, 0x0602);
}

#[test]
fn step_moves_past_the_operand_bytes() {
    let mut cpu = loaded(vec![0xea, 0xa9, 0x01, 0xad, 0x00, 0x02, 0x00]);
    assert!(cpu.step());
    assert_eq!(cpu.program_counter, 0x0601);
    assert!(cpu.step());
    assert_eq!(cpu.program_counter, 0x0603);
    assert!(cpu.step());
    assert_eq!(cpu.program_counter, 0x0606);
}

#[test]
fn program_counter_wraps_at_the_top() {
    let mut cpu = CPU::new(Bus::new());
    cpu.program_counter = 0xffff;
    assert!(!cpu.step());
    assert_eq!(cpu.program_counter, 0x0000);
}

// ----- branches -----

#[test]
fn branch_not_taken_moves_past_two_bytes() {
    let cases = [
        (0x10u8, Flag::Negative, true),
        (0x30, Flag::Negative, false),
        (0x50, Flag::Overflow, true),
        (0x70, Flag::Overflow, false),
        (0x90, Flag::Carry, true),
        (0xb0, Flag::Carry, false),
        (0xd0, Flag::Zero, true),
        (0xf0, Flag::Zero, false),
    ];
    for (code, flag, value) in cases {
        for offset in [0x00u8, 0x05, 0x7f, 0x80, 0xfb, 0xff] {
            let mut cpu = loaded(vec![code, offset, 0x00]);
            cpu.set_flag(flag, value);
            let status = cpu.status;
            assert!(cpu.step());
            assert_eq!(cpu.program_counter, 0x0602);
            assert_eq!(cpu.status, status);
        }
    }
}

#[test]
fn branch_taken_adds_the_signed_offset() {
    let cases = [
        (0x10u8, Flag::Negative, false),
        (0x30, Flag::Negative, true),
        (0x50, Flag::Overflow, false),
        (0x70, Flag::Overflow, true),
        (0x90, Flag::Carry, false),
        (0xb0, Flag::Carry, true),
        (0xd0, Flag::Zero, false),
        (0xf0, Flag::Zero, true),
    ];
    for (code, flag, value) in cases {
        for offset in 0..=255u8 {
            let mut cpu = loaded(vec![code, offset, 0x00]);
            cpu.set_flag(flag, value);
            assert!(cpu.step());
            let expected = (0x0600i32 + 2 + (offset as i8) as i32) as u16;
            assert_eq!(cpu.program_counter, expected);
        }
    }
}

#[test]
fn branch_taken_exact_targets() {
    let mut cpu = loaded(vec![0xd0, 0x05, 0x00]);
    assert!(cpu.step());
    assert_eq!(cpu.program_counter, 0x0607);

    let mut cpu = loaded(vec![0xd0, 0xfb, 0x00]);
    assert!(cpu.step());
    assert_eq!(cpu.program_counter, 0x05fd);

    let mut cpu = loaded(vec![0xd0, 0xfe, 0x00]);
    assert!(cpu.step());
    assert_eq!(cpu.program_counter, 0x0600);

    let mut cpu = loaded(vec![0xd0, 0x80, 0x00]);
    assert!(cpu.step());
    assert_eq!(cpu.program_counter, 0x0582);

    let mut cpu = loaded(vec![0xd0, 0x7f, 0x00]);
    assert!(cpu.step());
    assert_eq!(cpu.program_counter, 0x0681);
}

#[test]
fn branch_taken_with_offset_minus_one_lands_on_its_offset_byte() {
    let mut cpu = loaded(vec![0xd0, 0xff, 0x00]);
    assert!(cpu.step());
    assert_eq!(cpu.program_counter, 0x0601);

    for code in [0x10u8, 0x50, 0x90, 0xd0] {
        let mut cpu = loaded(vec![code, 0xff, 0x00]);
        assert!(cpu.step());
        assert_eq!(cpu.program_counter, 0x0601);
    }
}

#[test]
fn branch_target_wraps_around_the_address_space() {
    let mut cpu = CPU::new(Bus::new());
    cpu.mem_write(0x0000, 0xd0);
    cpu.mem_write(0x0001, 0x80);
    cpu.program_counter = 0x0000;
    assert!(cpu.step());
    assert_eq!(cpu.program_counter, 0xff82);
}

// ----- jumps and calls -----

#[test]
fn jmp_absolute() {
    let mut cpu = loaded(vec![0x4c, 0x34, 0x12, 0x00]);
    assert!(cpu.step());
    assert_eq!(cpu.program_counter, 0x1234);
    assert_eq!(cpu.stack_pointer, 0x00);
}

#[test]
fn jmp_indirect_reads_its_pointer_from_the_zero_page() {
    let mut cpu = loaded(vec![0x6c, 0x10, 0x00, 0x00]);
    cpu.mem_write_u16(0x0010, 0x0345);
    assert!(cpu.step());
    assert_eq!(cpu.program_counter, 0x0345);
}

#[test]
fn jmp_to_the_address_behind_its_opcode_goes_there() {
    let mut cpu = loaded(vec![0x4c, 0x01, 0x06, 0x00]);
    assert!(cpu.step());
    assert_eq!(cpu.program_counter, 0x0601);
}

#[test]
fn jsr_to_the_address_behind_its_opcode_goes_there() {
    let mut cpu = loaded(vec![0x20, 0x01, 0x06, 0x00]);
    cpu.stack_pointer = 0xfd;
    assert!(cpu.step());
    assert_eq!(cpu.program_counter, 0x0601);
    assert_eq!(cpu.stack_pointer, 0xfb);
    assert_eq!(cpu.mem_read(0x01fd), 0x06);
    assert_eq!(cpu.mem_read(0x01fc), 0x03);
}

#[test]
fn rts_to_the_address_behind_its_opcode_goes_there() {
    let mut cpu = loaded(vec![0x60, 0x00]);
    cpu.stack_pointer = 0xfb;
    cpu.mem_write(0x01fc, 0x01);
    cpu.mem_write(0x01fd, 0x06);
    assert!(cpu.step());
    assert_eq!(cpu.program_counter, 0x0601);
    assert_eq!(cpu.stack_pointer, 0xfd);
}

#[test]
fn jsr_pushes_the_address_of_the_next_instruction() {
    let mut cpu = loaded(vec![0x20, 0x09, 0x06, 0x00]);
    cpu.stack_pointer = 0xfd;
    assert!(cpu.step());
    assert_eq!(cpu.program_counter, 0x0609);
    assert_eq!(cpu.stack_pointer, 0xfb);
    assert_eq!(cpu.mem_read(0x01fd), 0x06);
    assert_eq!(cpu.mem_read(0x01fc), 0x03);
}

#[test]
fn rts_takes_the_program_counter_from_the_stack() {
    let mut cpu = loaded(vec![0x60, 0x00]);
    cpu.stack_pointer = 0xfb;
    cpu.mem_write(0x01fc, 0x21);
    cpu.mem_write(0x01fd, 0x03);
    assert!(cpu.step());
    assert_eq!(cpu.program_counter, 0x0321);
    assert_eq!(cpu.stack_pointer, 0xfd);
}

#[test]
fn jsr_and_rts_return_behind_the_call() {
    let mut cpu = CPU::new(Bus::new());
    // 0600 JSR $0609; 0603 LDX #7; 0605 BRK; 0609 LDA #$2a; 060b RTS
    cpu.load_and_run(vec![
        0x20, 0x09, 0x06, 0xa2, 0x07, 0x00, 0xea, 0xea, 0xea, 0xa9, 0x2a, 0x60,
    ]);
    assert_eq!(cpu.register_a, 0x2a);
    assert_eq!(cpu.register_x, 0x07);
    assert_eq!(cpu.stack_pointer, 0x00);
    assert_eq!(cpu.mem_read(0x0100), 0x06);
    assert_eq!(cpu.mem_read(0x01ff), 0x03);
    assert_eq!(cpu.program_counter, 0x0606);
}

#[test]
fn nested_calls_return_in_order() {
    let mut cpu = CPU::new(Bus::new());
    cpu.stack_pointer = 0xfd;
    // 0600 JSR $0606; 0603 INX; 0604 BRK; 0605 NOP
    // 0606 JSR $060b; 0609 INX; 060a RTS
    // 060b LDX #$10; 060d RTS
    cpu.load_and_run(vec![
        0x20, 0x06, 0x06, 0xe8, 0x00, 0xea, 0x20, 0x0b, 0x06, 0xe8, 0x60, 0xa2, 0x10, 0x60,
    ]);
    assert_eq!(cpu.register_x, 0x12);
    assert_eq!(cpu.stack_pointer, 0xfd);
    assert_eq!(cpu.program_counter, 0x0605);
}

// ----- runs with a callback -----

#[test]
fn run_and_run_with_an_idle_callback_agree() {
    let program = vec![
        0xa2, 0x08, 0xca, 0x8e, 0x00, 0x02, 0xe0, 0x03, 0xd0, 0xf8, 0x8e, 0x01, 0x02, 0x00,
    ];
    let mut plain = loaded(program.clone());
    plain.run();
    let mut hooked = loaded(program);
    hooked.run_with_callback(|_| {});
    assert_eq!(plain.register_a, hooked.register_a);
    assert_eq!(plain.register_x, hooked.register_x);
    assert_eq!(plain.register_y, hooked.register_y);
    assert_eq!(plain.status, hooked.status);
    assert_eq!(plain.stack_pointer, hooked.stack_pointer);
    assert_eq!(plain.program_counter, hooked.program_counter);
    for addr in 0..0x0800u16 {
        assert_eq!(plain.mem_read(addr), hooked.mem_read(addr));
    }
    assert_eq!(hooked.register_x, 0x03);
}

#[test]
fn callback_is_called_before_each_fetch() {
    let mut cpu = loaded(vec![0xa9, 0x01, 0xaa, 0xe8, 0x00]);
    let mut trace = Vec::new();
    cpu.run_with_callback(|cpu| trace.push((cpu.program_counter, cpu.register_x)));
    assert_eq!(trace, vec![(0x0600, 0), (0x0602, 0), (0x0603, 1), (0x0604, 2)]);
    assert_eq!(cpu.register_x, 2);
    assert_eq!(cpu.program_counter, 0x0605);
}

#[test]
fn callback_can_end_the_run_at_a_brk() {
    // 0600 LDX #5; 0602 DEX; 0603 BNE $0602; 0605 BRK
    let mut cpu = loaded(vec![0xa2, 0x05, 0xca, 0xd0, 0xfd, 0x00]);
    let mut calls = 0;
    cpu.run_with_callback(|cpu| {
        calls += 1;
        if calls == 3 {
            cpu.program_counter = 0x0605;
        }
    });
    assert_eq!(calls, 3);
    assert_eq!(cpu.register_x, 4);
    assert_eq!(cpu.program_counter, 0x0606);
}

#[test]
fn callback_ends_an_endless_program() {
    // 0600 INX; 0601 JMP $0600
    let mut cpu = loaded(vec![0xe8, 0x4c, 0x00, 0x06]);
    let mut calls = 0;
    cpu.run_with_callback(|cpu| {
        calls += 1;
        if cpu.register_x == 3 {
            cpu.program_counter = 0x0010;
        }
    });
    assert_eq!(cpu.register_x, 0x03);
    assert_eq!(cpu.program_counter, 0x0011);
    assert_eq!(cpu.mem_read(cpu.program_counter.wrapping_sub(1)), 0x00);
    assert_eq!(calls, 6);
}

#[test]
fn run_ends_behind_a_brk() {
    let mut cpu = loaded(vec![0xa9, 0x01, 0xaa, 0x00, 0xa9, 0x02]);
    cpu.run_with_callback(|_| {});
    assert_eq!(cpu.program_counter, 0x0604);
    assert_eq!(cpu.mem_read(cpu.program_counter.wrapping_sub(1)), 0x00);
    assert_eq!(cpu.register_a, 0x01);
}

#[test]
fn stepping_an_endless_program_until_a_hook_moves_to_a_brk() {
    // 0600 INX; 0601 JMP $0600
    let mut cpu = loaded(vec![0xe8, 0x4c, 0x00, 0x06]);
    let mut rounds = 0;
    loop {
        rounds += 1;
        if cpu.register_x == 3 {
            cpu.program_counter = 0x0010;
        }
        if !cpu.step() {
            break;
        }
    }
    assert_eq!(cpu.register_x, 0x03);
    assert_eq!(cpu.program_counter, 0x0011);
    assert_eq!(rounds, 6);
}

#[test]
fn callback_changes_are_seen_by_the_next_instruction() {
    // 0600 NOP; 0601 TAX; 0602 BRK
    let mut cpu = loaded(vec![0xea, 0xaa, 0x00]);
    cpu.run_with_callback(|cpu| {
        if cpu.program_counter == 0x0601 {
            cpu.register_a = 0x99;
        }
    });
    assert_eq!(cpu.register_x, 0x99);
    assert!(cpu.get_flag(Flag::Negative));
}

#[test]
fn load_and_run_is_load_then_run() {
    let program = vec![0xa9, 0xc0, 0xaa, 0xe8, 0x00];
    let mut one = CPU::new(Bus::new());
    one.load_and_run(program.clone());
    let mut two = CPU::new(Bus::new());
    two.load(program);
    two.run();
    assert_eq!(one.register_a, two.register_a);
    assert_eq!(one.register_x, two.register_x);
    assert_eq!(one.status, two.status);
    assert_eq!(one.program_counter, two.program_counter);
    assert_eq!(one.register_x, 0xc1);
    assert_eq!(one.program_counter, 0x0605);
}
