use mos6502::cpu::{Fault, CPU};

#[test]
fn test_0xa9_lda_immediate_load_data() {
    let mut cpu = CPU::new();
    assert_eq!(cpu.interpret(vec![0xa9, 0x05, 0x00]), Ok(()));
    assert_eq!(cpu.register_a, 0x05);
    assert!(cpu.status & 0b0000_0010 == 0b00);
    assert!(cpu.status & 0b1000_0000 == 0);
}

#[test]
fn test_0xa9_lda_zero_flag() {
    let mut cpu = CPU::new();
    assert_eq!(cpu.interpret(vec![0xa9, 0x00, 0x00]), Ok(()));
    assert!(cpu.status & 0b0000_0010 == 0b10);
}

#[test]
fn test_0xaa_tax_move_a_to_x() {
    let mut cpu = CPU::new();
    cpu.register_a = 10;
    assert_eq!(cpu.interpret(vec![0xaa, 0x00]), Ok(()));

    assert_eq!(cpu.register_x, 10)
}

#[test]
fn new_register_file_is_all_zero() {
    let cpu = CPU::new();
    assert_eq!(cpu.register_a, 0);
    assert_eq!(cpu.register_x, 0);
    assert_eq!(cpu.status, 0);
    assert_eq!(cpu.program_counter, 0);
}

#[test]
fn lda_tax_inx_brk_scenario() {
    let mut cpu = CPU::new();
    assert_eq!(cpu.interpret(vec![0xA9, 0x05, 0xAA, 0xE8, 0x00]), Ok(()));
    assert_eq!(cpu.register_a, 5);
    assert_eq!(cpu.register_x, 6);
    assert_eq!(cpu.status & 0b0000_0010, 0);
    assert_eq!(cpu.status & 0b1000_0000, 0);
    assert_eq!(cpu.status, 0);
    assert_eq!(cpu.program_counter, 5);
}

#[test]
fn lda_zero_sets_zero_flag_only() {
    let mut cpu = CPU::new();
    assert_eq!(cpu.interpret(vec![0xA9, 0x00, 0x00]), Ok(()));
    assert_eq!(cpu.status & 0b0000_0010, 0b0000_0010);
    assert_eq!(cpu.status & 0b1000_0000, 0);
    assert_eq!(cpu.register_a, 0);
    assert_eq!(cpu.status, 0b0000_0010);
}

#[test]
fn lda_0x80_sets_negative_flag_only() {
    let mut cpu = CPU::new();
    assert_eq!(cpu.interpret(vec![0xA9, 0x80, 0x00]), Ok(()));
    assert_eq!(cpu.status & 0b1000_0000, 0b1000_0000);
    assert_eq!(cpu.status & 0b0000_0010, 0);
    assert_eq!(cpu.register_a, 0x80);
    assert_eq!(cpu.status, 0b1000_0000);
}

#[test]
fn lda_then_brk_for_every_value() {
    for v in 0..=255u8 {
        let mut cpu = CPU::new();
        cpu.register_x = 0x33;
        cpu.status = 0b0100_0001;
        assert_eq!(cpu.interpret(vec![0xA9, v, 0x00]), Ok(()));
        assert_eq!(cpu.register_a, v);
        assert_eq!(cpu.status & 0b0000_0010 != 0, v == 0);
        assert_eq!(cpu.status & 0b1000_0000 != 0, v >= 0x80);
        assert_eq!(cpu.status & 0b0111_1101, 0b0100_0001);
        assert_eq!(cpu.register_x, 0x33);
        assert_eq!(cpu.program_counter, 3);
    }
}

#[test]
fn tax_then_brk_for_every_value() {
    for v in 0..=255u8 {
        let mut cpu = CPU::new();
        cpu.register_a = v;
        cpu.register_x = v.wrapping_add(1);
        assert_eq!(cpu.interpret(vec![0xAA, 0x00]), Ok(()));
        assert_eq!(cpu.register_x, v);
        assert_eq!(cpu.register_a, v);
        assert_eq!(cpu.status & 0b0000_0010 != 0, v == 0);
        assert_eq!(cpu.status & 0b1000_0000 != 0, v & 0x80 != 0);
        assert_eq!(cpu.program_counter, 2);
    }
}

#[test]
fn inx_wraps_from_0xff_to_zero() {
    let mut cpu = CPU::new();
    cpu.register_x = 0xFF;
    cpu.status = 0b1000_0000;
    assert_eq!(cpu.interpret(vec![0xE8, 0x00]), Ok(()));
    assert_eq!(cpu.register_x, 0x00);
    assert_eq!(cpu.status & 0b0000_0010, 0b0000_0010);
    assert_eq!(cpu.status & 0b1000_0000, 0);
}

#[test]
fn inx_from_0x7f_sets_negative() {
    let mut cpu = CPU::new();
    cpu.register_x = 0x7F;
    cpu.status = 0b0000_0010;
    assert_eq!(cpu.interpret(vec![0xE8, 0x00]), Ok(()));
    assert_eq!(cpu.register_x, 0x80);
    assert_eq!(cpu.status & 0b1000_0000, 0b1000_0000);
    assert_eq!(cpu.status & 0b0000_0010, 0);
}

#[test]
fn inx_handler_adds_one_modulo_256() {
    for x in 0..=255u8 {
        let mut cpu = CPU::new();
        cpu.register_x = x;
        cpu.register_a = 0x42;
        cpu.program_counter = 7;
        cpu.inx();
        let expected = ((x as u16 + 1) % 256) as u8;
        assert_eq!(cpu.register_x, expected);
        assert_eq!(cpu.status & 0b0000_0010 != 0, expected == 0);
        assert_eq!(cpu.status & 0b1000_0000 != 0, expected >= 0x80);
        assert_eq!(cpu.register_a, 0x42);
        assert_eq!(cpu.program_counter, 7);
    }
}

#[test]
fn lda_handler_loads_and_flags() {
    let mut cpu = CPU::new();
    cpu.status = 0b0000_0010;
    cpu.lda(0xC3);
    assert_eq!(cpu.register_a, 0xC3);
    assert_eq!(cpu.status, 0b1000_0000);
    assert_eq!(cpu.register_x, 0);
    assert_eq!(cpu.program_counter, 0);
}

#[test]
fn tax_handler_copies_and_flags() {
    let mut cpu = CPU::new();
    cpu.register_a = 0;
    cpu.register_x = 9;
    cpu.status = 0b1000_0001;
    cpu.tax();
    assert_eq!(cpu.register_x, 0);
    assert_eq!(cpu.register_a, 0);
    assert_eq!(cpu.status, 0b0000_0011);
}

#[test]
fn brk_first_halts_without_touching_registers() {
    let mut cpu = CPU::new();
    cpu.register_a = 0x12;
    cpu.register_x = 0x34;
    cpu.status = 0b1111_1111;
    cpu.program_counter = 0x0123;
    assert_eq!(cpu.interpret(vec![0x00, 0xA9, 0x55, 0xFF]), Ok(()));
    assert_eq!(cpu.register_a, 0x12);
    assert_eq!(cpu.register_x, 0x34);
    assert_eq!(cpu.status, 0b1111_1111);
    assert_eq!(cpu.program_counter, 1);
}

#[test]
fn unknown_opcode_is_reported() {
    let mut cpu = CPU::new();
    cpu.register_a = 1;
    cpu.register_x = 2;
    cpu.status = 0b0010_0100;
    assert_eq!(
        cpu.interpret(vec![0xFF]),
        Err(Fault::UnimplementedOpcode { opcode: 0xFF })
    );
    assert_eq!(cpu.register_a, 1);
    assert_eq!(cpu.register_x, 2);
    assert_eq!(cpu.status, 0b0010_0100);
    assert_eq!(cpu.program_counter, 1);
}

#[test]
fn unknown_opcode_after_work_keeps_the_work() {
    let mut cpu = CPU::new();
    assert_eq!(
        cpu.interpret(vec![0xA9, 0x07, 0xAA, 0x02, 0x00]),
        Err(Fault::UnimplementedOpcode { opcode: 0x02 })
    );
    assert_eq!(cpu.register_a, 7);
    assert_eq!(cpu.register_x, 7);
    assert_eq!(cpu.program_counter, 4);
}

#[test]
fn empty_program_is_out_of_bounds_at_zero() {
    let mut cpu = CPU::new();
    cpu.program_counter = 9;
    assert_eq!(
        cpu.interpret(Vec::new()),
        Err(Fault::OutOfBounds { index: 0 })
    );
    assert_eq!(cpu.program_counter, 0);
}

#[test]
fn program_without_halt_runs_off_the_end() {
    let mut cpu = CPU::new();
    assert_eq!(
        cpu.interpret(vec![0xA9, 0x05, 0xE8]),
        Err(Fault::OutOfBounds { index: 3 })
    );
    assert_eq!(cpu.register_a, 5);
    assert_eq!(cpu.register_x, 1);
    assert_eq!(cpu.program_counter, 3);
}

#[test]
fn lda_without_operand_is_out_of_bounds() {
    let mut cpu = CPU::new();
    cpu.register_a = 0x77;
    cpu.status = 0b0000_0001;
    assert_eq!(
        cpu.interpret(vec![0xA9]),
        Err(Fault::OutOfBounds { index: 1 })
    );
    assert_eq!(cpu.register_a, 0x77);
    assert_eq!(cpu.status, 0b0000_0001);
    assert_eq!(cpu.program_counter, 1);
}

#[test]
fn interpret_starts_again_from_the_first_byte() {
    let mut cpu = CPU::new();
    let program = vec![0xE8, 0xE8, 0x00];
    assert_eq!(cpu.interpret(program.clone()), Ok(()));
    assert_eq!(cpu.register_x, 2);
    assert_eq!(cpu.program_counter, 3);
    assert_eq!(cpu.interpret(program), Ok(()));
    assert_eq!(cpu.register_x, 4);
    assert_eq!(cpu.program_counter, 3);
}

#[test]
fn two_register_files_are_independent() {
    let mut first = CPU::new();
    let mut second = CPU::new();
    assert_eq!(first.interpret(vec![0xA9, 0x11, 0xAA, 0x00]), Ok(()));
    assert_eq!(second.interpret(vec![0xA9, 0x80, 0x00]), Ok(()));
    assert_eq!((first.register_a, first.register_x, first.status), (0x11, 0x11, 0));
    assert_eq!((second.register_a, second.register_x, second.status), (0x80, 0, 0x80));
}

#[test]
fn program_of_65535_bytes_runs_to_its_end() {
    let mut program = vec![0xE8u8; 0xFFFF];
    program[0xFFFE] = 0x00;
    let mut cpu = CPU::new();
    assert_eq!(cpu.interpret(program), Ok(()));
    assert_eq!(cpu.register_x, (0xFFFEu32 % 256) as u8);
    assert_eq!(cpu.program_counter, 0xFFFF);
}

#[test]
fn program_of_65535_bytes_without_halt_runs_off_the_end() {
    let program = vec![0xAAu8; 0xFFFF];
    let mut cpu = CPU::new();
    cpu.register_a = 0x81;
    assert_eq!(cpu.interpret(program), Err(Fault::OutOfBounds { index: 0xFFFF }));
    assert_eq!(cpu.register_x, 0x81);
    assert_eq!(cpu.status, 0b1000_0000);
    assert_eq!(cpu.program_counter, 0xFFFF);
}

#[test]
fn halt_in_the_last_byte_of_64_kib_wraps_the_counter() {
    let mut program = vec![0xE8u8; 0x1_0000];
    program[0xFFFF] = 0x00;
    let mut cpu = CPU::new();
    assert_eq!(cpu.interpret(program), Ok(()));
    assert_eq!(cpu.register_x, 0xFF);
    assert_eq!(cpu.status, 0b1000_0000);
    assert_eq!(cpu.program_counter, 0);
}

#[test]
fn long_program_that_halts_early_is_run() {
    let mut program = vec![0xAAu8; 100_000];
    program[0] = 0xA9;
    program[1] = 0x00;
    program[2] = 0x00;
    let mut cpu = CPU::new();
    cpu.register_a = 9;
    assert_eq!(cpu.interpret(program), Ok(()));
    assert_eq!(cpu.register_a, 0);
    assert_eq!(cpu.status, 0b0000_0010);
    assert_eq!(cpu.program_counter, 3);
}
