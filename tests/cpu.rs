use chip8::instruction::{decode, Instruction};
use chip8::{Chip8Error, CPU};

fn machine(program: &[u8]) -> CPU {
    let mut cpu = CPU::new();
    cpu.load(program).unwrap();
    cpu
}

fn run(cpu: &mut CPU, ticks: usize) {
    for _ in 0..ticks {
        cpu.tick().unwrap();
    }
}

#[test]
fn set_then_add_immediate() {
    let mut cpu = machine(&[0x60, 0x12, 0x70, 0x03]);
    run(&mut cpu, 2);
    assert_eq!(cpu.register(0), 0x15);
    assert_eq!(cpu.program_counter(), 0x204);
}

#[test]
fn add_immediate_wraps_without_flag() {
    let mut cpu = machine(&[0x60, 0xFF, 0x6F, 0x07, 0x70, 0x02]);
    run(&mut cpu, 3);
    assert_eq!(cpu.register(0), 0x01);
    assert_eq!(cpu.register(0xF), 0x07);
}

#[test]
fn add_with_carry() {
    let mut cpu = machine(&[0x60, 200, 0x61, 100, 0x80, 0x14, 0x62, 10, 0x63, 20, 0x82, 0x34]);
    run(&mut cpu, 3);
    assert_eq!(cpu.register(0), 44);
    assert_eq!(cpu.register(0xF), 1);
    run(&mut cpu, 3);
    assert_eq!(cpu.register(2), 30);
    assert_eq!(cpu.register(0xF), 0);
}

#[test]
fn add_with_carry_at_boundary() {
    let mut cpu = machine(&[0x60, 0xFF, 0x61, 0x00, 0x80, 0x14, 0x61, 0x01, 0x80, 0x14]);
    run(&mut cpu, 3);
    assert_eq!(cpu.register(0), 0xFF);
    assert_eq!(cpu.register(0xF), 0);
    run(&mut cpu, 2);
    assert_eq!(cpu.register(0), 0x00);
    assert_eq!(cpu.register(0xF), 1);
}

#[test]
fn subtract_sets_not_borrow() {
    let mut cpu = machine(&[0x60, 5, 0x61, 10, 0x80, 0x15, 0x62, 10, 0x63, 5, 0x82, 0x35]);
    run(&mut cpu, 3);
    assert_eq!(cpu.register(0), 251);
    assert_eq!(cpu.register(0xF), 0);
    run(&mut cpu, 3);
    assert_eq!(cpu.register(2), 5);
    assert_eq!(cpu.register(0xF), 1);
}

#[test]
fn subtract_equal_values_is_no_borrow() {
    let mut cpu = machine(&[0x60, 7, 0x61, 7, 0x80, 0x15]);
    run(&mut cpu, 3);
    assert_eq!(cpu.register(0), 0);
    assert_eq!(cpu.register(0xF), 1);
}

#[test]
fn reverse_subtract() {
    let mut cpu = machine(&[0x60, 10, 0x61, 3, 0x80, 0x17]);
    run(&mut cpu, 3);
    assert_eq!(cpu.register(0), 249);
    assert_eq!(cpu.register(0xF), 0);
}

#[test]
fn shifts_keep_evicted_bit() {
    let mut cpu = machine(&[0x60, 0x81, 0x80, 0x06, 0x61, 0x81, 0x81, 0x0E, 0x62, 0x40, 0x82, 0x0E]);
    run(&mut cpu, 2);
    assert_eq!(cpu.register(0), 0x40);
    assert_eq!(cpu.register(0xF), 1);
    run(&mut cpu, 2);
    assert_eq!(cpu.register(1), 0x02);
    assert_eq!(cpu.register(0xF), 1);
    run(&mut cpu, 2);
    assert_eq!(cpu.register(2), 0x80);
    assert_eq!(cpu.register(0xF), 0);
}

#[test]
fn bitwise_operations() {
    let mut cpu = machine(&[
        0x60, 0x0C, 0x61, 0x0A, 0x62, 0x0C, 0x63, 0x0C, 0x84, 0x10, 0x80, 0x11, 0x82, 0x12,
        0x83, 0x13,
    ]);
    run(&mut cpu, 8);
    assert_eq!(cpu.register(4), 0x0A);
    assert_eq!(cpu.register(0), 0x0E);
    assert_eq!(cpu.register(2), 0x08);
    assert_eq!(cpu.register(3), 0x06);
}

#[test]
fn bcd_of_255() {
    let mut cpu = machine(&[0x60, 0xFF, 0xA3, 0x00, 0xF0, 0x33]);
    run(&mut cpu, 3);
    assert_eq!(cpu.read_byte(0x300), 2);
    assert_eq!(cpu.read_byte(0x301), 5);
    assert_eq!(cpu.read_byte(0x302), 5);
}

#[test]
fn bcd_of_small_value() {
    let mut cpu = machine(&[0x60, 0x07, 0xA3, 0x00, 0xF0, 0x33]);
    run(&mut cpu, 3);
    assert_eq!(cpu.read_byte(0x300), 0);
    assert_eq!(cpu.read_byte(0x301), 0);
    assert_eq!(cpu.read_byte(0x302), 7);
}

#[test]
fn draw_twice_clears_and_collides() {
    let mut cpu = machine(&[0xA0, 0x00, 0xD0, 0x05, 0xD0, 0x05]);
    run(&mut cpu, 2);
    assert_eq!(cpu.register(0xF), 0);
    assert!(cpu.get_display()[0]);
    assert!(cpu.get_display()[3]);
    assert!(!cpu.get_display()[4]);
    assert!(cpu.get_display()[64]);
    assert!(!cpu.get_display()[65]);
    run(&mut cpu, 1);
    assert_eq!(cpu.register(0xF), 1);
    assert!(cpu.get_display().iter().all(|p| !*p));
}

#[test]
fn draw_wraps_at_right_edge() {
    let mut cpu = machine(&[0x60, 0x3F, 0x61, 0x00, 0xA2, 0x08, 0xD0, 0x11, 0xFF, 0x00]);
    run(&mut cpu, 4);
    let display = cpu.get_display();
    for col in 0..64 {
        let expected = col == 63 || col <= 6;
        assert_eq!(display[col], expected, "column {}", col);
    }
    assert!(display[64..].iter().all(|p| !*p));
}

#[test]
fn draw_wraps_at_bottom_edge() {
    let mut cpu = machine(&[0x60, 0x00, 0x61, 0x1F, 0xA0, 0x00, 0xD0, 0x12]);
    run(&mut cpu, 4);
    let display = cpu.get_display();
    assert!(display[31 * 64]);
    assert!(display[0]);
    assert!(!display[64]);
}

#[test]
fn clear_after_draw_blanks_screen() {
    let mut cpu = machine(&[0xA0, 0x00, 0xD0, 0x05, 0x60, 0x0A, 0xF0, 0x29, 0xD0, 0x05, 0x00, 0xE0]);
    run(&mut cpu, 5);
    assert!(cpu.get_display().iter().any(|p| *p));
    run(&mut cpu, 1);
    assert_eq!(cpu.get_display().len(), 2048);
    assert!(cpu.get_display().iter().all(|p| !*p));
}

#[test]
fn timers_stop_at_zero() {
    let mut cpu = machine(&[0x60, 0x03, 0xF0, 0x15, 0x61, 0x01, 0xF1, 0x18]);
    run(&mut cpu, 4);
    assert_eq!(cpu.delay_timer(), 3);
    assert_eq!(cpu.sound_timer(), 1);
    cpu.tick_timers();
    assert_eq!(cpu.delay_timer(), 2);
    assert_eq!(cpu.sound_timer(), 0);
    for _ in 0..10 {
        cpu.tick_timers();
    }
    assert_eq!(cpu.delay_timer(), 0);
    assert_eq!(cpu.sound_timer(), 0);
}

#[test]
fn read_delay_timer() {
    let mut cpu = machine(&[0x60, 0x09, 0xF0, 0x15, 0xF2, 0x07]);
    run(&mut cpu, 2);
    cpu.tick_timers();
    run(&mut cpu, 1);
    assert_eq!(cpu.register(2), 8);
}

#[test]
fn wait_for_key_blocks_until_pressed() {
    let mut cpu = machine(&[0xF3, 0x0A]);
    run(&mut cpu, 3);
    assert_eq!(cpu.program_counter(), 0x200);
    cpu.keypress(9, true).unwrap();
    cpu.keypress(5, true).unwrap();
    run(&mut cpu, 1);
    assert_eq!(cpu.program_counter(), 0x202);
    assert_eq!(cpu.register(3), 5);
}

#[test]
fn call_then_return() {
    let mut program = vec![0u8; 0x102];
    program[0] = 0x23;
    program[1] = 0x00;
    program[0x100] = 0x00;
    program[0x101] = 0xEE;
    let mut cpu = machine(&program);
    run(&mut cpu, 1);
    assert_eq!(cpu.program_counter(), 0x300);
    assert_eq!(cpu.stack_depth(), 1);
    run(&mut cpu, 1);
    assert_eq!(cpu.program_counter(), 0x202);
    assert_eq!(cpu.stack_depth(), 0);
}

#[test]
fn jumps() {
    let mut cpu = machine(&[0x12, 0x04, 0x00, 0x00, 0x60, 0x10, 0xB3, 0x00]);
    run(&mut cpu, 1);
    assert_eq!(cpu.program_counter(), 0x204);
    run(&mut cpu, 2);
    assert_eq!(cpu.program_counter(), 0x310);
}

#[test]
fn skips() {
    let mut cpu = machine(&[0x60, 0x05, 0x30, 0x05, 0x00, 0x00, 0x40, 0x05, 0x61, 0x05, 0x50, 0x10]);
    run(&mut cpu, 2);
    assert_eq!(cpu.program_counter(), 0x206);
    run(&mut cpu, 1);
    assert_eq!(cpu.program_counter(), 0x208);
    run(&mut cpu, 2);
    assert_eq!(cpu.program_counter(), 0x20E);
}

#[test]
fn skip_on_keys() {
    let mut cpu = machine(&[0x60, 0x04, 0xE0, 0x9E, 0x00, 0x00, 0xE0, 0xA1]);
    run(&mut cpu, 2);
    assert_eq!(cpu.program_counter(), 0x204);
    let mut again = machine(&[0x60, 0x04, 0xE0, 0x9E, 0x00, 0x00, 0xE0, 0xA1]);
    again.keypress(4, true).unwrap();
    run(&mut again, 2);
    assert_eq!(again.program_counter(), 0x206);
    run(&mut again, 1);
    assert_eq!(again.program_counter(), 0x208);
}

#[test]
fn index_register_operations() {
    let mut cpu = machine(&[0x60, 0x0A, 0xF0, 0x29, 0xAF, 0xFF, 0x61, 0xFF, 0xF1, 0x1E]);
    run(&mut cpu, 2);
    assert_eq!(cpu.index_register(), 50);
    run(&mut cpu, 3);
    assert_eq!(cpu.index_register(), 0x10FE);
}

#[test]
fn store_and_load_registers() {
    let mut cpu = machine(&[
        0x60, 0x11, 0x61, 0x22, 0x62, 0x33, 0xA4, 0x00, 0xF1, 0x55, 0x60, 0x00, 0x61, 0x00,
        0x62, 0x00, 0xF2, 0x65,
    ]);
    run(&mut cpu, 5);
    assert_eq!(cpu.read_byte(0x400), 0x11);
    assert_eq!(cpu.read_byte(0x401), 0x22);
    assert_eq!(cpu.read_byte(0x402), 0x00);
    run(&mut cpu, 4);
    assert_eq!(cpu.register(0), 0x11);
    assert_eq!(cpu.register(1), 0x22);
    assert_eq!(cpu.register(2), 0x00);
}

#[test]
fn random_is_masked() {
    let mut cpu = machine(&[0xC0, 0x00, 0xC1, 0xF0, 0xC2, 0x0F]);
    run(&mut cpu, 1);
    assert_eq!(cpu.register(0), 0);
    cpu.step(0xAB).unwrap();
    assert_eq!(cpu.register(1), 0xA0);
    cpu.step(0xAB).unwrap();
    assert_eq!(cpu.register(2), 0x0B);
}

#[test]
fn new_machine_state() {
    let cpu = CPU::default();
    assert_eq!(cpu.program_counter(), 0x200);
    assert_eq!(cpu.index_register(), 0);
    assert_eq!(cpu.stack_depth(), 0);
    assert_eq!(cpu.read_byte(0), 0xF0);
    assert_eq!(cpu.read_byte(79), 0x80);
    assert_eq!(cpu.read_byte(80), 0);
    assert!(cpu.get_display().iter().all(|p| !*p));
}

#[test]
fn load_largest_program() {
    let mut cpu = CPU::new();
    let program = vec![0xAAu8; 3584];
    assert_eq!(cpu.load(&program), Ok(()));
    assert_eq!(cpu.read_byte(0x200), 0xAA);
    assert_eq!(cpu.read_byte(4095), 0xAA);
    assert_eq!(cpu.read_byte(0x1FF), 0);
}

#[test]
fn load_rejects_oversized_program() {
    let mut cpu = CPU::new();
    let program = vec![0xAAu8; 3585];
    assert_eq!(cpu.load(&program), Err(Chip8Error::RomTooLarge));
    assert_eq!(cpu.read_byte(0x200), 0);
}

#[test]
fn stack_overflow_is_reported() {
    let mut cpu = machine(&[0x22, 0x00]);
    run(&mut cpu, 16);
    assert_eq!(cpu.stack_depth(), 16);
    assert_eq!(cpu.tick(), Err(Chip8Error::StackOverflow));
    assert_eq!(cpu.stack_depth(), 16);
    assert_eq!(cpu.program_counter(), 0x200);
}

#[test]
fn stack_underflow_is_reported() {
    let mut cpu = machine(&[0x00, 0xEE]);
    assert_eq!(cpu.tick(), Err(Chip8Error::StackUnderflow));
    assert_eq!(cpu.program_counter(), 0x200);
}

#[test]
fn unknown_opcode_is_reported() {
    let mut cpu = machine(&[0x50, 0x01]);
    assert_eq!(cpu.tick(), Err(Chip8Error::UnknownOpcode(0x5001)));
    assert_eq!(cpu.program_counter(), 0x200);
}

#[test]
fn fetch_past_memory_is_reported() {
    let mut cpu = machine(&[0x1F, 0xFF]);
    run(&mut cpu, 1);
    assert_eq!(cpu.tick(), Err(Chip8Error::AddressOutOfRange));
}

#[test]
fn bcd_past_memory_is_reported() {
    let mut cpu = machine(&[0xAF, 0xFE, 0xF0, 0x33]);
    run(&mut cpu, 1);
    assert_eq!(cpu.tick(), Err(Chip8Error::AddressOutOfRange));
    assert_eq!(cpu.program_counter(), 0x202);
}

#[test]
fn key_index_out_of_range() {
    let mut cpu = CPU::new();
    assert_eq!(cpu.keypress(16, true), Err(Chip8Error::InvalidKey));
    assert_eq!(cpu.keypress(15, true), Ok(()));
    let mut skipper = machine(&[0x60, 0x14, 0xE0, 0x9E]);
    run(&mut skipper, 1);
    assert_eq!(skipper.tick(), Err(Chip8Error::InvalidKey));
}

#[test]
fn decode_families() {
    assert_eq!(decode(0x0000), Some(Instruction::Nop));
    assert_eq!(decode(0x00E0), Some(Instruction::ClearScreen));
    assert_eq!(decode(0x00EE), Some(Instruction::Return));
    assert_eq!(decode(0x1ABC), Some(Instruction::Jump(0xABC)));
    assert_eq!(decode(0x8AB4), Some(Instruction::AddReg(0xA, 0xB)));
    assert_eq!(decode(0x8AB6), Some(Instruction::ShiftRight(0xA)));
    assert_eq!(decode(0xD12F), Some(Instruction::Draw(1, 2, 0xF)));
    assert_eq!(decode(0xF265), Some(Instruction::LoadRegs(2)));
    assert_eq!(decode(0x8008), None);
    assert_eq!(decode(0x0123), None);
    assert_eq!(decode(0xE0FF), None);
}
