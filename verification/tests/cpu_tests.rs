use chiprs::bus::Bus;
use chiprs::cpu::Cpu;
use chiprs::state::Fault;
use chiprs::state::Step;

fn build_cpu() -> Cpu {
    Cpu::new()
}

fn build_machine(program: &[u8]) -> (Cpu, Bus) {
    let mut cpu = Cpu::new();
    cpu.load_rom(program.to_vec());
    (cpu, Bus::new())
}

fn run_steps(cpu: &mut Cpu, bus: &mut Bus, count: usize) {
    for _ in 0..count {
        assert_eq!(cpu.step(bus, 0), Ok(Step::Executed));
    }
}

#[test]
fn test_initialize() {
    let cpu = build_cpu();
    assert_eq!(cpu.pc(), 0x200);
    assert_eq!(cpu.sp(), 0);
    assert_eq!(cpu.stack(), [0; 16]);
}

#[test]
fn test_load_rom() {
    let mut cpu = build_cpu();
    let test_rom = vec![0xCC; 64];
    // Test load 64 bytes of data
    cpu.load_rom(test_rom);
    assert_eq!(cpu.ram().read_byte(512), 0xCC);
    assert_eq!(cpu.ram().read_byte(575), 0xCC);
}

#[test]
fn test_new_cpu_is_blank() {
    let mut cpu = build_cpu();
    for x in 0..16 {
        assert_eq!(cpu.register(x), 0);
    }
    assert_eq!(cpu.index(), 0);
    assert_eq!(cpu.delay_timer(), 0);
    assert_eq!(cpu.sound_timer(), 0);
    assert!(!cpu.should_beep());
    assert!(!cpu.should_redraw());
    assert_eq!(cpu.ram().read_byte(0), 0xF0);
    assert_eq!(cpu.ram().read_byte(79), 0x80);
    assert_eq!(cpu.ram().read_byte(80), 0);
    assert_eq!(cpu.ram().read_byte(512), 0);
}

#[test]
fn test_load_rom_keeps_the_rest_of_memory() {
    let mut cpu = build_cpu();
    cpu.load_rom(vec![1, 2, 3]);
    assert_eq!(cpu.ram().read_byte(511), 0);
    assert_eq!(cpu.ram().read_byte(512), 1);
    assert_eq!(cpu.ram().read_byte(514), 3);
    assert_eq!(cpu.ram().read_byte(515), 0);
    assert_eq!(cpu.ram().read_byte(5), 0x20);
    assert_eq!(cpu.pc(), 0x200);
}

#[test]
fn test_load_rom_of_full_size() {
    let mut cpu = build_cpu();
    cpu.load_rom(vec![0xAB; 3584]);
    assert_eq!(cpu.ram().read_byte(4095), 0xAB);
    assert_eq!(cpu.ram().read_byte(511), 0);
}

#[test]
fn test_add_two_registers_scenario() {
    let (mut cpu, mut bus) = build_machine(&[0x60, 0x05, 0x61, 0x03, 0x80, 0x14, 0x00, 0x00]);
    run_steps(&mut cpu, &mut bus, 3);
    assert_eq!(cpu.register(0), 8);
    assert_eq!(cpu.register(15), 0);
    assert_eq!(cpu.pc(), 512 + 6);
}

#[test]
fn test_call_and_return_scenario() {
    let (mut cpu, mut bus) = build_machine(&[0x22, 0x04, 0x00, 0x00, 0x00, 0xEE]);
    assert_eq!(cpu.step(&mut bus, 0), Ok(Step::Executed));
    assert_eq!(cpu.pc(), 516);
    assert_eq!(cpu.sp(), 1);
    let mut expected = [0u16; 16];
    expected[0] = 514;
    assert_eq!(cpu.stack(), expected);
    assert_eq!(cpu.step(&mut bus, 0), Ok(Step::Executed));
    assert_eq!(cpu.pc(), 512 + 2);
    assert_eq!(cpu.sp(), 0);
    assert_eq!(cpu.stack(), [0; 16]);
}

#[test]
fn test_add_registers_with_carry() {
    let (mut cpu, mut bus) = build_machine(&[0x60, 200, 0x61, 100, 0x80, 0x14]);
    run_steps(&mut cpu, &mut bus, 3);
    assert_eq!(cpu.register(0), 44);
    assert_eq!(cpu.register(1), 100);
    assert_eq!(cpu.register(15), 1);
}

#[test]
fn test_add_registers_at_the_edge_of_carry() {
    let (mut cpu, mut bus) = build_machine(&[0x60, 255, 0x61, 0, 0x80, 0x14, 0x61, 1, 0x80, 0x14]);
    run_steps(&mut cpu, &mut bus, 3);
    assert_eq!(cpu.register(0), 255);
    assert_eq!(cpu.register(15), 0);
    run_steps(&mut cpu, &mut bus, 2);
    assert_eq!(cpu.register(0), 0);
    assert_eq!(cpu.register(15), 1);
}

#[test]
fn test_add_register_to_itself() {
    let (mut cpu, mut bus) = build_machine(&[0x63, 0x90, 0x83, 0x34]);
    run_steps(&mut cpu, &mut bus, 2);
    assert_eq!(cpu.register(3), 0x20);
    assert_eq!(cpu.register(15), 1);
}

#[test]
fn test_add_into_flag_register_keeps_the_flag() {
    let (mut cpu, mut bus) = build_machine(&[0x6F, 200, 0x61, 100, 0x8F, 0x14, 0x6F, 7, 0x8F, 0x14]);
    run_steps(&mut cpu, &mut bus, 3);
    assert_eq!(cpu.register(15), 1);
    run_steps(&mut cpu, &mut bus, 2);
    assert_eq!(cpu.register(15), 0);
}

#[test]
fn test_add_immediate_wraps_without_flag() {
    let (mut cpu, mut bus) = build_machine(&[0x6F, 9, 0x60, 250, 0x70, 10]);
    run_steps(&mut cpu, &mut bus, 3);
    assert_eq!(cpu.register(0), 4);
    assert_eq!(cpu.register(15), 9);
    assert_eq!(cpu.pc(), 518);
}

#[test]
fn test_subtract_without_borrow() {
    let (mut cpu, mut bus) = build_machine(&[0x60, 10, 0x61, 3, 0x80, 0x15]);
    run_steps(&mut cpu, &mut bus, 3);
    assert_eq!(cpu.register(0), 7);
    assert_eq!(cpu.register(1), 3);
    assert_eq!(cpu.register(15), 1);
}

#[test]
fn test_subtract_with_borrow() {
    let (mut cpu, mut bus) = build_machine(&[0x60, 3, 0x61, 10, 0x80, 0x15]);
    run_steps(&mut cpu, &mut bus, 3);
    assert_eq!(cpu.register(0), 249);
    assert_eq!(cpu.register(15), 0);
}

#[test]
fn test_subtract_equal_values() {
    let (mut cpu, mut bus) = build_machine(&[0x60, 77, 0x61, 77, 0x80, 0x15]);
    run_steps(&mut cpu, &mut bus, 3);
    assert_eq!(cpu.register(0), 0);
    assert_eq!(cpu.register(15), 1);
}

#[test]
fn test_reversed_subtract() {
    let (mut cpu, mut bus) = build_machine(&[0x60, 3, 0x61, 10, 0x80, 0x17, 0x60, 11, 0x80, 0x17]);
    run_steps(&mut cpu, &mut bus, 3);
    assert_eq!(cpu.register(0), 7);
    assert_eq!(cpu.register(1), 10);
    assert_eq!(cpu.register(15), 1);
    run_steps(&mut cpu, &mut bus, 2);
    assert_eq!(cpu.register(0), 255);
    assert_eq!(cpu.register(15), 0);
}

#[test]
fn test_shift_right() {
    let (mut cpu, mut bus) = build_machine(&[0x60, 5, 0x80, 0x06, 0x80, 0x06]);
    run_steps(&mut cpu, &mut bus, 2);
    assert_eq!(cpu.register(0), 2);
    assert_eq!(cpu.register(15), 1);
    run_steps(&mut cpu, &mut bus, 1);
    assert_eq!(cpu.register(0), 1);
    assert_eq!(cpu.register(15), 0);
}

#[test]
fn test_shift_right_ignores_second_register() {
    let (mut cpu, mut bus) = build_machine(&[0x60, 0xFF, 0x61, 0x02, 0x80, 0x16]);
    run_steps(&mut cpu, &mut bus, 3);
    assert_eq!(cpu.register(0), 0x7F);
    assert_eq!(cpu.register(1), 0x02);
    assert_eq!(cpu.register(15), 1);
}

#[test]
fn test_shift_left() {
    let (mut cpu, mut bus) = build_machine(&[0x60, 0x81, 0x80, 0x0E, 0x80, 0x0E]);
    run_steps(&mut cpu, &mut bus, 2);
    assert_eq!(cpu.register(0), 0x02);
    assert_eq!(cpu.register(15), 1);
    run_steps(&mut cpu, &mut bus, 1);
    assert_eq!(cpu.register(0), 0x04);
    assert_eq!(cpu.register(15), 0);
}

#[test]
fn test_shift_of_the_flag_register() {
    let (mut cpu, mut bus) = build_machine(&[0x6F, 3, 0x8F, 0x06, 0x6F, 0x80, 0x8F, 0x0E]);
    run_steps(&mut cpu, &mut bus, 2);
    assert_eq!(cpu.register(15), 0);
    run_steps(&mut cpu, &mut bus, 2);
    assert_eq!(cpu.register(15), 2);
}

#[test]
fn test_bitwise_operations() {
    let program = [
        0x60, 0b1100, 0x61, 0b1010, 0x80, 0x11, 0x62, 0b1100, 0x82, 0x12, 0x63, 0b1100, 0x83,
        0x13, 0x84, 0x10,
    ];
    let (mut cpu, mut bus) = build_machine(&program);
    run_steps(&mut cpu, &mut bus, 8);
    assert_eq!(cpu.register(0), 0b1110);
    assert_eq!(cpu.register(2), 0b1000);
    assert_eq!(cpu.register(3), 0b0110);
    assert_eq!(cpu.register(4), 0b1010);
    assert_eq!(cpu.register(15), 0);
}

#[test]
fn test_jump() {
    let (mut cpu, mut bus) = build_machine(&[0x1A, 0xBC]);
    run_steps(&mut cpu, &mut bus, 1);
    assert_eq!(cpu.pc(), 0xABC);
}

#[test]
fn test_jump_with_offset() {
    let (mut cpu, mut bus) = build_machine(&[0x60, 0xFF, 0xBF, 0xFF]);
    run_steps(&mut cpu, &mut bus, 2);
    assert_eq!(cpu.pc(), 4095 + 255);
}

#[test]
fn test_skip_if_equal_to_byte() {
    let (mut cpu, mut bus) = build_machine(&[0x60, 7, 0x30, 7, 0x00, 0x00, 0x30, 8]);
    run_steps(&mut cpu, &mut bus, 2);
    assert_eq!(cpu.pc(), 518);
    run_steps(&mut cpu, &mut bus, 1);
    assert_eq!(cpu.pc(), 520);
}

#[test]
fn test_skip_if_not_equal_to_byte() {
    let (mut cpu, mut bus) = build_machine(&[0x60, 7, 0x40, 8, 0x00, 0x00, 0x40, 7]);
    run_steps(&mut cpu, &mut bus, 2);
    assert_eq!(cpu.pc(), 518);
    run_steps(&mut cpu, &mut bus, 1);
    assert_eq!(cpu.pc(), 520);
}

#[test]
fn test_skip_on_registers() {
    let program = [0x60, 7, 0x61, 7, 0x50, 0x10, 0x00, 0x00, 0x90, 0x10, 0x62, 1, 0x52, 0x00, 0x92, 0x00];
    let (mut cpu, mut bus) = build_machine(&program);
    run_steps(&mut cpu, &mut bus, 3);
    assert_eq!(cpu.pc(), 520);
    run_steps(&mut cpu, &mut bus, 1);
    assert_eq!(cpu.pc(), 522);
    run_steps(&mut cpu, &mut bus, 2);
    assert_eq!(cpu.pc(), 526);
    run_steps(&mut cpu, &mut bus, 1);
    assert_eq!(cpu.pc(), 530);
}

#[test]
fn test_wait_for_key() {
    let (mut cpu, mut bus) = build_machine(&[0xF3, 0x0A]);
    for _ in 0..5 {
        assert_eq!(cpu.step(&mut bus, 0), Ok(Step::Waiting));
        assert_eq!(cpu.pc(), 512);
        assert_eq!(cpu.register(3), 0);
    }
    bus.key_pressed = Some(0xB);
    assert_eq!(cpu.step(&mut bus, 0), Ok(Step::Executed));
    assert_eq!(cpu.register(3), 0xB);
    assert_eq!(cpu.pc(), 514);
    assert_eq!(bus.key_pressed, Some(0xB));
}

#[test]
fn test_wait_for_key_leaves_timers_alone() {
    let (mut cpu, mut bus) = build_machine(&[0x60, 9, 0xF0, 0x15, 0xF0, 0x18, 0xF1, 0x0A]);
    run_steps(&mut cpu, &mut bus, 3);
    for _ in 0..3 {
        assert_eq!(cpu.step(&mut bus, 0), Ok(Step::Waiting));
    }
    assert_eq!(cpu.delay_timer(), 9);
    assert_eq!(cpu.sound_timer(), 9);
    assert_eq!(cpu.pc(), 518);
}

#[test]
fn test_unrecognized_opcode_is_passed_over() {
    let (mut cpu, mut bus) = build_machine(&[0x60, 9, 0xFF, 0xFF, 0x61, 4]);
    run_steps(&mut cpu, &mut bus, 1);
    let memory_before = cpu.ram().memory;
    let frame_before = bus.display.get_frame_buffer().to_vec();
    assert_eq!(cpu.step(&mut bus, 0), Ok(Step::Unrecognized { address: 514, opcode: 0xFFFF }));
    assert_eq!(cpu.pc(), 516);
    assert_eq!(cpu.register(0), 9);
    for x in 1..16 {
        assert_eq!(cpu.register(x), 0);
    }
    assert_eq!(cpu.index(), 0);
    assert_eq!(cpu.sp(), 0);
    assert!(cpu.ram().memory == memory_before);
    assert_eq!(bus.display.get_frame_buffer().to_vec(), frame_before);
    assert!(!cpu.should_redraw());
    run_steps(&mut cpu, &mut bus, 1);
    assert_eq!(cpu.register(1), 4);
}

#[test]
fn test_other_unrecognized_opcodes() {
    for program in [[0x00u8, 0x00], [0x01, 0x23], [0x80, 0x18], [0x80, 0x1F], [0xE0, 0x00], [0xF0, 0x00]] {
        let (mut cpu, mut bus) = build_machine(&program);
        let opcode = (program[0] as u16) << 8 | program[1] as u16;
        assert_eq!(cpu.step(&mut bus, 0), Ok(Step::Unrecognized { address: 512, opcode }));
        assert_eq!(cpu.pc(), 514);
    }
}

#[test]
fn test_clear_and_return_ignore_the_second_digit() {
    let (mut cpu, mut bus) = build_machine(&[0x0A, 0xE0, 0x22, 0x06, 0x00, 0x00, 0x0B, 0xEE]);
    run_steps(&mut cpu, &mut bus, 1);
    assert!(cpu.should_redraw());
    run_steps(&mut cpu, &mut bus, 2);
    assert_eq!(cpu.pc(), 516);
}

#[test]
fn test_return_without_call_faults() {
    let (mut cpu, mut bus) = build_machine(&[0x00, 0xEE]);
    assert_eq!(cpu.fault(), Some(Fault::StackUnderflow));
    assert_eq!(cpu.step(&mut bus, 0), Err(Fault::StackUnderflow));
    assert_eq!(cpu.pc(), 512);
    assert_eq!(cpu.sp(), 0);
}

#[test]
fn test_seventeenth_call_faults() {
    let (mut cpu, mut bus) = build_machine(&[0x22, 0x00]);
    run_steps(&mut cpu, &mut bus, 16);
    assert_eq!(cpu.sp(), 16);
    assert_eq!(cpu.stack(), [514; 16]);
    assert_eq!(cpu.fault(), Some(Fault::StackOverflow));
    assert_eq!(cpu.step(&mut bus, 0), Err(Fault::StackOverflow));
    assert_eq!(cpu.sp(), 16);
    assert_eq!(cpu.pc(), 512);
}

#[test]
fn test_fetch_beyond_memory_faults() {
    let (mut cpu, mut bus) = build_machine(&[0x1F, 0xFF]);
    assert_eq!(cpu.fault(), None);
    run_steps(&mut cpu, &mut bus, 1);
    assert_eq!(cpu.pc(), 4095);
    assert_eq!(cpu.fault(), Some(Fault::AddressOutOfRange { address: 4096 }));
    assert_eq!(cpu.step(&mut bus, 0), Err(Fault::AddressOutOfRange { address: 4096 }));
    assert_eq!(cpu.pc(), 4095);
}

#[test]
fn test_running_off_the_end_of_memory_faults() {
    let mut cpu = Cpu::new();
    let mut rom = vec![0u8; 3584];
    rom[0] = 0x1F;
    rom[1] = 0xFE;
    rom[3582] = 0x60;
    rom[3583] = 0x01;
    cpu.load_rom(rom);
    let mut bus = Bus::new();
    run_steps(&mut cpu, &mut bus, 2);
    assert_eq!(cpu.pc(), 4096);
    assert_eq!(cpu.register(0), 1);
    assert_eq!(cpu.step(&mut bus, 0), Err(Fault::AddressOutOfRange { address: 4097 }));
}

#[test]
fn test_decimal_digits() {
    let (mut cpu, mut bus) = build_machine(&[0x60, 254, 0xA3, 0x00, 0xF0, 0x33]);
    run_steps(&mut cpu, &mut bus, 3);
    assert_eq!(cpu.ram().read_byte(0x300), 2);
    assert_eq!(cpu.ram().read_byte(0x301), 5);
    assert_eq!(cpu.ram().read_byte(0x302), 4);
    assert_eq!(cpu.ram().read_byte(0x303), 0);
    assert_eq!(cpu.index(), 0x300);
}

#[test]
fn test_decimal_digits_of_small_value() {
    let (mut cpu, mut bus) = build_machine(&[0x60, 7, 0xA3, 0x00, 0xF0, 0x33]);
    run_steps(&mut cpu, &mut bus, 3);
    assert_eq!(cpu.ram().read_bytes(0x300, 0x303), &[0, 0, 7]);
}

#[test]
fn test_decimal_digits_at_the_end_of_memory() {
    let (mut cpu, mut bus) = build_machine(&[0x60, 123, 0xAF, 0xFD, 0xF0, 0x33, 0xAF, 0xFE, 0xF0, 0x33]);
    run_steps(&mut cpu, &mut bus, 3);
    assert_eq!(cpu.ram().read_bytes(4093, 4096), &[1, 2, 3]);
    run_steps(&mut cpu, &mut bus, 1);
    assert_eq!(cpu.step(&mut bus, 0), Err(Fault::AddressOutOfRange { address: 4096 }));
    assert_eq!(cpu.ram().read_bytes(4093, 4096), &[1, 2, 3]);
    assert_eq!(cpu.pc(), 520);
}

#[test]
fn test_store_and_load_registers() {
    let program = [
        0x60, 11, 0x61, 22, 0x62, 33, 0x63, 44, 0xA4, 0x00, 0xF2, 0x55, 0x60, 0, 0x61, 0, 0x62, 0,
        0x63, 0, 0xF1, 0x65,
    ];
    let (mut cpu, mut bus) = build_machine(&program);
    run_steps(&mut cpu, &mut bus, 6);
    assert_eq!(cpu.ram().read_bytes(0x400, 0x404), &[11, 22, 33, 0]);
    assert_eq!(cpu.index(), 0x400);
    run_steps(&mut cpu, &mut bus, 5);
    assert_eq!(cpu.register(0), 11);
    assert_eq!(cpu.register(1), 22);
    assert_eq!(cpu.register(2), 0);
    assert_eq!(cpu.register(3), 0);
    assert_eq!(cpu.index(), 0x400);
}

#[test]
fn test_store_all_registers_at_the_end_of_memory() {
    let (mut cpu, mut bus) = build_machine(&[0x6F, 5, 0xAF, 0xF0, 0xFF, 0x55, 0xAF, 0xF1, 0xFF, 0x55, 0xFF, 0x65]);
    run_steps(&mut cpu, &mut bus, 3);
    assert_eq!(cpu.ram().read_byte(4095), 5);
    run_steps(&mut cpu, &mut bus, 1);
    assert_eq!(cpu.step(&mut bus, 0), Err(Fault::AddressOutOfRange { address: 0xFF1 + 15 }));
}

#[test]
fn test_load_registers_beyond_memory_faults() {
    let (mut cpu, mut bus) = build_machine(&[0xAF, 0xFF, 0xF1, 0x65, 0xF0, 0x65]);
    run_steps(&mut cpu, &mut bus, 1);
    assert_eq!(cpu.step(&mut bus, 0), Err(Fault::AddressOutOfRange { address: 4096 }));
    assert_eq!(cpu.pc(), 514);
}

#[test]
fn test_index_register() {
    let (mut cpu, mut bus) = build_machine(&[0xAF, 0xFF, 0x60, 0xFF, 0xF0, 0x1E]);
    run_steps(&mut cpu, &mut bus, 3);
    assert_eq!(cpu.index(), 4095 + 255);
    assert_eq!(cpu.register(15), 0);
}

#[test]
fn test_index_register_wraps_at_sixteen_bits() {
    let mut program = vec![0xAF, 0xFF, 0x60, 0xFF];
    for _ in 0..241 {
        program.push(0xF0);
        program.push(0x1E);
    }
    let (mut cpu, mut bus) = build_machine(&program);
    run_steps(&mut cpu, &mut bus, 242);
    assert_eq!(cpu.index(), 65295);
    run_steps(&mut cpu, &mut bus, 1);
    assert_eq!(cpu.index(), 14);
}

#[test]
fn test_glyph_address() {
    let (mut cpu, mut bus) = build_machine(&[0x60, 0x0A, 0xF0, 0x29, 0x61, 0xFF, 0xF1, 0x29]);
    run_steps(&mut cpu, &mut bus, 2);
    assert_eq!(cpu.index(), 50);
    run_steps(&mut cpu, &mut bus, 2);
    assert_eq!(cpu.index(), 1275);
}

#[test]
fn test_timers() {
    let (mut cpu, mut bus) = build_machine(&[0x60, 2, 0xF0, 0x15, 0x60, 1, 0xF0, 0x18, 0xF5, 0x07]);
    run_steps(&mut cpu, &mut bus, 4);
    assert_eq!(cpu.delay_timer(), 2);
    assert_eq!(cpu.sound_timer(), 1);
    assert!(cpu.should_beep());
    cpu.update_timers();
    assert_eq!(cpu.delay_timer(), 1);
    assert_eq!(cpu.sound_timer(), 0);
    assert!(!cpu.should_beep());
    run_steps(&mut cpu, &mut bus, 1);
    assert_eq!(cpu.register(5), 1);
    cpu.update_timers();
    cpu.update_timers();
    assert_eq!(cpu.delay_timer(), 0);
    assert_eq!(cpu.sound_timer(), 0);
    assert_eq!(cpu.pc(), 522);
}

#[test]
fn test_steps_do_not_tick_the_timers() {
    let (mut cpu, mut bus) = build_machine(&[0x60, 200, 0xF0, 0x15, 0x61, 1, 0x62, 2, 0x63, 3]);
    run_steps(&mut cpu, &mut bus, 5);
    assert_eq!(cpu.delay_timer(), 200);
}

#[test]
fn test_random_is_masked() {
    let (mut cpu, mut bus) = build_machine(&[0xC0, 0x0F, 0xC1, 0xF0, 0xC2, 0x00]);
    assert_eq!(cpu.step(&mut bus, 0xAB), Ok(Step::Executed));
    assert_eq!(cpu.register(0), 0x0B);
    assert_eq!(cpu.step(&mut bus, 0xAB), Ok(Step::Executed));
    assert_eq!(cpu.register(1), 0xA0);
    assert_eq!(cpu.step(&mut bus, 0xFF), Ok(Step::Executed));
    assert_eq!(cpu.register(2), 0);
    assert_eq!(cpu.pc(), 518);
}

#[test]
fn test_execute_cycle_draws_its_own_random_byte() {
    let mut program = Vec::new();
    for _ in 0..64 {
        program.push(0xC0);
        program.push(0x07);
    }
    let (mut cpu, mut bus) = build_machine(&program);
    for k in 0..64u16 {
        assert_eq!(cpu.execute_cycle(&mut bus), Ok(Step::Executed));
        assert!(cpu.register(0) <= 7);
        assert_eq!(cpu.pc(), 514 + 2 * k);
    }
}

#[test]
fn test_execute_cycle_runs_the_scenario() {
    let (mut cpu, mut bus) = build_machine(&[0x60, 0x05, 0x61, 0x03, 0x80, 0x14, 0x00, 0x00]);
    for _ in 0..3 {
        assert_eq!(cpu.execute_cycle(&mut bus), Ok(Step::Executed));
    }
    assert_eq!(cpu.register(0), 8);
    assert_eq!(cpu.register(15), 0);
    assert_eq!(cpu.pc(), 512 + 6);
    assert_eq!(cpu.execute_cycle(&mut bus), Ok(Step::Unrecognized { address: 518, opcode: 0 }));
}

#[test]
fn test_execute_cycle_reports_faults() {
    let (mut cpu, mut bus) = build_machine(&[0x00, 0xEE]);
    assert_eq!(cpu.execute_cycle(&mut bus), Err(Fault::StackUnderflow));
    assert_eq!(cpu.pc(), 512);
}

#[test]
fn test_skip_if_key_pressed() {
    let (mut cpu, mut bus) = build_machine(&[0x60, 5, 0xE0, 0x9E, 0xE0, 0x9E, 0x00, 0x00, 0xE0, 0xA1, 0xE0, 0xA1]);
    run_steps(&mut cpu, &mut bus, 2);
    assert_eq!(cpu.pc(), 516);
    bus.key_pressed = Some(5);
    run_steps(&mut cpu, &mut bus, 1);
    assert_eq!(cpu.pc(), 520);
    run_steps(&mut cpu, &mut bus, 1);
    assert_eq!(cpu.pc(), 522);
    bus.key_pressed = Some(6);
    run_steps(&mut cpu, &mut bus, 1);
    assert_eq!(cpu.pc(), 526);
}

#[test]
fn test_key_is_named_by_low_four_bits() {
    let (mut cpu, mut bus) = build_machine(&[0x60, 0x35, 0xE0, 0x9E, 0x00, 0x00, 0xE0, 0xA1]);
    bus.key_pressed = Some(5);
    run_steps(&mut cpu, &mut bus, 2);
    assert_eq!(cpu.pc(), 518);
    run_steps(&mut cpu, &mut bus, 1);
    assert_eq!(cpu.pc(), 520);
}

#[test]
fn test_draw_glyph() {
    let (mut cpu, mut bus) = build_machine(&[0x60, 3, 0x61, 2, 0x62, 0x01, 0xF2, 0x29, 0xD0, 0x15]);
    run_steps(&mut cpu, &mut bus, 4);
    assert!(!cpu.should_redraw());
    run_steps(&mut cpu, &mut bus, 1);
    assert_eq!(cpu.register(15), 0);
    assert_eq!(cpu.pc(), 522);
    let glyph = [0x20u8, 0x60, 0x20, 0x20, 0x70];
    let frame = bus.display.get_frame_buffer();
    for y in 0..32 {
        for x in 0..64 {
            let lit = y >= 2 && y < 7 && x >= 3 && x < 11 && (glyph[y - 2] >> (7 - (x - 3))) & 1 == 1;
            assert_eq!(frame[x + 64 * y], lit as u8);
        }
    }
    assert!(cpu.should_redraw());
    assert!(!cpu.should_redraw());
}

#[test]
fn test_draw_twice_restores_frame_and_collides() {
    let (mut cpu, mut bus) = build_machine(&[0x60, 60, 0x61, 30, 0xA0, 0x00, 0xD0, 0x15, 0xD0, 0x15]);
    run_steps(&mut cpu, &mut bus, 4);
    assert_eq!(cpu.register(15), 0);
    assert!(bus.display.get_frame_buffer().iter().any(|p| *p == 1));
    run_steps(&mut cpu, &mut bus, 1);
    assert_eq!(cpu.register(15), 1);
    assert!(bus.display.get_frame_buffer().iter().all(|p| *p == 0));
}

#[test]
fn test_draw_without_rows() {
    let (mut cpu, mut bus) = build_machine(&[0x6F, 1, 0xAF, 0xFF, 0x60, 0xFF, 0xF0, 0x1E, 0xD0, 0x00]);
    run_steps(&mut cpu, &mut bus, 5);
    assert_eq!(cpu.index(), 4095 + 255);
    assert_eq!(cpu.register(15), 0);
    assert!(cpu.should_redraw());
    assert!(bus.display.get_frame_buffer().iter().all(|p| *p == 0));
}

#[test]
fn test_draw_beyond_memory_faults() {
    let (mut cpu, mut bus) = build_machine(&[0xAF, 0xFE, 0xD0, 0x02, 0xD0, 0x03]);
    run_steps(&mut cpu, &mut bus, 2);
    assert_eq!(cpu.step(&mut bus, 0), Err(Fault::AddressOutOfRange { address: 4096 }));
    assert_eq!(cpu.pc(), 516);
}

#[test]
fn test_clear_display() {
    let (mut cpu, mut bus) = build_machine(&[0xA0, 0x00, 0xD0, 0x05, 0x00, 0xE0]);
    run_steps(&mut cpu, &mut bus, 2);
    assert!(cpu.should_redraw());
    run_steps(&mut cpu, &mut bus, 1);
    assert!(bus.display.get_frame_buffer().iter().all(|p| *p == 0));
    assert!(cpu.should_redraw());
    assert_eq!(cpu.pc(), 518);
}

#[test]
fn test_load_delay_into_register_and_move() {
    let (mut cpu, mut bus) = build_machine(&[0x6A, 0x42, 0x8B, 0xA0]);
    run_steps(&mut cpu, &mut bus, 2);
    assert_eq!(cpu.register(0xA), 0x42);
    assert_eq!(cpu.register(0xB), 0x42);
}

#[test]
fn test_describe_new_cpu() {
    let cpu = build_cpu();
    let mut expected = String::from("PC: 0x200\n");
    for x in 0..16 {
        expected.push_str(&format!("V{}:0  ", x));
    }
    expected.push_str("\nI: 0x0");
    assert_eq!(cpu.describe(), expected);
}

#[test]
fn test_describe_writes_hexadecimal_in_upper_case() {
    let (mut cpu, mut bus) = build_machine(&[0x6A, 0xFF, 0x6F, 0x1B, 0x60, 0x09, 0xAA, 0xBC]);
    run_steps(&mut cpu, &mut bus, 4);
    assert_eq!(
        cpu.describe(),
        "PC: 0x208\nV0:9  V1:0  V2:0  V3:0  V4:0  V5:0  V6:0  V7:0  V8:0  V9:0  V10:FF  V11:0  \
         V12:0  V13:0  V14:0  V15:1B  \nI: 0xABC"
    );
}
