use chiprs::bus::KEY_Q;
use chiprs::bus::KEY_W;
use chiprs::chip8::Chip8;
use chiprs::chip8::Signals;
use chiprs::state::Fault;
use chiprs::state::Step;

fn build_chip8(program: &[u8]) -> Chip8 {
    Chip8::new(String::from("program.ch8"), program.to_vec())
}

#[test]
fn test_new_chip8() {
    let mut chip8 = build_chip8(&[0x60, 0x01]);
    assert_eq!(chip8.path(), "program.ch8");
    assert!(chip8.get_frame_buffer().iter().all(|p| *p == 0));
    assert!(!chip8.should_redraw());
    assert!(!chip8.should_beep());
    assert_eq!(chip8.fault(), None);
    assert_eq!(chip8.execute_cycle(), Ok(Step::Executed));
}

#[test]
fn test_frame_index() {
    let chip8 = build_chip8(&[]);
    assert_eq!(chip8.get_frame_index(0, 0), 0);
    assert_eq!(chip8.get_frame_index(63, 31), 2047);
    assert_eq!(chip8.get_frame_index(2, 1), 66);
}

#[test]
fn test_check_key_takes_the_first() {
    let chip8 = build_chip8(&[]);
    assert_eq!(chip8.check_key(None), None);
    assert_eq!(chip8.check_key(Some(vec![])), None);
    assert_eq!(chip8.check_key(Some(vec![7])), Some(7));
    assert_eq!(chip8.check_key(Some(vec![KEY_W, KEY_Q])), Some(KEY_W));
}

#[test]
fn test_timers_tick_every_tenth_cycle() {
    let mut chip8 = build_chip8(&[0x60, 3, 0xF0, 0x18, 0x12, 0x04]);
    assert_eq!(chip8.execute_cycle(), Ok(Step::Executed));
    assert_eq!(chip8.end_cycle(None), Signals { redraw: false, beep: false });
    assert_eq!(chip8.execute_cycle(), Ok(Step::Executed));
    assert_eq!(chip8.end_cycle(None), Signals { redraw: false, beep: true });
    for _ in 2..9 {
        assert_eq!(chip8.execute_cycle(), Ok(Step::Executed));
        assert_eq!(chip8.end_cycle(None), Signals { redraw: false, beep: true });
        assert!(chip8.should_beep());
    }
    for _ in 0..20 {
        assert_eq!(chip8.execute_cycle(), Ok(Step::Executed));
        assert_eq!(chip8.end_cycle(None), Signals { redraw: false, beep: true });
    }
    assert_eq!(chip8.execute_cycle(), Ok(Step::Executed));
    assert_eq!(chip8.end_cycle(None), Signals { redraw: false, beep: false });
    assert!(!chip8.should_beep());
}

#[test]
fn test_end_cycle_reports_a_redraw_once() {
    let mut chip8 = build_chip8(&[0x00, 0xE0, 0x12, 0x02]);
    assert_eq!(chip8.execute_cycle(), Ok(Step::Executed));
    assert_eq!(chip8.end_cycle(None), Signals { redraw: true, beep: false });
    assert_eq!(chip8.execute_cycle(), Ok(Step::Executed));
    assert_eq!(chip8.end_cycle(None), Signals { redraw: false, beep: false });
}

#[test]
fn test_end_cycle_latches_the_first_key() {
    let mut chip8 = build_chip8(&[0xF1, 0x0A, 0xF2, 0x0A, 0xF3, 0x0A, 0x12, 0x06]);
    assert_eq!(chip8.execute_cycle(), Ok(Step::Waiting));
    chip8.end_cycle(None);
    assert_eq!(chip8.execute_cycle(), Ok(Step::Waiting));
    chip8.end_cycle(Some(vec![]));
    assert_eq!(chip8.execute_cycle(), Ok(Step::Waiting));
    chip8.end_cycle(Some(vec![KEY_W, KEY_Q]));
    assert_eq!(chip8.execute_cycle(), Ok(Step::Executed));
    chip8.end_cycle(None);
    assert_eq!(chip8.execute_cycle(), Ok(Step::Executed));
    chip8.end_cycle(Some(vec![1000]));
    assert_eq!(chip8.execute_cycle(), Ok(Step::Waiting));
    chip8.set_key_pressed(Some(KEY_Q));
    assert_eq!(chip8.execute_cycle(), Ok(Step::Executed));
    chip8.set_key_pressed(None);
    assert_eq!(chip8.execute_cycle(), Ok(Step::Executed));
}

#[test]
fn test_faults_reach_the_host() {
    let mut chip8 = build_chip8(&[0x00, 0xEE]);
    assert_eq!(chip8.fault(), Some(Fault::StackUnderflow));
    assert_eq!(chip8.execute_cycle(), Err(Fault::StackUnderflow));
}

#[test]
fn test_picture_of_a_dark_frame() {
    let chip8 = build_chip8(&[]);
    let buffer = chip8.update_display(&vec![0xFFFFFF; 640 * 320]);
    assert_eq!(buffer.len(), 640 * 320);
    assert!(buffer.iter().all(|color| *color == 0));
}

#[test]
fn test_picture_scales_each_pixel_by_ten() {
    let mut chip8 = build_chip8(&[0x60, 2, 0x61, 1, 0xA0, 0x05, 0xD0, 0x11]);
    for _ in 0..4 {
        assert_eq!(chip8.execute_cycle(), Ok(Step::Executed));
    }
    assert!(chip8.should_redraw());
    let buffer = chip8.update_display(&vec![0; 640 * 320]);
    for y in 0..320 {
        for x in 0..640 {
            let lit = y / 10 == 1 && x / 10 == 4;
            assert_eq!(buffer[y * 640 + x], if lit { 0x00ff00 } else { 0 });
        }
    }
}

#[test]
fn test_picture_keeps_what_lies_beyond_the_window() {
    let chip8 = build_chip8(&[]);
    let mut in_buffer = vec![5u32; 640 * 320 + 3];
    in_buffer[640 * 320 + 1] = 6;
    let buffer = chip8.update_display(&in_buffer);
    assert_eq!(buffer.len(), 640 * 320 + 3);
    assert_eq!(buffer[640 * 320 - 1], 0);
    assert_eq!(&buffer[640 * 320..], &[5, 6, 5]);
    assert_eq!(in_buffer[0], 5);
}

#[test]
fn test_describe_the_machine() {
    let mut chip8 = build_chip8(&[0x61, 0x2A]);
    assert_eq!(chip8.execute_cycle(), Ok(Step::Executed));
    let text = chip8.describe();
    assert!(text.starts_with("PC: 0x202\nV0:0  V1:2A  V2:0  "));
    assert!(text.ends_with("V15:0  \nI: 0x0"));
}

#[test]
fn test_unrecognized_codes_are_counted() {
    let mut chip8 = build_chip8(&[0xFF, 0xFF, 0x60, 0x01, 0x00, 0x00, 0x12, 0x00]);
    assert_eq!(chip8.unrecognized(), 0);
    assert_eq!(chip8.execute_cycle(), Ok(Step::Unrecognized { address: 512, opcode: 0xFFFF }));
    assert_eq!(chip8.unrecognized(), 1);
    assert_eq!(chip8.execute_cycle(), Ok(Step::Executed));
    assert_eq!(chip8.unrecognized(), 1);
    assert_eq!(chip8.execute_cycle(), Ok(Step::Unrecognized { address: 516, opcode: 0 }));
    assert_eq!(chip8.unrecognized(), 2);
    for _ in 0..40 {
        chip8.execute_cycle().unwrap();
    }
    assert_eq!(chip8.unrecognized(), 22);
    chip8.end_cycle(None);
    chip8.set_key_pressed(None);
    assert_eq!(chip8.unrecognized(), 22);
}

#[test]
fn test_faults_are_not_counted() {
    let mut chip8 = build_chip8(&[0x00, 0xEE]);
    assert_eq!(chip8.execute_cycle(), Err(Fault::StackUnderflow));
    assert_eq!(chip8.unrecognized(), 0);
}
