use chiprs::bus::Bus;
use chiprs::bus::{KEY_1, KEY_2, KEY_3, KEY_4, KEY_A, KEY_C, KEY_D, KEY_E, KEY_F, KEY_Q, KEY_R, KEY_S};
use chiprs::bus::{KEY_V, KEY_W, KEY_X, KEY_Z};

#[test]
fn test_new_bus() {
    let bus = Bus::new();
    assert_eq!(bus.key_pressed, None);
    assert!(bus.display.get_frame_buffer().iter().all(|p| *p == 0));
    for key in 0..=255 {
        assert!(!bus.is_key_pressed(key));
    }
}

#[test]
fn test_keypad_layout() {
    let layout = [
        (KEY_1, 0x1),
        (KEY_2, 0x2),
        (KEY_3, 0x3),
        (KEY_4, 0xC),
        (KEY_Q, 0x4),
        (KEY_W, 0x5),
        (KEY_E, 0x6),
        (KEY_R, 0xD),
        (KEY_A, 0x7),
        (KEY_S, 0x8),
        (KEY_D, 0x9),
        (KEY_F, 0xE),
        (KEY_Z, 0xA),
        (KEY_X, 0x0),
        (KEY_C, 0xB),
        (KEY_V, 0xF),
    ];
    let mut bus = Bus::new();
    for (key, code) in layout {
        bus.set_key_pressed(Some(key));
        assert_eq!(bus.key_pressed, Some(code));
        for other in 0..16 {
            assert_eq!(bus.is_key_pressed(other), other == code);
        }
    }
}

#[test]
fn test_key_codes_are_characters() {
    assert_eq!(KEY_1, '1' as i32);
    assert_eq!(KEY_4, '4' as i32);
    assert_eq!(KEY_Q, 'q' as i32);
    assert_eq!(KEY_V, 'v' as i32);
    let mut bus = Bus::new();
    bus.set_key_pressed(Some('x' as i32));
    assert_eq!(bus.key_pressed, Some(0));
    assert!(bus.is_key_pressed(0));
}

#[test]
fn test_no_key_clears_the_latch() {
    let mut bus = Bus::new();
    bus.set_key_pressed(Some(KEY_W));
    assert!(bus.is_key_pressed(5));
    bus.set_key_pressed(None);
    assert_eq!(bus.key_pressed, None);
    assert!(!bus.is_key_pressed(5));
}

#[test]
fn test_other_keys_clear_the_latch() {
    let mut bus = Bus::new();
    for key in [0, 27, 32, 48, 53, 65, 81, 103, 121, 123, -1, i32::MAX, i32::MIN, 0x4000_0052] {
        bus.set_key_pressed(Some(KEY_W));
        bus.set_key_pressed(Some(key));
        assert_eq!(bus.key_pressed, None);
    }
}

#[test]
fn test_setting_a_key_leaves_the_frame() {
    let mut bus = Bus::new();
    bus.display.draw(0, 0, &[0xFF]);
    let before = bus.display.get_frame_buffer().to_vec();
    bus.set_key_pressed(Some(KEY_A));
    assert_eq!(bus.display.get_frame_buffer().to_vec(), before);
}
