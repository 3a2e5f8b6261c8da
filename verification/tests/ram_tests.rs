use chiprs::font::FONT_SET;
use chiprs::ram::Ram;

#[test]
fn test_new_ram_holds_glyphs_and_program() {
    let ram = Ram::new(&[0xAA, 0xBB, 0xCC]);
    for a in 0..80 {
        assert_eq!(ram.read_byte(a), FONT_SET[a]);
    }
    for a in 80..512 {
        assert_eq!(ram.read_byte(a), 0);
    }
    assert_eq!(ram.read_byte(512), 0xAA);
    assert_eq!(ram.read_byte(513), 0xBB);
    assert_eq!(ram.read_byte(514), 0xCC);
    for a in 515..4096 {
        assert_eq!(ram.read_byte(a), 0);
    }
}

#[test]
fn test_glyphs() {
    let ram = Ram::new(&[]);
    assert_eq!(ram.read_bytes(0, 5), &[0xF0, 0x90, 0x90, 0x90, 0xF0]);
    assert_eq!(ram.read_bytes(5, 10), &[0x20, 0x60, 0x20, 0x20, 0x70]);
    assert_eq!(ram.read_bytes(35, 40), &[0xF0, 0x10, 0x20, 0x40, 0x40]);
    assert_eq!(ram.read_bytes(75, 80), &[0xF0, 0x80, 0xF0, 0x80, 0x80]);
    for a in 0..80 {
        assert_eq!(ram.read_byte(a) & 0x0F, 0);
    }
}

#[test]
fn test_new_ram_with_largest_program() {
    let ram = Ram::new(&[7; 3584]);
    assert_eq!(ram.read_byte(511), 0);
    assert_eq!(ram.read_byte(512), 7);
    assert_eq!(ram.read_byte(4095), 7);
}

#[test]
fn test_write_and_read() {
    let mut ram = Ram::new(&[]);
    ram.write_byte(0, 1);
    ram.write_byte(4095, 2);
    ram.write_byte(1000, 3);
    assert_eq!(ram.read_byte(0), 1);
    assert_eq!(ram.read_byte(4095), 2);
    assert_eq!(ram.read_byte(1000), 3);
    assert_eq!(ram.read_byte(1001), 0);
    assert_eq!(ram.read_byte(1), 0x90);
    assert_eq!(ram.memory[1000], 3);
}

#[test]
fn test_read_bytes() {
    let mut ram = Ram::new(&[1, 2, 3, 4]);
    assert_eq!(ram.read_bytes(512, 516), &[1, 2, 3, 4]);
    assert_eq!(ram.read_bytes(513, 515), &[2, 3]);
    assert_eq!(ram.read_bytes(514, 514), &[] as &[u8]);
    assert_eq!(ram.read_bytes(4096, 4096), &[] as &[u8]);
    ram.write_byte(4095, 9);
    assert_eq!(ram.read_bytes(4094, 4096), &[0, 9]);
    assert_eq!(ram.read_bytes(0, 4096).len(), 4096);
}
