use chiprs::disassembler::Disassembler;

fn listing_of(rom: &[u8]) -> String {
    Disassembler::new(&rom.to_vec()).run(String::from("game.ch8")).text
}

#[test]
fn test_listing_of_every_instruction() {
    let cases: [(u16, &str); 35] = [
        (0x00E0, "CLS"),
        (0x00EE, "RET"),
        (0x1234, "JP 564"),
        (0x2FFF, "CALL 4095"),
        (0x3A0C, "SE V10, 12"),
        (0x4BFF, "SNE V11, 255"),
        (0x5120, "SE V1, V2"),
        (0x6005, "LD V0, 5"),
        (0x7F64, "ADD V15, 100"),
        (0x8120, "LD V1, V2"),
        (0x8121, "OR V1, V2"),
        (0x8122, "AND V1, V2"),
        (0x8123, "XOR V1, V2"),
        (0x8124, "ADD V1, V2"),
        (0x8125, "SUB V1, V2"),
        (0x8126, "SHR V1"),
        (0x8127, "SUBN V1 V2"),
        (0x812E, "SHL V1"),
        (0x9CD0, "SNE V12, V13"),
        (0xA200, "LD I, 512"),
        (0xB00A, "JP V0, 10"),
        (0xC30F, "RND V3, 15"),
        (0xD125, "DRW V1, V2, 5"),
        (0xE49E, "SKP V4"),
        (0xE4A1, "SKNP V4"),
        (0xF507, "LD V5, DT"),
        (0xF50A, "LD V5, K"),
        (0xF515, "LD DT, V5"),
        (0xF518, "LD ST, V5"),
        (0xF51E, "ADD I, V5"),
        (0xF529, "LD F, V5"),
        (0xF533, "LD B, V5"),
        (0xF555, "LD I, V5"),
        (0xF565, "LD V5, I"),
        (0x1000, "JP 0"),
    ];
    for (opcode, line) in cases {
        let rom = [(opcode >> 8) as u8, (opcode & 0xFF) as u8];
        assert_eq!(listing_of(&rom), format!("{}\n", line));
    }
}

#[test]
fn test_listing_of_unrecognized_codes() {
    assert_eq!(listing_of(&[0xFF, 0xFF]), "ffff\n");
    assert_eq!(listing_of(&[0x00, 0x00]), "0\n");
    assert_eq!(listing_of(&[0x00, 0x0A]), "a\n");
    assert_eq!(listing_of(&[0x01, 0x23]), "123\n");
    assert_eq!(listing_of(&[0x81, 0x28]), "8128\n");
    assert_eq!(listing_of(&[0xE1, 0x00]), "e100\n");
    assert_eq!(listing_of(&[0xF0, 0xBC]), "f0bc\n");
}

#[test]
fn test_listing_has_one_line_for_each_pair_of_bytes() {
    assert_eq!(
        listing_of(&[0x60, 0x05, 0x61, 0x03, 0x80, 0x14, 0x00, 0x00]),
        "LD V0, 5\nLD V1, 3\nADD V0, V1\n0\n"
    );
}

#[test]
fn test_listing_drops_a_last_byte_without_partner() {
    assert_eq!(listing_of(&[0x00, 0xE0, 0x12]), "CLS\n");
    assert_eq!(listing_of(&[0x12]), "\n");
}

#[test]
fn test_listing_of_no_program() {
    assert_eq!(listing_of(&[]), "\n");
}

#[test]
fn test_listing_of_the_largest_program() {
    let text = listing_of(&[0x00; 3584]);
    assert_eq!(text.len(), 2 * 1792);
    assert!(text.lines().all(|line| line == "0"));
    let mut rom = vec![0u8; 3584];
    rom[3582] = 0x00;
    rom[3583] = 0xEE;
    assert!(listing_of(&rom).ends_with("0\nRET\n"));
}

#[test]
fn test_listing_file_name() {
    let names = [
        ("game.ch8", "game.chasm"),
        ("roms/pong.ch8", "roms/pong.chasm"),
        ("game", "game.chasm"),
        ("", ".chasm"),
        (".ch8", ".chasm"),
        ("a.ch8.ch8", "a.chasm"),
        ("a.ch8b", "a.chasm"),
        ("a.ch", "a.ch.chasm"),
        ("a.ch9", "a.ch9.chasm"),
        ("a.CH8", "a.CH8.chasm"),
        ("..ch8", "..chasm"),
        (".c.ch.ch8x", ".c.ch.chasm"),
        ("x.ch", "x.ch.chasm"),
        ("h\u{e9}.ch8", "h\u{e9}.chasm"),
    ];
    let disassembler = Disassembler::new(&vec![]);
    for (rom_name, file_name) in names {
        assert_eq!(disassembler.run(String::from(rom_name)).file_name, file_name);
    }
}

#[test]
fn test_disassembler_memory() {
    let disassembler = Disassembler::new(&vec![0x12, 0x34]);
    assert_eq!(disassembler.ram().read_byte(512), 0x12);
    assert_eq!(disassembler.ram().read_byte(513), 0x34);
    assert_eq!(disassembler.ram().read_byte(0), 0xF0);
}
