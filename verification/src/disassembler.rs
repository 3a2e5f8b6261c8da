//! The disassembler: a program image written out as text, one line for each
//! operation code.

use vstd::prelude::*;
use vstd::string::StrSliceExecFns;
use vstd::string::StringExecFns;
use crate::instruction::decode_spec;
use crate::instruction::Instruction;
use crate::ram::initial_memory;
use crate::ram::Ram;
use crate::ram::MAX_ROM_SIZE;
use crate::ram::RAM_SIZE;
use crate::ram::START_ROM;
use crate::text::decimal;
use crate::text::hexadecimal;
use crate::text::push_decimal;
use crate::text::push_hexadecimal;

verus! {

/// A program image in memory, ready to be listed.
pub struct Disassembler {
    ram: Ram,
    rom_size: usize,
}

/// What `Disassembler::run` hands back: the text of a program and the name
/// of the file that it belongs in.
pub struct Listing {
    pub file_name: String,
    pub text: String,
}

/// The name of register `x`.
pub open spec fn register_name(x: u8) -> Seq<char> {
    "V"@ + decimal(x as nat)
}

/// The line of text for an instruction: its mnemonic, then its operands.
/// Registers are written `V0` to `V15`; bytes, addresses and sprite heights
/// in decimal. An operation code that stands for no instruction is written
/// in hexadecimal.
pub open spec fn mnemonic(instruction: Instruction) -> Seq<char> {
    match instruction {
        Instruction::ClearDisplay => "CLS"@,
        Instruction::Return => "RET"@,
        Instruction::Jump { address } => "JP "@ + decimal(address as nat),
        Instruction::Call { address } => "CALL "@ + decimal(address as nat),
        Instruction::SkipEqual { x, byte } => "SE "@ + register_name(x) + ", "@ + decimal(byte as nat),
        Instruction::SkipNotEqual { x, byte } => "SNE "@ + register_name(x) + ", "@ + decimal(
            byte as nat,
        ),
        Instruction::SkipRegistersEqual { x, y } => "SE "@ + register_name(x) + ", "@ + register_name(
            y,
        ),
        Instruction::Load { x, byte } => "LD "@ + register_name(x) + ", "@ + decimal(byte as nat),
        Instruction::Add { x, byte } => "ADD "@ + register_name(x) + ", "@ + decimal(byte as nat),
        Instruction::Move { x, y } => "LD "@ + register_name(x) + ", "@ + register_name(y),
        Instruction::Or { x, y } => "OR "@ + register_name(x) + ", "@ + register_name(y),
        Instruction::And { x, y } => "AND "@ + register_name(x) + ", "@ + register_name(y),
        Instruction::Xor { x, y } => "XOR "@ + register_name(x) + ", "@ + register_name(y),
        Instruction::AddRegister { x, y } => "ADD "@ + register_name(x) + ", "@ + register_name(y),
        Instruction::Subtract { x, y } => "SUB "@ + register_name(x) + ", "@ + register_name(y),
        Instruction::ShiftRight { x } => "SHR "@ + register_name(x),
        Instruction::SubtractFrom { x, y } => "SUBN "@ + register_name(x) + " "@ + register_name(y),
        Instruction::ShiftLeft { x } => "SHL "@ + register_name(x),
        Instruction::SkipRegistersNotEqual { x, y } => "SNE "@ + register_name(x) + ", "@
            + register_name(y),
        Instruction::LoadIndex { address } => "LD I, "@ + decimal(address as nat),
        Instruction::JumpOffset { address } => "JP V0, "@ + decimal(address as nat),
        Instruction::Random { x, byte } => "RND "@ + register_name(x) + ", "@ + decimal(byte as nat),
        Instruction::Draw { x, y, rows } => "DRW "@ + register_name(x) + ", "@ + register_name(y)
            + ", "@ + decimal(rows as nat),
        Instruction::SkipKeyPressed { x } => "SKP "@ + register_name(x),
        Instruction::SkipKeyNotPressed { x } => "SKNP "@ + register_name(x),
        Instruction::ReadDelay { x } => "LD "@ + register_name(x) + ", DT"@,
        Instruction::WaitKey { x } => "LD "@ + register_name(x) + ", K"@,
        Instruction::SetDelay { x } => "LD DT, "@ + register_name(x),
        Instruction::SetSound { x } => "LD ST, "@ + register_name(x),
        Instruction::AddIndex { x } => "ADD I, "@ + register_name(x),
        Instruction::LoadGlyph { x } => "LD F, "@ + register_name(x),
        Instruction::StoreDecimal { x } => "LD B, "@ + register_name(x),
        Instruction::StoreRegisters { x } => "LD I, "@ + register_name(x),
        Instruction::LoadRegisters { x } => "LD "@ + register_name(x) + ", I"@,
        Instruction::Unrecognized { opcode } => hexadecimal(opcode as nat),
    }
}

/// The operation code at `address`, its high byte first.
pub open spec fn opcode_at(memory: Seq<u8>, address: int) -> u16 {
    (memory[address] * 256 + memory[address + 1]) as u16
}

/// The lines for the program image that lies in `memory` from `START_ROM`
/// up to `rom_size`: one for each pair of bytes. A last byte without a
/// partner gets no line.
pub open spec fn listing_lines(memory: Seq<u8>, rom_size: int) -> Seq<Seq<char>> {
    Seq::new(
        ((rom_size - START_ROM) / 2) as nat,
        |k: int| mnemonic(decode_spec(opcode_at(memory, START_ROM + 2 * k))),
    )
}

/// The lines with a line feed between each two of them.
pub open spec fn joined(lines: Seq<Seq<char>>) -> Seq<char>
    decreases lines.len(),
{
    if lines.len() == 0 {
        Seq::empty()
    } else if lines.len() == 1 {
        lines[0]
    } else {
        joined(lines.drop_last()) + "\n"@ + lines.last()
    }
}

/// The text of a listing: the lines with a line feed between each two of
/// them, and one more at the end.
pub open spec fn listing_text(lines: Seq<Seq<char>>) -> Seq<char> {
    joined(lines) + "\n"@
}

/// The first place at or after `from` where `pattern` occurs in `text`, or
/// the length of `text` if there is none.
pub open spec fn find(text: Seq<char>, pattern: Seq<char>, from: int) -> int
    decreases text.len() - from,
{
    if from < 0 || from >= text.len() || from + pattern.len() > text.len() {
        text.len() as int
    } else if text.subrange(from, from + pattern.len()) == pattern {
        from
    } else {
        find(text, pattern, from + 1)
    }
}

/// The name of the file for the listing of the program image `rom_name`:
/// what stands before the first `.ch8` in it, or all of it if there is none,
/// followed by `.chasm`.
pub open spec fn listing_name(rom_name: Seq<char>) -> Seq<char> {
    rom_name.subrange(0, find(rom_name, ".ch8"@, 0)) + ".chasm"@
}

/// Appends the name of register `x` to `text`.
fn push_register(text: &mut String, x: u8)
    ensures
        final(text)@ == old(text)@ + register_name(x),
{
    text.append("V");
    push_decimal(text, x as usize);
    assert(text@ =~= old(text)@ + register_name(x));
}

/// A mnemonic followed by one register.
fn with_register(name: &str, x: u8) -> (line: String)
    ensures
        line@ == name@ + register_name(x),
{
    let mut line = String::from_str(name);
    push_register(&mut line, x);
    line
}

/// A mnemonic followed by one number.
fn with_number(name: &str, n: u16) -> (line: String)
    ensures
        line@ == name@ + decimal(n as nat),
{
    let mut line = String::from_str(name);
    push_decimal(&mut line, n as usize);
    line
}

/// A mnemonic followed by a register and a byte.
fn with_register_and_byte(name: &str, x: u8, byte: u8) -> (line: String)
    ensures
        line@ == name@ + register_name(x) + ", "@ + decimal(byte as nat),
{
    let mut line = with_register(name, x);
    line.append(", ");
    push_decimal(&mut line, byte as usize);
    line
}

/// A mnemonic followed by two registers, with `between` between them.
fn with_registers(name: &str, x: u8, between: &str, y: u8) -> (line: String)
    ensures
        line@ == name@ + register_name(x) + between@ + register_name(y),
{
    let mut line = with_register(name, x);
    line.append(between);
    push_register(&mut line, y);
    line
}

/// A mnemonic followed by a register and a last operand.
fn with_register_and(name: &str, x: u8, last: &str) -> (line: String)
    ensures
        line@ == name@ + register_name(x) + last@,
{
    let mut line = with_register(name, x);
    line.append(last);
    line
}

impl Disassembler {
    #[verifier::type_invariant]
    spec fn image_in_memory(&self) -> bool {
        START_ROM <= self.rom_size <= RAM_SIZE
    }

    /// Memory, with the program image loaded.
    pub closed spec fn memory(&self) -> Seq<u8> {
        self.ram@
    }

    /// The address after the last byte of the program image.
    pub closed spec fn rom_size(&self) -> int {
        self.rom_size as int
    }

    /// A disassembler for the program image `rom`.
    pub fn new(rom: &Vec<u8>) -> (disassembler: Disassembler)
        requires
            rom@.len() <= MAX_ROM_SIZE,
        ensures
            disassembler.memory() == initial_memory(rom@),
            disassembler.rom_size() == START_ROM + rom@.len(),
    {
        Disassembler { ram: Ram::new(rom.as_slice()), rom_size: rom.len() + START_ROM }
    }

    /// Memory, with the program image loaded.
    pub fn ram(&self) -> (ram: &Ram)
        ensures
            ram@ == self.memory(),
    {
        &self.ram
    }

    /// The listing of the program image, and the name of the file for it,
    /// which is made from the name `rom_name` of the program image.
    pub fn run(&self, rom_name: String) -> (listing: Listing)
        ensures
            listing.file_name@ == listing_name(rom_name@),
            listing.text@ == listing_text(listing_lines(self.memory(), self.rom_size())),
    {
        proof {
            use_type_invariant(self);
        }
        let ghost lines = listing_lines(self.ram@, self.rom_size());
        let mut text = String::new();
        let mut idx: usize = START_ROM;
        let mut count: usize = 0;
        while idx + 1 < self.rom_size
            invariant
                self.image_in_memory(),
                idx == START_ROM + 2 * count,
                idx <= self.rom_size + 1,
                count <= lines.len(),
                lines == listing_lines(self.ram@, self.rom_size()),
                text@ == joined(lines.subrange(0, count as int)),
            decreases self.rom_size + 1 - idx,
        {
            let opcode: u16 = self.fetch_op(idx);
            let instruction: String = self.decode_op(opcode);
            proof {
                let so_far = lines.subrange(0, count as int);
                let next = lines.subrange(0, count + 1);
                assert(next.drop_last() =~= so_far);
                assert(next.last() == instruction@);
            }
            if count > 0 {
                text.append("\n");
            }
            text.append(instruction.as_str());
            idx += 2;
            count += 1;
        }
        assert(lines.subrange(0, count as int) =~= lines);
        text.append("\n");
        Listing { file_name: self.parse_path(rom_name), text }
    }

    fn parse_path(&self, rom_name: String) -> (file_name: String)
        ensures
            file_name@ == listing_name(rom_name@),
    {
        let name: &str = rom_name.as_str();
        let len: usize = name.unicode_len();
        let mut at: usize = 0;
        proof {
            reveal_strlit(".ch8");
        }
        loop
            invariant_except_break
                at <= len,
            invariant
                len == name@.len(),
                ".ch8"@.len() == 4,
                ".ch8"@[0] == '.',
                ".ch8"@[1] == 'c',
                ".ch8"@[2] == 'h',
                ".ch8"@[3] == '8',
                0 <= at,
                find(name@, ".ch8"@, 0) == find(name@, ".ch8"@, at as int),
            ensures
                at == find(name@, ".ch8"@, 0),
            decreases len - at,
        {
            if len - at < 4 {
                at = len;
                break ;
            }
            if name.get_char(at) == '.' && name.get_char(at + 1) == 'c' && name.get_char(at + 2)
                == 'h' && name.get_char(at + 3) == '8' {
                assert(name@.subrange(at as int, at + 4) =~= ".ch8"@);
                break ;
            }
            proof {
                let part = name@.subrange(at as int, at + 4);
                assert(part[0] == name@[at as int]);
                assert(part[1] == name@[at + 1]);
                assert(part[2] == name@[at + 2]);
                assert(part[3] == name@[at + 3]);
            }
            at += 1;
        }
        let mut file_name = String::from_str(name.substring_char(0, at));
        file_name.append(".chasm");
        file_name
    }

    fn fetch_op(&self, idx: usize) -> (opcode: u16)
        requires
            idx + 1 < RAM_SIZE,
        ensures
            opcode == opcode_at(self.ram@, idx as int),
    {
        let hi_byte: u16 = self.ram.memory[idx] as u16;
        let lo_byte: u16 = self.ram.memory[idx + 1] as u16;
        assert(hi_byte << 8 | lo_byte == hi_byte * 256 + lo_byte) by (bit_vector)
            requires
                hi_byte < 256,
                lo_byte < 256,
        ;
        hi_byte << 8 | lo_byte
    }

    fn decode_op(&self, opcode: u16) -> (line: String)
        ensures
            line@ == mnemonic(decode_spec(opcode)),
    {
        match Instruction::decode(opcode) {
            Instruction::ClearDisplay => String::from_str("CLS"),
            Instruction::Return => String::from_str("RET"),
            Instruction::Jump { address } => with_number("JP ", address),
            Instruction::Call { address } => with_number("CALL ", address),
            Instruction::SkipEqual { x, byte } => with_register_and_byte("SE ", x, byte),
            Instruction::SkipNotEqual { x, byte } => with_register_and_byte("SNE ", x, byte),
            Instruction::SkipRegistersEqual { x, y } => with_registers("SE ", x, ", ", y),
            Instruction::Load { x, byte } => with_register_and_byte("LD ", x, byte),
            Instruction::Add { x, byte } => with_register_and_byte("ADD ", x, byte),
            Instruction::Move { x, y } => with_registers("LD ", x, ", ", y),
            Instruction::Or { x, y } => with_registers("OR ", x, ", ", y),
            Instruction::And { x, y } => with_registers("AND ", x, ", ", y),
            Instruction::Xor { x, y } => with_registers("XOR ", x, ", ", y),
            Instruction::AddRegister { x, y } => with_registers("ADD ", x, ", ", y),
            Instruction::Subtract { x, y } => with_registers("SUB ", x, ", ", y),
            Instruction::ShiftRight { x } => with_register("SHR ", x),
            Instruction::SubtractFrom { x, y } => with_registers("SUBN ", x, " ", y),
            Instruction::ShiftLeft { x } => with_register("SHL ", x),
            Instruction::SkipRegistersNotEqual { x, y } => with_registers("SNE ", x, ", ", y),
            Instruction::LoadIndex { address } => with_number("LD I, ", address),
            Instruction::JumpOffset { address } => with_number("JP V0, ", address),
            Instruction::Random { x, byte } => with_register_and_byte("RND ", x, byte),
            Instruction::Draw { x, y, rows } => {
                let mut line = with_registers("DRW ", x, ", ", y);
                line.append(", ");
                push_decimal(&mut line, rows as usize);
                line
            },
            Instruction::SkipKeyPressed { x } => with_register("SKP ", x),
            Instruction::SkipKeyNotPressed { x } => with_register("SKNP ", x),
            Instruction::ReadDelay { x } => with_register_and("LD ", x, ", DT"),
            Instruction::WaitKey { x } => with_register_and("LD ", x, ", K"),
            Instruction::SetDelay { x } => with_register("LD DT, ", x),
            Instruction::SetSound { x } => with_register("LD ST, ", x),
            Instruction::AddIndex { x } => with_register("ADD I, ", x),
            Instruction::LoadGlyph { x } => with_register("LD F, ", x),
            Instruction::StoreDecimal { x } => with_register("LD B, ", x),
            Instruction::StoreRegisters { x } => with_register("LD I, ", x),
            Instruction::LoadRegisters { x } => with_register_and("LD ", x, ", I"),
            Instruction::Unrecognized { opcode } => {
                let mut line = String::new();
                push_hexadecimal(&mut line, opcode as usize);
                assert(line@ =~= hexadecimal(opcode as nat));
                line
            },
        }
    }
}

} // verus!
