//! What one step of the engine does, stated on a mathematical model of the
//! machine: the engine's registers and memory, the frame, the key latch and,
//! for the one instruction that needs it, a random byte.

use vstd::prelude::*;
use crate::display::blank_frame;
use crate::display::collides;
use crate::display::drawn;
use crate::font::GLYPH_HEIGHT;
use crate::instruction::Instruction;
use crate::instruction::decode_spec;
use crate::ram::RAM_SIZE;
use crate::text::capital_hexadecimal;
use crate::text::decimal;

verus! {

/// Number of general registers.
pub const REGISTER_COUNT: usize = 16;

/// The register that reports a carry, a borrow or a collision.
pub const FLAG: usize = 15;

/// Largest number of return addresses that the stack holds.
pub const STACK_SIZE: usize = 16;

/// Address at which execution starts.
pub const START_PC: u16 = 512;

/// Why the engine could not run a step. The machine is left as it was.
#[derive(Clone, Copy, Debug, PartialEq, Eq, Structural)]
pub enum Fault {
    /// The step would have touched memory up to `address`, which lies beyond
    /// the end of memory.
    AddressOutOfRange { address: usize },
    /// A call with a full stack of return addresses.
    StackOverflow,
    /// A return with no return address on the stack.
    StackUnderflow,
}

/// What a step did.
#[derive(Clone, Copy, Debug, PartialEq, Eq, Structural)]
pub enum Step {
    /// An instruction was executed.
    Executed,
    /// The engine waits for a key: nothing has changed, and the next step
    /// tries the same instruction again.
    Waiting,
    /// The operation code `opcode` at `address` stands for no instruction.
    /// It was passed over.
    Unrecognized { address: u16, opcode: u16 },
}

/// The engine's state.
#[verifier::ext_equal]
pub struct CpuState {
    /// The 4096 bytes of memory.
    pub memory: Seq<u8>,
    /// The program counter: the address of the next instruction.
    pub pc: u16,
    /// The sixteen general registers.
    pub v: Seq<u8>,
    /// The index register.
    pub i: u16,
    /// The return addresses, the oldest first.
    pub stack: Seq<u16>,
    /// The delay timer.
    pub delay_timer: u8,
    /// The sound timer.
    pub sound_timer: u8,
    /// Whether the frame was drawn on or cleared since the host last asked.
    pub redraw: bool,
}

/// The engine's state together with the frame it draws on.
#[verifier::ext_equal]
pub struct Machine {
    pub cpu: CpuState,
    pub frame: Seq<u8>,
}

/// 1 for `true`, 0 for `false`.
pub open spec fn flag(condition: bool) -> u8 {
    if condition {
        1
    } else {
        0
    }
}

impl CpuState {
    /// Whether memory, the registers and the stack have their sizes.
    pub open spec fn wf(self) -> bool {
        &&& self.memory.len() == RAM_SIZE
        &&& self.v.len() == REGISTER_COUNT
        &&& self.stack.len() <= STACK_SIZE
    }

    /// Whether both bytes of the next operation code lie in memory.
    pub open spec fn can_fetch(self) -> bool {
        self.pc + 1 < RAM_SIZE
    }

    /// The operation code at the program counter, its high byte first.
    pub open spec fn fetch(self) -> u16 {
        (self.memory[self.pc as int] * 256 + self.memory[self.pc + 1]) as u16
    }

    /// The instruction at the program counter.
    pub open spec fn instruction(self) -> Instruction {
        decode_spec(self.fetch())
    }

    /// The state with the program counter at `address`.
    pub open spec fn at(self, address: int) -> CpuState {
        CpuState { pc: address as u16, ..self }
    }

    /// The state with the program counter moved past this instruction, and
    /// past the next one too if `skip` holds.
    pub open spec fn forward(self, skip: bool) -> CpuState {
        self.at(
            self.pc + if skip {
                4int
            } else {
                2int
            },
        )
    }

    /// The state with `value` in register `x`.
    pub open spec fn with_register(self, x: int, value: u8) -> CpuState {
        CpuState { v: self.v.update(x, value), ..self }
    }

    /// The state with `value` in the index register.
    pub open spec fn with_index(self, value: int) -> CpuState {
        CpuState { i: value as u16, ..self }
    }

    /// `00E0`: the host is asked to redraw.
    pub open spec fn clear_display(self) -> CpuState {
        CpuState { redraw: true, ..self }.forward(false)
    }

    /// `00EE`: execution continues at the newest return address, which leaves
    /// the stack.
    pub open spec fn ret(self) -> CpuState {
        CpuState { pc: self.stack.last(), stack: self.stack.drop_last(), ..self }
    }

    /// `1nnn`.
    pub open spec fn jump(self, address: u16) -> CpuState {
        self.at(address as int)
    }

    /// `2nnn`: the address of the instruction after the call is pushed.
    pub open spec fn call(self, address: u16) -> CpuState {
        CpuState { pc: address, stack: self.stack.push((self.pc + 2) as u16), ..self }
    }

    /// `3xkk`.
    pub open spec fn skip_equal(self, x: int, byte: u8) -> CpuState {
        self.forward(self.v[x] == byte)
    }

    /// `4xkk`.
    pub open spec fn skip_not_equal(self, x: int, byte: u8) -> CpuState {
        self.forward(self.v[x] != byte)
    }

    /// `5xy_`.
    pub open spec fn skip_registers_equal(self, x: int, y: int) -> CpuState {
        self.forward(self.v[x] == self.v[y])
    }

    /// `9xy_`.
    pub open spec fn skip_registers_not_equal(self, x: int, y: int) -> CpuState {
        self.forward(self.v[x] != self.v[y])
    }

    /// `6xkk`.
    pub open spec fn load(self, x: int, byte: u8) -> CpuState {
        self.with_register(x, byte).forward(false)
    }

    /// `7xkk`: the sum wraps at 256 and no flag is set.
    pub open spec fn add(self, x: int, byte: u8) -> CpuState {
        self.with_register(x, ((self.v[x] + byte) % 256) as u8).forward(false)
    }

    /// `8xy0`.
    pub open spec fn move_register(self, x: int, y: int) -> CpuState {
        self.with_register(x, self.v[y]).forward(false)
    }

    /// `8xy1`.
    pub open spec fn or(self, x: int, y: int) -> CpuState {
        self.with_register(x, self.v[x] | self.v[y]).forward(false)
    }

    /// `8xy2`.
    pub open spec fn and(self, x: int, y: int) -> CpuState {
        self.with_register(x, self.v[x] & self.v[y]).forward(false)
    }

    /// `8xy3`.
    pub open spec fn xor(self, x: int, y: int) -> CpuState {
        self.with_register(x, self.v[x] ^ self.v[y]).forward(false)
    }

    /// `8xy4`: register `x` gets the low eight bits of the sum, then the flag
    /// register tells whether the sum was above 255.
    pub open spec fn add_register(self, x: int, y: int) -> CpuState {
        let sum = self.v[x] + self.v[y];
        self.with_register(x, (sum % 256) as u8).with_register(FLAG as int, flag(sum > 255)).forward(
            false,
        )
    }

    /// `8xy5`: register `x` gets the difference modulo 256, then the flag
    /// register tells that nothing had to be borrowed.
    pub open spec fn subtract(self, x: int, y: int) -> CpuState {
        let difference = self.v[x] - self.v[y];
        self.with_register(x, (difference % 256) as u8).with_register(
            FLAG as int,
            flag(self.v[x] >= self.v[y]),
        ).forward(false)
    }

    /// `8xy7`: as `subtract`, with register `y` less register `x`.
    pub open spec fn subtract_from(self, x: int, y: int) -> CpuState {
        let difference = self.v[y] - self.v[x];
        self.with_register(x, (difference % 256) as u8).with_register(
            FLAG as int,
            flag(self.v[y] >= self.v[x]),
        ).forward(false)
    }

    /// `8x_6`: the flag register gets the lowest bit of register `x`, then
    /// register `x` is halved.
    pub open spec fn shift_right(self, x: int) -> CpuState {
        let flagged = self.with_register(FLAG as int, (self.v[x] % 2) as u8);
        flagged.with_register(x, (flagged.v[x] / 2) as u8).forward(false)
    }

    /// `8x_E`: the flag register gets the highest bit of register `x`, then
    /// register `x` is doubled modulo 256.
    pub open spec fn shift_left(self, x: int) -> CpuState {
        let flagged = self.with_register(FLAG as int, (self.v[x] / 128) as u8);
        flagged.with_register(x, (flagged.v[x] * 2 % 256) as u8).forward(false)
    }

    /// `Annn`.
    pub open spec fn load_index(self, address: u16) -> CpuState {
        self.with_index(address as int).forward(false)
    }

    /// `Bnnn`.
    pub open spec fn jump_offset(self, address: u16) -> CpuState {
        self.at(address + self.v[0])
    }

    /// `Cxkk`, for the random byte `random`.
    pub open spec fn random(self, x: int, byte: u8, random: u8) -> CpuState {
        self.with_register(x, random & byte).forward(false)
    }

    /// The sprite of `rows` rows at the index register.
    pub open spec fn sprite(self, rows: int) -> Seq<u8> {
        Seq::new(rows as nat, |k: int| self.memory[self.i + k])
    }

    /// `Dxyn` on `frame`: the flag register tells of a collision and the host
    /// is asked to redraw.
    pub open spec fn draw(self, x: int, y: int, rows: int, frame: Seq<u8>) -> CpuState {
        let hit = collides(frame, self.sprite(rows), self.v[x] as int, self.v[y] as int);
        CpuState { redraw: true, ..self.with_register(FLAG as int, flag(hit)) }.forward(false)
    }

    /// The keypad code that register `x` names: its low four bits.
    pub open spec fn key_named(self, x: int) -> u8 {
        (self.v[x] % 16) as u8
    }

    /// `Ex9E`, with `key` in the latch.
    pub open spec fn skip_key_pressed(self, x: int, key: Option<u8>) -> CpuState {
        self.forward(key == Some(self.key_named(x)))
    }

    /// `ExA1`, with `key` in the latch.
    pub open spec fn skip_key_not_pressed(self, x: int, key: Option<u8>) -> CpuState {
        self.forward(key != Some(self.key_named(x)))
    }

    /// `Fx07`.
    pub open spec fn read_delay(self, x: int) -> CpuState {
        self.with_register(x, self.delay_timer).forward(false)
    }

    /// `Fx0A`, with `key` in the latch: without a key nothing changes.
    pub open spec fn wait_key(self, x: int, key: Option<u8>) -> CpuState {
        match key {
            Some(code) => self.with_register(x, code).forward(false),
            None => self,
        }
    }

    /// `Fx15`.
    pub open spec fn set_delay(self, x: int) -> CpuState {
        CpuState { delay_timer: self.v[x], ..self }.forward(false)
    }

    /// `Fx18`.
    pub open spec fn set_sound(self, x: int) -> CpuState {
        CpuState { sound_timer: self.v[x], ..self }.forward(false)
    }

    /// `Fx1E`: the sum wraps at 65536 and no flag is set.
    pub open spec fn add_index(self, x: int) -> CpuState {
        self.with_index((self.i + self.v[x]) % 65536).forward(false)
    }

    /// `Fx29`: a glyph takes five bytes and the table starts at address 0.
    pub open spec fn load_glyph(self, x: int) -> CpuState {
        self.with_index(self.v[x] * GLYPH_HEIGHT).forward(false)
    }

    /// `Fx33`: hundreds, tens and ones, in this order.
    pub open spec fn store_decimal(self, x: int) -> CpuState {
        let value = self.v[x];
        let i = self.i as int;
        CpuState {
            memory: self.memory.update(i, (value / 100) as u8).update(
                i + 1,
                (value / 10 % 10) as u8,
            ).update(i + 2, (value % 10) as u8),
            ..self
        }.forward(false)
    }

    /// `Fx55`: registers 0 to `x`, both included, go to memory from the
    /// index register on.
    pub open spec fn store_registers(self, x: int) -> CpuState {
        CpuState {
            memory: Seq::new(
                RAM_SIZE as nat,
                |a: int|
                    if self.i <= a <= self.i + x {
                        self.v[a - self.i]
                    } else {
                        self.memory[a]
                    },
            ),
            ..self
        }.forward(false)
    }

    /// `Fx65`: registers 0 to `x`, both included, come from memory from the
    /// index register on.
    pub open spec fn load_registers(self, x: int) -> CpuState {
        CpuState {
            v: Seq::new(
                REGISTER_COUNT as nat,
                |r: int|
                    if r <= x {
                        self.memory[self.i + r]
                    } else {
                        self.v[r]
                    },
            ),
            ..self
        }.forward(false)
    }

    /// The state after a tick of the timers: each timer that is not yet 0
    /// counts down by one.
    pub open spec fn tick(self) -> CpuState {
        CpuState {
            delay_timer: if self.delay_timer > 0 {
                (self.delay_timer - 1) as u8
            } else {
                0
            },
            sound_timer: if self.sound_timer > 0 {
                (self.sound_timer - 1) as u8
            } else {
                0
            },
            ..self
        }
    }

    /// Why `instruction` cannot be executed in this state, if it cannot.
    pub open spec fn faults_on(self, instruction: Instruction) -> Option<Fault> {
        match instruction {
            Instruction::Return => if self.stack.len() == 0 {
                Some(Fault::StackUnderflow)
            } else {
                None
            },
            Instruction::Call { .. } => if self.stack.len() >= STACK_SIZE {
                Some(Fault::StackOverflow)
            } else {
                None
            },
            Instruction::Draw { rows, .. } => if rows > 0 && self.i + rows > RAM_SIZE {
                Some(Fault::AddressOutOfRange { address: (self.i + rows - 1) as usize })
            } else {
                None
            },
            Instruction::StoreDecimal { .. } => if self.i + 2 >= RAM_SIZE {
                Some(Fault::AddressOutOfRange { address: (self.i + 2) as usize })
            } else {
                None
            },
            Instruction::StoreRegisters { x } | Instruction::LoadRegisters { x } => if self.i + x
                >= RAM_SIZE {
                Some(Fault::AddressOutOfRange { address: (self.i + x) as usize })
            } else {
                None
            },
            _ => None,
        }
    }

    /// Why the next step cannot run, if it cannot: the operation code does
    /// not lie in memory, or its instruction cannot be executed.
    pub open spec fn fault(self) -> Option<Fault> {
        if !self.can_fetch() {
            Some(Fault::AddressOutOfRange { address: (self.pc + 1) as usize })
        } else {
            self.faults_on(self.instruction())
        }
    }

    /// The engine's state after `instruction`, with `key` in the latch and
    /// `frame` on the display before it. `random` is the random byte, which
    /// only `Random` reads.
    pub open spec fn execute(
        self,
        instruction: Instruction,
        frame: Seq<u8>,
        key: Option<u8>,
        random: u8,
    ) -> CpuState {
        match instruction {
            Instruction::ClearDisplay => self.clear_display(),
            Instruction::Return => self.ret(),
            Instruction::Jump { address } => self.jump(address),
            Instruction::Call { address } => self.call(address),
            Instruction::SkipEqual { x, byte } => self.skip_equal(x as int, byte),
            Instruction::SkipNotEqual { x, byte } => self.skip_not_equal(x as int, byte),
            Instruction::SkipRegistersEqual { x, y } => self.skip_registers_equal(x as int, y as int),
            Instruction::Load { x, byte } => self.load(x as int, byte),
            Instruction::Add { x, byte } => self.add(x as int, byte),
            Instruction::Move { x, y } => self.move_register(x as int, y as int),
            Instruction::Or { x, y } => self.or(x as int, y as int),
            Instruction::And { x, y } => self.and(x as int, y as int),
            Instruction::Xor { x, y } => self.xor(x as int, y as int),
            Instruction::AddRegister { x, y } => self.add_register(x as int, y as int),
            Instruction::Subtract { x, y } => self.subtract(x as int, y as int),
            Instruction::ShiftRight { x } => self.shift_right(x as int),
            Instruction::SubtractFrom { x, y } => self.subtract_from(x as int, y as int),
            Instruction::ShiftLeft { x } => self.shift_left(x as int),
            Instruction::SkipRegistersNotEqual { x, y } => self.skip_registers_not_equal(
                x as int,
                y as int,
            ),
            Instruction::LoadIndex { address } => self.load_index(address),
            Instruction::JumpOffset { address } => self.jump_offset(address),
            Instruction::Random { x, byte } => self.random(x as int, byte, random),
            Instruction::Draw { x, y, rows } => self.draw(x as int, y as int, rows as int, frame),
            Instruction::SkipKeyPressed { x } => self.skip_key_pressed(x as int, key),
            Instruction::SkipKeyNotPressed { x } => self.skip_key_not_pressed(x as int, key),
            Instruction::ReadDelay { x } => self.read_delay(x as int),
            Instruction::WaitKey { x } => self.wait_key(x as int, key),
            Instruction::SetDelay { x } => self.set_delay(x as int),
            Instruction::SetSound { x } => self.set_sound(x as int),
            Instruction::AddIndex { x } => self.add_index(x as int),
            Instruction::LoadGlyph { x } => self.load_glyph(x as int),
            Instruction::StoreDecimal { x } => self.store_decimal(x as int),
            Instruction::StoreRegisters { x } => self.store_registers(x as int),
            Instruction::LoadRegisters { x } => self.load_registers(x as int),
            Instruction::Unrecognized { .. } => self.forward(false),
        }
    }

    /// The frame after `instruction`, where `frame` is the one before it.
    pub open spec fn paint(self, instruction: Instruction, frame: Seq<u8>) -> Seq<u8> {
        match instruction {
            Instruction::ClearDisplay => blank_frame(),
            Instruction::Draw { x, y, rows } => drawn(
                frame,
                self.sprite(rows as int),
                self.v[x as int] as int,
                self.v[y as int] as int,
            ),
            _ => frame,
        }
    }

    /// What a step that executes `instruction` reports.
    pub open spec fn report(self, instruction: Instruction, key: Option<u8>) -> Step {
        match instruction {
            Instruction::WaitKey { .. } => if key.is_none() {
                Step::Waiting
            } else {
                Step::Executed
            },
            Instruction::Unrecognized { opcode } => Step::Unrecognized { address: self.pc, opcode },
            _ => Step::Executed,
        }
    }
}

/// The lines for the first `count` registers in a description of the
/// engine: for each its name, a colon, what it holds in hexadecimal, and two
/// blanks.
pub open spec fn registers_text(v: Seq<u8>, count: int) -> Seq<char>
    decreases count,
{
    if count <= 0 {
        Seq::empty()
    } else {
        registers_text(v, count - 1) + "V"@ + decimal((count - 1) as nat) + ":"@ + capital_hexadecimal(
            v[count - 1] as nat,
        ) + "  "@
    }
}

impl CpuState {
    /// A description of the engine in three lines: the program counter, the
    /// general registers, and the index register, all in hexadecimal.
    pub open spec fn text(self) -> Seq<char> {
        "PC: 0x"@ + capital_hexadecimal(self.pc as nat) + "\n"@ + registers_text(
            self.v,
            REGISTER_COUNT as int,
        ) + "\n"@ + "I: 0x"@ + capital_hexadecimal(self.i as nat)
    }
}

impl Machine {
    /// The machine after one step, with `key` in the latch: the instruction
    /// at the program counter is executed, unless the step faults, which
    /// leaves the machine as it is.
    pub open spec fn step(self, key: Option<u8>, random: u8) -> Machine {
        if self.cpu.fault().is_some() {
            self
        } else {
            let instruction = self.cpu.instruction();
            Machine {
                cpu: self.cpu.execute(instruction, self.frame, key, random),
                frame: self.cpu.paint(instruction, self.frame),
            }
        }
    }

    /// What that step reports.
    pub open spec fn outcome(self, key: Option<u8>) -> Result<Step, Fault> {
        match self.cpu.fault() {
            Some(fault) => Err(fault),
            None => Ok(self.cpu.report(self.cpu.instruction(), key)),
        }
    }

    /// The machine after one step for each byte of `randoms`, with `key` in
    /// the latch throughout.
    pub open spec fn run(self, key: Option<u8>, randoms: Seq<u8>) -> Machine
        decreases randoms.len(),
    {
        if randoms.len() == 0 {
            self
        } else {
            self.run(key, randoms.drop_last()).step(key, randoms.last())
        }
    }
}

} // verus!
