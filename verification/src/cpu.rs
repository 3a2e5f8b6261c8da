//! The execution engine: registers, memory, timers, and the cycle that
//! fetches, decodes and executes one instruction.

use vstd::prelude::*;
use vstd::string::StringExecFns;
use rand::Rng;
use crate::bus::Bus;
use crate::display::blank_frame;
use crate::display::drawn;
use crate::instruction::decode_spec;
use crate::instruction::Instruction;
use crate::ram::initial_memory;
use crate::ram::Ram;
use crate::ram::MAX_ROM_SIZE;
use crate::ram::RAM_SIZE;
use crate::ram::START_ROM;
use crate::state::CpuState;
use crate::state::Fault;
use crate::state::Machine;
use crate::state::Step;
use crate::state::FLAG;
use crate::state::REGISTER_COUNT;
use crate::state::STACK_SIZE;
use crate::state::registers_text;
use crate::state::START_PC;
use crate::text::push_capital_hexadecimal;
use crate::text::push_decimal;

verus! {

/// The engine. It owns memory; the frame and the key latch are on the bus
/// that each step is given.
pub struct Cpu {
    ram: Ram,
    pc: u16,
    v: [u8; 16],
    i: u16,
    stack: [u16; 16],
    sp: usize,
    delay_timer: u8,
    sound_timer: u8,
    redraw: bool,
}

/// The state of an engine that has just been made.
pub open spec fn initial_state() -> CpuState {
    CpuState {
        memory: initial_memory(Seq::empty()),
        pc: START_PC,
        v: Seq::new(REGISTER_COUNT as nat, |r: int| 0u8),
        i: 0,
        stack: Seq::empty(),
        delay_timer: 0,
        sound_timer: 0,
        redraw: false,
    }
}

/// Memory with the program image `rom` written over it from `START_ROM` on.
pub open spec fn loaded(memory: Seq<u8>, rom: Seq<u8>) -> Seq<u8> {
    Seq::new(
        RAM_SIZE as nat,
        |a: int|
            if START_ROM <= a < START_ROM + rom.len() {
                rom[a - START_ROM]
            } else {
                memory[a]
            },
    )
}

/// Loading a program image into a fresh memory gives what `Ram::new` makes
/// of that image.
pub proof fn lemma_loaded_fresh(rom: Seq<u8>)
    requires
        rom.len() <= MAX_ROM_SIZE,
    ensures
        loaded(initial_memory(Seq::empty()), rom) == initial_memory(rom),
{
    assert(loaded(initial_memory(Seq::empty()), rom) =~= initial_memory(rom));
}

/// The stack as it is kept: the return addresses, then zeros up to its size.
pub open spec fn padded(stack: Seq<u16>) -> Seq<u16> {
    Seq::new(
        STACK_SIZE as nat,
        |k: int|
            if k < stack.len() {
                stack[k]
            } else {
                0u16
            },
    )
}

/// A byte from the generator that `rand::thread_rng` keeps for the calling
/// thread, drawn with `Rng::gen`. Nothing is claimed of its value. The
/// generator is seeded by the operating system when a thread first asks for
/// it, and `rand` panics if that fails.
#[verifier::external_body]
fn random_byte() -> (byte: u8) {
    rand::thread_rng().gen::<u8>()
}

impl View for Cpu {
    type V = CpuState;

    closed spec fn view(&self) -> CpuState {
        CpuState {
            memory: self.ram@,
            pc: self.pc,
            v: self.v@,
            i: self.i,
            stack: self.stack@.subrange(0, self.sp as int),
            delay_timer: self.delay_timer,
            sound_timer: self.sound_timer,
            redraw: self.redraw,
        }
    }
}

impl Cpu {
    #[verifier::type_invariant]
    spec fn stack_is_padded(&self) -> bool {
        &&& self.sp <= STACK_SIZE
        &&& forall|k: int| self.sp <= k < STACK_SIZE ==> self.stack@[k] == 0
    }

    /// An engine with the glyph table in memory, no program, and the program
    /// counter at `START_PC`.
    pub fn new() -> (cpu: Cpu)
        ensures
            cpu@ == initial_state(),
            cpu@.wf(),
    {
        let no_program: [u8; 0] = [];
        Cpu {
            ram: Ram::new(no_program.as_slice()),
            pc: 0x200,
            v: [0x00; 16],
            i: 0,
            stack: [0; 16],
            sp: 0,
            delay_timer: 0,
            sound_timer: 0,
            redraw: false,
        }
    }

    /// Writes the program image `rom` into memory from `START_ROM` on.
    pub fn load_rom(&mut self, rom: Vec<u8>)
        requires
            rom@.len() <= MAX_ROM_SIZE,
        ensures
            final(self)@ == (CpuState { memory: loaded(old(self)@.memory, rom@), ..old(self)@ }),
            final(self)@.wf(),
    {
        proof {
            use_type_invariant(&*self);
        }
        let ghost before = self@;
        let buffer_size: usize = rom.len();
        let mut i: usize = 0;
        while i < buffer_size
            invariant
                i <= buffer_size,
                buffer_size == rom@.len(),
                buffer_size <= MAX_ROM_SIZE,
                self.stack_is_padded(),
                self@ == (CpuState { memory: self@.memory, ..before }),
                self@.memory.len() == RAM_SIZE,
                before.memory.len() == RAM_SIZE,
                forall|a: int|
                    0 <= a < RAM_SIZE ==> self@.memory[a] == if START_ROM <= a < START_ROM + i {
                        rom@[a - START_ROM]
                    } else {
                        before.memory[a]
                    },
            decreases buffer_size - i,
        {
            self.ram.write_byte(i + START_ROM, rom[i]);
            i += 1;
        }
        assert(self@.memory =~= loaded(before.memory, rom@));
    }

    /// The program counter.
    pub fn pc(&self) -> (pc: u16)
        ensures
            pc == self@.pc,
    {
        self.pc
    }

    /// The number of return addresses on the stack.
    pub fn sp(&self) -> (sp: usize)
        ensures
            sp == self@.stack.len(),
            sp <= STACK_SIZE,
    {
        proof {
            use_type_invariant(self);
        }
        self.sp
    }

    /// The stack: the return addresses, the oldest first, then zeros.
    pub fn stack(&self) -> (stack: [u16; 16])
        ensures
            stack@ == padded(self@.stack),
    {
        proof {
            use_type_invariant(self);
            assert(self.stack@ =~= padded(self@.stack));
        }
        self.stack
    }

    /// What register `x` holds.
    pub fn register(&self, x: usize) -> (value: u8)
        requires
            x < REGISTER_COUNT,
        ensures
            value == self@.v[x as int],
    {
        self.v[x]
    }

    /// The index register.
    pub fn index(&self) -> (i: u16)
        ensures
            i == self@.i,
    {
        self.i
    }

    /// The delay timer.
    pub fn delay_timer(&self) -> (timer: u8)
        ensures
            timer == self@.delay_timer,
    {
        self.delay_timer
    }

    /// The sound timer.
    pub fn sound_timer(&self) -> (timer: u8)
        ensures
            timer == self@.sound_timer,
    {
        self.sound_timer
    }

    /// Memory.
    pub fn ram(&self) -> (ram: &Ram)
        ensures
            ram@ == self@.memory,
    {
        &self.ram
    }

    /// A description of the engine for a reader: the program counter, the
    /// general registers and the index register.
    pub fn describe(&self) -> (text: String)
        ensures
            text@ == self@.text(),
    {
        let mut text: String = String::from_str("PC: 0x");
        push_capital_hexadecimal(&mut text, self.pc as usize);
        text.append("\n");
        let ghost head = text@;
        let mut idx: usize = 0;
        assert(text@ =~= head + registers_text(self@.v, 0));
        while idx < REGISTER_COUNT
            invariant
                idx <= REGISTER_COUNT,
                text@ == head + registers_text(self@.v, idx as int),
            decreases REGISTER_COUNT - idx,
        {
            text.append("V");
            push_decimal(&mut text, idx);
            text.append(":");
            push_capital_hexadecimal(&mut text, self.v[idx] as usize);
            text.append("  ");
            assert(text@ =~= head + registers_text(self@.v, idx + 1));
            idx += 1;
        }
        text.append("\n");
        text.append("I: 0x");
        push_capital_hexadecimal(&mut text, self.i as usize);
        assert(text@ =~= self@.text());
        text
    }

    /// Whether the frame was drawn on or cleared since this was last asked.
    /// Asking resets the answer.
    pub fn should_redraw(&mut self) -> (redraw: bool)
        ensures
            redraw == old(self)@.redraw,
            final(self)@ == (CpuState { redraw: false, ..old(self)@ }),
    {
        proof {
            use_type_invariant(&*self);
        }
        let redraw = self.redraw;
        self.redraw = false;
        redraw
    }

    /// Whether the host is to sound its tone: the sound timer has not run
    /// out.
    pub fn should_beep(&self) -> (beep: bool)
        ensures
            beep == (self@.sound_timer > 0),
    {
        self.sound_timer > 0
    }

    /// Counts both timers down by one, each unless it is 0 already.
    pub fn update_timers(&mut self)
        ensures
            final(self)@ == old(self)@.tick(),
    {
        proof {
            use_type_invariant(&*self);
        }
        if self.delay_timer > 0 {
            self.delay_timer -= 1;
        }
        if self.sound_timer > 0 {
            self.sound_timer -= 1;
        }
    }

    /// Why the next step cannot run, if it cannot.
    pub fn fault(&self) -> (fault: Option<Fault>)
        ensures
            fault == self@.fault(),
    {
        proof {
            use_type_invariant(self);
        }
        if self.pc as usize + 1 >= RAM_SIZE {
            return Some(Fault::AddressOutOfRange { address: self.pc as usize + 1 });
        }
        let opcode: u16 = self.fetch_op();
        let index: usize = self.i as usize;
        match Instruction::decode(opcode) {
            Instruction::Return => if self.sp == 0 {
                Some(Fault::StackUnderflow)
            } else {
                None
            },
            Instruction::Call { .. } => if self.sp >= STACK_SIZE {
                Some(Fault::StackOverflow)
            } else {
                None
            },
            Instruction::Draw { rows, .. } => if rows > 0 && index + rows as usize > RAM_SIZE {
                Some(Fault::AddressOutOfRange { address: index + rows as usize - 1 })
            } else {
                None
            },
            Instruction::StoreDecimal { .. } => if index + 2 >= RAM_SIZE {
                Some(Fault::AddressOutOfRange { address: index + 2 })
            } else {
                None
            },
            Instruction::StoreRegisters { x } | Instruction::LoadRegisters { x } => if index
                + x as usize >= RAM_SIZE {
                Some(Fault::AddressOutOfRange { address: index + x as usize })
            } else {
                None
            },
            _ => None,
        }
    }

    /// Runs one step: the instruction at the program counter is fetched,
    /// decoded and executed. The timers are left alone; see `update_timers`.
    /// Where the instruction asks for a random byte, one is drawn from the
    /// thread's random number generator, so that the step is a `step` with a
    /// byte that the caller does not choose.
    pub fn execute_cycle(&mut self, bus: &mut Bus) -> (result: Result<Step, Fault>)
        ensures
            exists|random: u8|
                (Machine { cpu: final(self)@, frame: final(bus).display@ }) == #[trigger] (Machine {
                    cpu: old(self)@,
                    frame: old(bus).display@,
                }).step(old(bus).key_pressed, random),
            result == (Machine { cpu: old(self)@, frame: old(bus).display@ }).outcome(
                old(bus).key_pressed,
            ),
            final(bus).key_pressed == old(bus).key_pressed,
            final(self)@.wf(),
    {
        let random: u8 = if self.wants_random() {
            random_byte()
        } else {
            0
        };
        self.step(bus, random)
    }

    /// Whether the next step reads a random byte.
    fn wants_random(&self) -> (wanted: bool)
        ensures
            wanted == (self@.can_fetch() && self@.instruction() is Random),
    {
        if self.pc as usize + 1 >= RAM_SIZE {
            return false;
        }
        match Instruction::decode(self.fetch_op()) {
            Instruction::Random { .. } => true,
            _ => false,
        }
    }

    /// Runs one step, in which `random` is the random byte: the instruction
    /// at the program counter is fetched, decoded and executed. Where that
    /// cannot be done the fault is returned and nothing changes.
    pub fn step(&mut self, bus: &mut Bus, random: u8) -> (result: Result<Step, Fault>)
        ensures
            (Machine { cpu: final(self)@, frame: final(bus).display@ }) == (Machine {
                cpu: old(self)@,
                frame: old(bus).display@,
            }).step(old(bus).key_pressed, random),
            result == (Machine { cpu: old(self)@, frame: old(bus).display@ }).outcome(
                old(bus).key_pressed,
            ),
            final(bus).key_pressed == old(bus).key_pressed,
            final(self)@.wf(),
    {
        proof {
            use_type_invariant(&*self);
        }
        match self.fault() {
            Some(fault) => Err(fault),
            None => {
                let opcode: u16 = self.fetch_op();
                Ok(self.decode_op(opcode, bus, random))
            },
        }
    }

    /// The operation code at the program counter.
    fn fetch_op(&self) -> (opcode: u16)
        requires
            self@.can_fetch(),
        ensures
            opcode == self@.fetch(),
    {
        let hi_byte: u16 = self.ram.read_byte(self.pc as usize) as u16;
        let lo_byte: u16 = self.ram.read_byte(self.pc as usize + 1) as u16;
        let opcode: u16 = hi_byte << 8 | lo_byte;
        assert(hi_byte << 8 | lo_byte == hi_byte * 256 + lo_byte) by (bit_vector)
            requires
                hi_byte < 256,
                lo_byte < 256,
        ;
        opcode
    }

    /// Executes the instruction that `opcode` stands for.
    fn decode_op(&mut self, opcode: u16, bus: &mut Bus, random: u8) -> (step: Step)
        requires
            old(self)@.can_fetch(),
            old(self)@.faults_on(decode_spec(opcode)).is_none(),
        ensures
            final(self)@ == old(self)@.execute(
                decode_spec(opcode),
                old(bus).display@,
                old(bus).key_pressed,
                random,
            ),
            final(bus).display@ == old(self)@.paint(
                decode_spec(opcode),
                old(bus).display@,
            ),
            final(bus).key_pressed == old(bus).key_pressed,
            step == old(self)@.report(decode_spec(opcode), old(bus).key_pressed),
    {
        proof {
            use_type_invariant(&*self);
        }
        let address: u16 = self.pc;
        match Instruction::decode(opcode) {
            Instruction::ClearDisplay => self.op_00e0(bus),
            Instruction::Return => self.op_00ee(),
            Instruction::Jump { address } => self.op_1nnn(address),
            Instruction::Call { address } => self.op_2nnn(address),
            Instruction::SkipEqual { x, byte } => self.op_3xkk(x as usize, byte),
            Instruction::SkipNotEqual { x, byte } => self.op_4xkk(x as usize, byte),
            Instruction::SkipRegistersEqual { x, y } => self.op_5xy0(x as usize, y as usize),
            Instruction::Load { x, byte } => self.op_6xkk(x as usize, byte),
            Instruction::Add { x, byte } => self.op_7xkk(x as usize, byte),
            Instruction::Move { x, y } => self.op_8xy0(x as usize, y as usize),
            Instruction::Or { x, y } => self.op_8xy1(x as usize, y as usize),
            Instruction::And { x, y } => self.op_8xy2(x as usize, y as usize),
            Instruction::Xor { x, y } => self.op_8xy3(x as usize, y as usize),
            Instruction::AddRegister { x, y } => self.op_8xy4(x as usize, y as usize),
            Instruction::Subtract { x, y } => self.op_8xy5(x as usize, y as usize),
            Instruction::ShiftRight { x } => self.op_8xy6(x as usize),
            Instruction::SubtractFrom { x, y } => self.op_8xy7(x as usize, y as usize),
            Instruction::ShiftLeft { x } => self.op_8xye(x as usize),
            Instruction::SkipRegistersNotEqual { x, y } => self.op_9xy0(x as usize, y as usize),
            Instruction::LoadIndex { address } => self.op_annn(address),
            Instruction::JumpOffset { address } => self.op_bnnn(address),
            Instruction::Random { x, byte } => self.op_cxkk(x as usize, byte, random),
            Instruction::Draw { x, y, rows } => self.op_dxyn(x as usize, y as usize, rows, bus),
            Instruction::SkipKeyPressed { x } => self.op_ex9e(x as usize, bus),
            Instruction::SkipKeyNotPressed { x } => self.op_exa1(x as usize, bus),
            Instruction::ReadDelay { x } => self.op_fx07(x as usize),
            Instruction::WaitKey { x } => {
                self.op_fx0a(x as usize, bus);
                if bus.key_pressed.is_none() {
                    return Step::Waiting;
                }
            },
            Instruction::SetDelay { x } => self.op_fx15(x as usize),
            Instruction::SetSound { x } => self.op_fx18(x as usize),
            Instruction::AddIndex { x } => self.op_fx1e(x as usize),
            Instruction::LoadGlyph { x } => self.op_fx29(x as usize),
            Instruction::StoreDecimal { x } => self.op_fx33(x as usize),
            Instruction::StoreRegisters { x } => self.op_fx55(x as usize),
            Instruction::LoadRegisters { x } => self.op_fx65(x as usize),
            Instruction::Unrecognized { opcode } => {
                self.pc += 2;
                return Step::Unrecognized { address, opcode };
            },
        }
        Step::Executed
    }

    /// `00E0`, CLS: clears the display.
    fn op_00e0(&mut self, bus: &mut Bus)
        requires
            old(self)@.can_fetch(),
        ensures
            final(self)@ == old(self)@.clear_display(),
            final(bus).display@ == blank_frame(),
            final(bus).key_pressed == old(bus).key_pressed,
    {
        proof {
            use_type_invariant(&*self);
        }
        bus.display.clear();
        self.redraw = true;
        self.pc += 2;
    }

    /// `00EE`, RET: returns from a subroutine.
    fn op_00ee(&mut self)
        requires
            old(self)@.stack.len() > 0,
        ensures
            final(self)@ == old(self)@.ret(),
    {
        proof {
            use_type_invariant(&*self);
        }
        let address: u16 = self.stack[self.sp - 1];
        self.stack[self.sp - 1] = 0;
        self.sp -= 1;
        self.pc = address;
    }

    /// `1nnn`, JP addr: jumps to `nnn`.
    fn op_1nnn(&mut self, nnn: u16)
        ensures
            final(self)@ == old(self)@.jump(nnn),
    {
        proof {
            use_type_invariant(&*self);
        }
        self.pc = nnn;
    }

    /// `2nnn`, CALL addr: calls the subroutine at `nnn`.
    fn op_2nnn(&mut self, nnn: u16)
        requires
            old(self)@.can_fetch(),
            old(self)@.stack.len() < STACK_SIZE,
        ensures
            final(self)@ == old(self)@.call(nnn),
    {
        proof {
            use_type_invariant(&*self);
        }
        self.sp += 1;
        self.stack[self.sp - 1] = self.pc + 2;
        self.pc = nnn;
    }

    /// `3xkk`, SE Vx, byte: skips the next instruction if Vx = kk.
    fn op_3xkk(&mut self, x: usize, kk: u8)
        requires
            old(self)@.can_fetch(),
            x < REGISTER_COUNT,
        ensures
            final(self)@ == old(self)@.skip_equal(x as int, kk),
    {
        proof {
            use_type_invariant(&*self);
        }
        if self.v[x] == kk {
            self.pc += 4;
        } else {
            self.pc += 2;
        }
    }

    /// `4xkk`, SNE Vx, byte: skips the next instruction if Vx != kk.
    fn op_4xkk(&mut self, x: usize, kk: u8)
        requires
            old(self)@.can_fetch(),
            x < REGISTER_COUNT,
        ensures
            final(self)@ == old(self)@.skip_not_equal(x as int, kk),
    {
        proof {
            use_type_invariant(&*self);
        }
        if self.v[x] != kk {
            self.pc += 4;
        } else {
            self.pc += 2;
        }
    }

    /// `5xy0`, SE Vx, Vy: skips the next instruction if Vx = Vy.
    fn op_5xy0(&mut self, x: usize, y: usize)
        requires
            old(self)@.can_fetch(),
            x < REGISTER_COUNT,
            y < REGISTER_COUNT,
        ensures
            final(self)@ == old(self)@.skip_registers_equal(x as int, y as int),
    {
        proof {
            use_type_invariant(&*self);
        }
        if self.v[x] == self.v[y] {
            self.pc += 4;
        } else {
            self.pc += 2;
        }
    }

    /// `6xkk`, LD Vx, byte: sets Vx = kk.
    fn op_6xkk(&mut self, x: usize, kk: u8)
        requires
            old(self)@.can_fetch(),
            x < REGISTER_COUNT,
        ensures
            final(self)@ == old(self)@.load(x as int, kk),
    {
        proof {
            use_type_invariant(&*self);
        }
        self.v[x] = kk;
        self.pc += 2;
    }

    /// `7xkk`, ADD Vx, byte: sets Vx = Vx + kk.
    fn op_7xkk(&mut self, x: usize, kk: u8)
        requires
            old(self)@.can_fetch(),
            x < REGISTER_COUNT,
        ensures
            final(self)@ == old(self)@.add(x as int, kk),
    {
        proof {
            use_type_invariant(&*self);
        }
        let result: u16 = self.v[x] as u16 + kk as u16;
        self.v[x] = (result % 256) as u8;
        self.pc += 2;
    }

    /// `8xy0`, LD Vx, Vy: sets Vx = Vy.
    fn op_8xy0(&mut self, x: usize, y: usize)
        requires
            old(self)@.can_fetch(),
            x < REGISTER_COUNT,
            y < REGISTER_COUNT,
        ensures
            final(self)@ == old(self)@.move_register(x as int, y as int),
    {
        proof {
            use_type_invariant(&*self);
        }
        self.v[x] = self.v[y];
        self.pc += 2;
    }

    /// `8xy1`, OR Vx, Vy: sets Vx = Vx OR Vy.
    fn op_8xy1(&mut self, x: usize, y: usize)
        requires
            old(self)@.can_fetch(),
            x < REGISTER_COUNT,
            y < REGISTER_COUNT,
        ensures
            final(self)@ == old(self)@.or(x as int, y as int),
    {
        proof {
            use_type_invariant(&*self);
        }
        self.v[x] = self.v[x] | self.v[y];
        self.pc += 2;
    }

    /// `8xy2`, AND Vx, Vy: sets Vx = Vx AND Vy.
    fn op_8xy2(&mut self, x: usize, y: usize)
        requires
            old(self)@.can_fetch(),
            x < REGISTER_COUNT,
            y < REGISTER_COUNT,
        ensures
            final(self)@ == old(self)@.and(x as int, y as int),
    {
        proof {
            use_type_invariant(&*self);
        }
        self.v[x] = self.v[x] & self.v[y];
        self.pc += 2;
    }

    /// `8xy3`, XOR Vx, Vy: sets Vx = Vx XOR Vy.
    fn op_8xy3(&mut self, x: usize, y: usize)
        requires
            old(self)@.can_fetch(),
            x < REGISTER_COUNT,
            y < REGISTER_COUNT,
        ensures
            final(self)@ == old(self)@.xor(x as int, y as int),
    {
        proof {
            use_type_invariant(&*self);
        }
        self.v[x] = self.v[x] ^ self.v[y];
        self.pc += 2;
    }

    /// `8xy4`, ADD Vx, Vy: sets Vx = Vx + Vy and VF = carry.
    fn op_8xy4(&mut self, x: usize, y: usize)
        requires
            old(self)@.can_fetch(),
            x < REGISTER_COUNT,
            y < REGISTER_COUNT,
        ensures
            final(self)@ == old(self)@.add_register(x as int, y as int),
    {
        proof {
            use_type_invariant(&*self);
        }
        let result: u16 = self.v[x] as u16 + self.v[y] as u16;
        let carry_flag: u8 = if result > 0xFF {
            1
        } else {
            0
        };
        self.v[x] = (result % 256) as u8;
        self.v[FLAG] = carry_flag;
        self.pc += 2;
    }

    /// `8xy5`, SUB Vx, Vy: sets Vx = Vx - Vy and VF = NOT borrow.
    fn op_8xy5(&mut self, x: usize, y: usize)
        requires
            old(self)@.can_fetch(),
            x < REGISTER_COUNT,
            y < REGISTER_COUNT,
        ensures
            final(self)@ == old(self)@.subtract(x as int, y as int),
    {
        proof {
            use_type_invariant(&*self);
        }
        let minuend: u8 = self.v[x];
        let subtrahend: u8 = self.v[y];
        let result: u8 = if minuend >= subtrahend {
            minuend - subtrahend
        } else {
            (256 - (subtrahend - minuend) as u16) as u8
        };
        let carry_flag: u8 = if minuend >= subtrahend {
            1
        } else {
            0
        };
        self.v[x] = result;
        self.v[FLAG] = carry_flag;
        self.pc += 2;
    }

    /// `8xy6`, SHR Vx: sets VF to the lowest bit of Vx, then Vx = Vx SHR 1.
    fn op_8xy6(&mut self, x: usize)
        requires
            old(self)@.can_fetch(),
            x < REGISTER_COUNT,
        ensures
            final(self)@ == old(self)@.shift_right(x as int),
    {
        proof {
            use_type_invariant(&*self);
        }
        let value: u8 = self.v[x];
        assert(value & 0x1 == value % 2) by (bit_vector);
        self.v[FLAG] = value & 0x1;
        let shifted: u8 = self.v[x];
        assert(shifted >> 1 == shifted / 2) by (bit_vector);
        self.v[x] = shifted >> 1;
        self.pc += 2;
    }

    /// `8xy7`, SUBN Vx, Vy: sets Vx = Vy - Vx and VF = NOT borrow.
    fn op_8xy7(&mut self, x: usize, y: usize)
        requires
            old(self)@.can_fetch(),
            x < REGISTER_COUNT,
            y < REGISTER_COUNT,
        ensures
            final(self)@ == old(self)@.subtract_from(x as int, y as int),
    {
        proof {
            use_type_invariant(&*self);
        }
        let minuend: u8 = self.v[y];
        let subtrahend: u8 = self.v[x];
        let result: u8 = if minuend >= subtrahend {
            minuend - subtrahend
        } else {
            (256 - (subtrahend - minuend) as u16) as u8
        };
        let carry_flag: u8 = if minuend >= subtrahend {
            1
        } else {
            0
        };
        self.v[x] = result;
        self.v[FLAG] = carry_flag;
        self.pc += 2;
    }

    /// `8xyE`, SHL Vx: sets VF to the highest bit of Vx, then Vx = Vx SHL 1.
    fn op_8xye(&mut self, x: usize)
        requires
            old(self)@.can_fetch(),
            x < REGISTER_COUNT,
        ensures
            final(self)@ == old(self)@.shift_left(x as int),
    {
        proof {
            use_type_invariant(&*self);
        }
        let value: u8 = self.v[x];
        assert((value & 0b10000000) >> 7 == value / 128) by (bit_vector);
        self.v[FLAG] = (value & 0b10000000) >> 7;
        let shifted: u8 = self.v[x];
        assert(shifted << 1 == (shifted * 2 % 256) as u8) by (bit_vector);
        self.v[x] = shifted << 1;
        self.pc += 2;
    }

    /// `9xy0`, SNE Vx, Vy: skips the next instruction if Vx != Vy.
    fn op_9xy0(&mut self, x: usize, y: usize)
        requires
            old(self)@.can_fetch(),
            x < REGISTER_COUNT,
            y < REGISTER_COUNT,
        ensures
            final(self)@ == old(self)@.skip_registers_not_equal(x as int, y as int),
    {
        proof {
            use_type_invariant(&*self);
        }
        if self.v[x] != self.v[y] {
            self.pc += 4;
        } else {
            self.pc += 2;
        }
    }

    /// `Annn`, LD I, addr: sets I = nnn.
    fn op_annn(&mut self, nnn: u16)
        requires
            old(self)@.can_fetch(),
        ensures
            final(self)@ == old(self)@.load_index(nnn),
    {
        proof {
            use_type_invariant(&*self);
        }
        self.i = nnn;
        self.pc += 2;
    }

    /// `Bnnn`, JP V0, addr: jumps to nnn + V0.
    fn op_bnnn(&mut self, nnn: u16)
        requires
            nnn < RAM_SIZE,
        ensures
            final(self)@ == old(self)@.jump_offset(nnn),
    {
        proof {
            use_type_invariant(&*self);
        }
        self.pc = nnn + self.v[0] as u16;
    }

    /// `Cxkk`, RND Vx, byte: sets Vx = random byte AND kk.
    fn op_cxkk(&mut self, x: usize, kk: u8, random: u8)
        requires
            old(self)@.can_fetch(),
            x < REGISTER_COUNT,
        ensures
            final(self)@ == old(self)@.random(x as int, kk, random),
    {
        proof {
            use_type_invariant(&*self);
        }
        self.v[x] = random & kk;
        self.pc += 2;
    }

    /// `Dxyn`, DRW Vx, Vy, nibble: draws the sprite of n bytes at I at (Vx, Vy)
    /// and sets VF = collision.
    fn op_dxyn(&mut self, x: usize, y: usize, n: u8, bus: &mut Bus)
        requires
            old(self)@.can_fetch(),
            x < REGISTER_COUNT,
            y < REGISTER_COUNT,
            n < 16,
            n > 0 ==> old(self)@.i + n <= RAM_SIZE,
        ensures
            final(self)@ == old(self)@.draw(x as int, y as int, n as int, old(bus).display@),
            final(bus).display@ == drawn(
                old(bus).display@,
                old(self)@.sprite(n as int),
                old(self)@.v[x as int] as int,
                old(self)@.v[y as int] as int,
            ),
            final(bus).key_pressed == old(bus).key_pressed,
    {
        proof {
            use_type_invariant(&*self);
        }
        let start: usize = if n == 0 {
            0
        } else {
            self.i as usize
        };
        let sprite: &[u8] = self.ram.read_bytes(start, start + n as usize);
        assert(sprite@ =~= self@.sprite(n as int));
        let collision: bool = bus.display.draw(self.v[x] as usize, self.v[y] as usize, sprite);
        self.v[FLAG] = if collision {
            1
        } else {
            0
        };
        self.redraw = true;
        self.pc += 2;
    }

    /// `Ex9E`, SKP Vx: skips the next instruction if the key that Vx names is
    /// pressed.
    fn op_ex9e(&mut self, x: usize, bus: &Bus)
        requires
            old(self)@.can_fetch(),
            x < REGISTER_COUNT,
        ensures
            final(self)@ == old(self)@.skip_key_pressed(x as int, bus.key_pressed),
    {
        proof {
            use_type_invariant(&*self);
        }
        let value: u8 = self.v[x];
        assert(value & 0x0F == value % 16) by (bit_vector);
        if bus.is_key_pressed(value & 0x0F) {
            self.pc += 4;
        } else {
            self.pc += 2;
        }
    }

    /// `ExA1`, SKNP Vx: skips the next instruction if the key that Vx names is
    /// not pressed.
    fn op_exa1(&mut self, x: usize, bus: &Bus)
        requires
            old(self)@.can_fetch(),
            x < REGISTER_COUNT,
        ensures
            final(self)@ == old(self)@.skip_key_not_pressed(x as int, bus.key_pressed),
    {
        proof {
            use_type_invariant(&*self);
        }
        let value: u8 = self.v[x];
        assert(value & 0x0F == value % 16) by (bit_vector);
        if !bus.is_key_pressed(value & 0x0F) {
            self.pc += 4;
        } else {
            self.pc += 2;
        }
    }

    /// `Fx07`, LD Vx, DT: sets Vx = delay timer.
    fn op_fx07(&mut self, x: usize)
        requires
            old(self)@.can_fetch(),
            x < REGISTER_COUNT,
        ensures
            final(self)@ == old(self)@.read_delay(x as int),
    {
        proof {
            use_type_invariant(&*self);
        }
        self.v[x] = self.delay_timer;
        self.pc += 2;
    }

    /// `Fx0A`, LD Vx, K: stores the key that is pressed in Vx, or does nothing
    /// while none is.
    fn op_fx0a(&mut self, x: usize, bus: &Bus)
        requires
            old(self)@.can_fetch(),
            x < REGISTER_COUNT,
        ensures
            final(self)@ == old(self)@.wait_key(x as int, bus.key_pressed),
    {
        proof {
            use_type_invariant(&*self);
        }
        if let Some(key_pressed) = bus.key_pressed {
            self.v[x] = key_pressed;
            self.pc += 2;
        }
    }

    /// `Fx15`, LD DT, Vx: sets delay timer = Vx.
    fn op_fx15(&mut self, x: usize)
        requires
            old(self)@.can_fetch(),
            x < REGISTER_COUNT,
        ensures
            final(self)@ == old(self)@.set_delay(x as int),
    {
        proof {
            use_type_invariant(&*self);
        }
        self.delay_timer = self.v[x];
        self.pc += 2;
    }

    /// `Fx18`, LD ST, Vx: sets sound timer = Vx.
    fn op_fx18(&mut self, x: usize)
        requires
            old(self)@.can_fetch(),
            x < REGISTER_COUNT,
        ensures
            final(self)@ == old(self)@.set_sound(x as int),
    {
        proof {
            use_type_invariant(&*self);
        }
        self.sound_timer = self.v[x];
        self.pc += 2;
    }

    /// `Fx1E`, ADD I, Vx: sets I = I + Vx.
    fn op_fx1e(&mut self, x: usize)
        requires
            old(self)@.can_fetch(),
            x < REGISTER_COUNT,
        ensures
            final(self)@ == old(self)@.add_index(x as int),
    {
        proof {
            use_type_invariant(&*self);
        }
        let sum: u32 = self.i as u32 + self.v[x] as u32;
        self.i = (sum % 65536) as u16;
        self.pc += 2;
    }

    /// `Fx29`, LD F, Vx: sets I to the place of the glyph for Vx.
    fn op_fx29(&mut self, x: usize)
        requires
            old(self)@.can_fetch(),
            x < REGISTER_COUNT,
        ensures
            final(self)@ == old(self)@.load_glyph(x as int),
    {
        proof {
            use_type_invariant(&*self);
        }
        self.i = (self.v[x] as u16) * 5;
        self.pc += 2;
    }

    /// `Fx33`, LD B, Vx: stores the decimal digits of Vx at I, I+1 and I+2.
    fn op_fx33(&mut self, x: usize)
        requires
            old(self)@.can_fetch(),
            x < REGISTER_COUNT,
            old(self)@.i + 2 < RAM_SIZE,
        ensures
            final(self)@ == old(self)@.store_decimal(x as int),
    {
        proof {
            use_type_invariant(&*self);
        }
        let value: u8 = self.v[x];
        let index: usize = self.i as usize;
        assert((value % 100) / 10 == value / 10 % 10) by (bit_vector);
        self.ram.write_byte(index, value / 100);
        self.ram.write_byte(index + 1, (value % 100) / 10);
        self.ram.write_byte(index + 2, value % 10);
        self.pc += 2;
    }

    /// `Fx55`, LD [I], Vx: stores V0 to Vx in memory from I on.
    fn op_fx55(&mut self, x: usize)
        requires
            old(self)@.can_fetch(),
            x < REGISTER_COUNT,
            old(self)@.i + x < RAM_SIZE,
        ensures
            final(self)@ == old(self)@.store_registers(x as int),
    {
        proof {
            use_type_invariant(&*self);
        }
        let ghost before = self@;
        let index: usize = self.i as usize;
        let mut idx: usize = 0;
        while idx < x + 1
            invariant
                idx <= x + 1,
                x < REGISTER_COUNT,
                index == before.i,
                index + x < RAM_SIZE,
                self.stack_is_padded(),
                self@ == (CpuState { memory: self@.memory, ..before }),
                self@.memory.len() == RAM_SIZE,
                before.memory.len() == RAM_SIZE,
                forall|a: int|
                    0 <= a < RAM_SIZE ==> self@.memory[a] == if index <= a < index + idx {
                        before.v[a - index]
                    } else {
                        before.memory[a]
                    },
            decreases x + 1 - idx,
        {
            let val: u8 = self.v[idx];
            self.ram.write_byte(index + idx, val);
            idx += 1;
        }
        assert(self@.memory =~= before.store_registers(x as int).memory);
        self.pc += 2;
    }

    /// `Fx65`, LD Vx, [I]: reads V0 to Vx from memory from I on.
    fn op_fx65(&mut self, x: usize)
        requires
            old(self)@.can_fetch(),
            x < REGISTER_COUNT,
            old(self)@.i + x < RAM_SIZE,
        ensures
            final(self)@ == old(self)@.load_registers(x as int),
    {
        proof {
            use_type_invariant(&*self);
        }
        let ghost before = self@;
        let index: usize = self.i as usize;
        let mut idx: usize = 0;
        while idx < x + 1
            invariant
                idx <= x + 1,
                x < REGISTER_COUNT,
                index == before.i,
                index + x < RAM_SIZE,
                self.stack_is_padded(),
                self@ == (CpuState { v: self@.v, ..before }),
                self@.v.len() == REGISTER_COUNT,
                before.memory.len() == RAM_SIZE,
                forall|r: int|
                    0 <= r < REGISTER_COUNT ==> self@.v[r] == if r < idx {
                        before.memory[index + r]
                    } else {
                        before.v[r]
                    },
            decreases x + 1 - idx,
        {
            let val: u8 = self.ram.read_byte(index + idx);
            self.v[idx] = val;
            idx += 1;
        }
        assert(self@.v =~= before.load_registers(x as int).v);
        self.pc += 2;
    }
}

} // verus!
