//! The machine as the host sees it: an engine and its bus, the picture for
//! the host's window, and what the host's loop has to do around each cycle.

use vstd::prelude::*;
use crate::bus::latched;
use crate::bus::Bus;
use crate::cpu::initial_state;
use crate::cpu::loaded;
use crate::cpu::Cpu;
use crate::display::blank_frame;
use crate::display::is_frame;
use crate::display::WIDTH;
use crate::ram::MAX_ROM_SIZE;
use crate::state::CpuState;
use crate::state::Fault;
use crate::state::Machine;
use crate::state::Step;

verus! {

/// Width of the host's window, in pixels.
pub const SCREEN_WIDTH: usize = 640;

/// Height of the host's window, in pixels.
pub const SCREEN_HEIGHT: usize = 320;

/// Number of pixels of the host's window.
pub const SCREEN_SIZE: usize = 204800;

/// Number of pixels of the window, each way, for one pixel of the frame.
pub const SCALE: usize = 10;

/// Number of cycles from one tick of the timers to the next.
pub const CYCLES_PER_TICK: u8 = 10;

/// The colour of a lit pixel in the host's window.
pub const LIT: u32 = 0x00ff00;

/// The colour of a dark pixel in the host's window.
pub const DARK: u32 = 0x0;

/// The machine: an engine, the bus it works on, and the name of the file
/// that its program came from.
pub struct Chip8 {
    bus: Bus,
    cpu: Cpu,
    file_path: String,
    clock: u8,
    unrecognized: u64,
}

/// What the host is to do at the end of a cycle.
#[derive(Clone, Copy, Debug, PartialEq, Eq, Structural)]
pub struct Signals {
    /// Show the frame again: it was drawn on or cleared.
    pub redraw: bool,
    /// Sound the tone; where this is `false`, keep silent.
    pub beep: bool,
}

/// The colour in the host's window of a pixel of the frame.
pub open spec fn color(pixel: u8) -> u32 {
    if pixel == 1 {
        LIT
    } else {
        DARK
    }
}

/// The picture of `frame` for the host's window, row by row: each pixel of
/// the frame fills a square of `SCALE` by `SCALE` pixels. What `rest` holds
/// beyond the window's pixels stays.
pub open spec fn picture(frame: Seq<u8>, rest: Seq<u32>) -> Seq<u32> {
    Seq::new(
        rest.len(),
        |k: int|
            if k < SCREEN_SIZE {
                color(
                    frame[(k % (SCREEN_WIDTH as int)) / (SCALE as int) + WIDTH * ((k / (
                    SCREEN_WIDTH as int)) / (SCALE as int))],
                )
            } else {
                rest[k]
            },
    )
}

/// The number of cycles since the timers last ticked, one cycle after it was
/// `clock`.
pub open spec fn next_clock(clock: int) -> int {
    if clock + 1 >= CYCLES_PER_TICK {
        0
    } else {
        clock + 1
    }
}

/// The key that the host's loop goes by: the first of those that are down.
pub open spec fn first_key(keys_pressed: Option<Vec<i32>>) -> Option<i32> {
    match keys_pressed {
        Some(keys) => if keys@.len() > 0 {
            Some(keys@[0])
        } else {
            None
        },
        None => None,
    }
}

/// The machine as contracts speak of it.
#[verifier::ext_equal]
pub struct Chip8State {
    /// The engine and the frame.
    pub machine: Machine,
    /// What the key latch holds.
    pub key: Option<u8>,
    /// The number of cycles since the timers last ticked.
    pub clock: int,
    /// The number of operation codes met so far that stand for no
    /// instruction.
    pub unrecognized: nat,
    /// The name of the file that the program came from.
    pub file_path: Seq<char>,
}

/// The count of operation codes that stand for no instruction, after one
/// more has been met. It stops at the largest number that it can hold.
pub open spec fn counted(unrecognized: nat) -> nat {
    if unrecognized < u64::MAX {
        unrecognized + 1
    } else {
        unrecognized
    }
}

impl Chip8State {
    /// The machine after a cycle that ended as `machine` with the report
    /// `result`.
    pub open spec fn after_cycle(self, machine: Machine, result: Result<Step, Fault>) -> Chip8State {
        Chip8State {
            machine,
            unrecognized: if result matches Ok(Step::Unrecognized { .. }) {
                counted(self.unrecognized)
            } else {
                self.unrecognized
            },
            ..self
        }
    }

    /// The machine after the host's loop has ended a cycle with the keys
    /// `keys_pressed` down.
    pub open spec fn end_cycle(self, keys_pressed: Option<Vec<i32>>) -> Chip8State {
        let clock = next_clock(self.clock);
        let ticked = if clock == 0 {
            self.machine.cpu.tick()
        } else {
            self.machine.cpu
        };
        Chip8State {
            machine: Machine { cpu: CpuState { redraw: false, ..ticked }, frame: self.machine.frame },
            key: match first_key(keys_pressed) {
                Some(key) => latched(Some(key)),
                None => self.key,
            },
            clock,
            ..self
        }
    }
}

impl View for Chip8 {
    type V = Chip8State;

    closed spec fn view(&self) -> Chip8State {
        Chip8State {
            machine: Machine { cpu: self.cpu@, frame: self.bus.display@ },
            key: self.bus.key_pressed,
            clock: self.clock as int,
            unrecognized: self.unrecognized as nat,
            file_path: self.file_path@,
        }
    }
}

impl Chip8 {
    /// A machine with the program image `rom_buffer`, which was read from
    /// the file `rom_file`, in memory.
    pub fn new(rom_file: String, rom_buffer: Vec<u8>) -> (chip8: Chip8)
        requires
            rom_buffer@.len() <= MAX_ROM_SIZE,
        ensures
            chip8@ == (Chip8State {
                machine: Machine {
                    cpu: CpuState {
                        memory: loaded(initial_state().memory, rom_buffer@),
                        ..initial_state()
                    },
                    frame: blank_frame(),
                },
                key: None,
                clock: 0,
                unrecognized: 0,
                file_path: rom_file@,
            }),
            chip8@.machine.cpu.wf(),
    {
        let mut cpu = Cpu::new();
        cpu.load_rom(rom_buffer);
        Chip8 { bus: Bus::new(), cpu, file_path: rom_file, clock: 0, unrecognized: 0 }
    }

    /// The name of the file that the program came from.
    pub fn path(&self) -> (file_path: &String)
        ensures
            file_path@ == self@.file_path,
    {
        &self.file_path
    }

    /// The number of operation codes met so far that stand for no
    /// instruction.
    pub fn unrecognized(&self) -> (count: u64)
        ensures
            count == self@.unrecognized,
    {
        self.unrecognized
    }

    /// A description of the engine for a reader: see `Cpu::describe`.
    pub fn describe(&self) -> (text: String)
        ensures
            text@ == self@.machine.cpu.text(),
    {
        self.cpu.describe()
    }

    /// Why the next cycle cannot run, if it cannot.
    pub fn fault(&self) -> (fault: Option<Fault>)
        ensures
            fault == self@.machine.cpu.fault(),
    {
        self.cpu.fault()
    }

    /// Runs one cycle of the engine: see `Cpu::execute_cycle`. An operation
    /// code that stands for no instruction is counted.
    pub fn execute_cycle(&mut self) -> (result: Result<Step, Fault>)
        ensures
            exists|random: u8|
                final(self)@ == old(self)@.after_cycle(
                    #[trigger] old(self)@.machine.step(old(self)@.key, random),
                    result,
                ),
            result == old(self)@.machine.outcome(old(self)@.key),
    {
        let ghost before = self@;
        let result = self.cpu.execute_cycle(&mut self.bus);
        if let Ok(Step::Unrecognized { .. }) = result {
            if self.unrecognized < u64::MAX {
                self.unrecognized += 1;
            }
        }
        proof {
            let random = choose|random: u8|
                (Machine { cpu: self.cpu@, frame: self.bus.display@ }) == #[trigger] before.machine.step(
                    before.key,
                    random,
                );
            assert(self@ =~= before.after_cycle(before.machine.step(before.key, random), result));
        }
        result
    }

    /// What the host's loop does after each cycle, given the keys that are
    /// down, if the host could tell. The first of the keys is latched; with
    /// no key down the latch keeps what it holds. Every tenth cycle the
    /// timers tick. The host is told whether to show the frame again, which
    /// resets that signal, and whether to sound the tone.
    pub fn end_cycle(&mut self, keys_pressed: Option<Vec<i32>>) -> (signals: Signals)
        ensures
            final(self)@ == old(self)@.end_cycle(keys_pressed),
            signals.redraw == old(self)@.machine.cpu.redraw,
            signals.beep == (final(self)@.machine.cpu.sound_timer > 0),
    {
        let key: Option<i32> = self.check_key(keys_pressed);
        if key.is_some() {
            self.set_key_pressed(key);
        }
        self.clock = if self.clock >= CYCLES_PER_TICK - 1 {
            0
        } else {
            self.clock + 1
        };
        if self.clock == 0 {
            self.cpu.update_timers();
        }
        let redraw: bool = self.should_redraw();
        let beep: bool = self.should_beep();
        Signals { redraw, beep }
    }

    /// The key that the loop goes by: the first of those that are down.
    pub fn check_key(&self, keys_pressed: Option<Vec<i32>>) -> (key: Option<i32>)
        ensures
            key == first_key(keys_pressed),
    {
        match keys_pressed {
            Some(keys) => {
                if !keys.is_empty() {
                    Some(keys[0])
                } else {
                    None
                }
            },
            None => None,
        }
    }

    /// The picture of the frame for the host's window, in a copy of
    /// `in_buffer`.
    pub fn update_display(&self, in_buffer: &Vec<u32>) -> (buffer: Vec<u32>)
        requires
            in_buffer@.len() >= SCREEN_SIZE,
        ensures
            buffer@ == picture(self@.machine.frame, in_buffer@),
    {
        let mut buffer: Vec<u32> = in_buffer.clone();
        let chip8_buffer: &[u8] = self.get_frame_buffer();
        let mut y: usize = 0;
        while y < SCREEN_HEIGHT
            invariant
                y <= SCREEN_HEIGHT,
                chip8_buffer@ == self@.machine.frame,
                is_frame(chip8_buffer@),
                buffer@.len() == in_buffer@.len(),
                in_buffer@.len() >= SCREEN_SIZE,
                forall|k: int|
                    0 <= k < buffer@.len() ==> buffer@[k] == if k < y * SCREEN_WIDTH {
                        picture(self@.machine.frame, in_buffer@)[k]
                    } else {
                        in_buffer@[k]
                    },
            decreases SCREEN_HEIGHT - y,
        {
            let mut x: usize = 0;
            while x < SCREEN_WIDTH
                invariant
                    x <= SCREEN_WIDTH,
                    y < SCREEN_HEIGHT,
                    chip8_buffer@ == self@.machine.frame,
                    is_frame(chip8_buffer@),
                    buffer@.len() == in_buffer@.len(),
                    in_buffer@.len() >= SCREEN_SIZE,
                    forall|k: int|
                        0 <= k < buffer@.len() ==> buffer@[k] == if k < y * SCREEN_WIDTH + x {
                            picture(self@.machine.frame, in_buffer@)[k]
                        } else {
                            in_buffer@[k]
                        },
                decreases SCREEN_WIDTH - x,
            {
                let index: usize = self.get_frame_index(x / SCALE, y / SCALE);
                let pixel: u8 = chip8_buffer[index];
                let color: u32 = if pixel == 1 {
                    LIT
                } else {
                    DARK
                };
                let offset: usize = y * SCREEN_WIDTH + x;
                buffer[offset] = color;
                x += 1;
            }
            y += 1;
        }
        assert(buffer@ =~= picture(self@.machine.frame, in_buffer@));
        buffer
    }

    /// The pixels of the frame, row by row: 1 for a lit pixel, 0 for a dark
    /// one.
    pub fn get_frame_buffer(&self) -> (pixels: &[u8])
        ensures
            pixels@ == self@.machine.frame,
            is_frame(pixels@),
    {
        self.bus.display.get_frame_buffer()
    }

    /// The place among the pixels of the frame of the one in column `x` of
    /// row `y`.
    pub fn get_frame_index(&self, x: usize, y: usize) -> (index: usize)
        requires
            x + WIDTH * y <= usize::MAX,
        ensures
            index == x + WIDTH * y,
    {
        self.bus.display.get_index(x, y)
    }

    /// Latches the key that the host reports, or clears the latch when it
    /// reports none or a key that is no part of the keypad.
    pub fn set_key_pressed(&mut self, key: Option<i32>)
        ensures
            final(self)@ == (Chip8State { key: latched(key), ..old(self)@ }),
    {
        self.bus.set_key_pressed(key);
    }

    /// Whether the frame was drawn on or cleared since this was last asked.
    /// Asking resets the answer.
    pub fn should_redraw(&mut self) -> (redraw: bool)
        ensures
            redraw == old(self)@.machine.cpu.redraw,
            final(self)@ == (Chip8State {
                machine: Machine {
                    cpu: CpuState { redraw: false, ..old(self)@.machine.cpu },
                    frame: old(self)@.machine.frame,
                },
                ..old(self)@
            }),
    {
        self.cpu.should_redraw()
    }

    /// Whether the host is to sound its tone.
    pub fn should_beep(&self) -> (beep: bool)
        ensures
            beep == (self@.machine.cpu.sound_timer > 0),
    {
        self.cpu.should_beep()
    }
}

} // verus!
