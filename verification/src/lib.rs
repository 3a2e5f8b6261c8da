//! An interpreter for an 8-bit virtual machine: 4096 bytes of memory, sixteen
//! registers, a frame of 64 by 32 pixels, a keypad of sixteen keys and two
//! timers.
//!
//! `cpu` holds the engine, which runs a program instruction by instruction,
//! and `state` says what each instruction does. `ram`, `display` and `bus`
//! are what the engine works on. `chip8` puts them together for a host, which
//! brings the window, the keys, the tone and the clock. `disassembler` and
//! `assembler` turn a program into text and text into tokens.

pub mod font;
pub mod ram;
pub mod display;
pub mod instruction;
pub mod bus;
pub mod state;
pub mod cpu;
pub mod laws;
pub mod text;
pub mod disassembler;
pub mod chip8;
pub mod assembler;
