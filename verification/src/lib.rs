//! A CHIP-8 virtual CPU: registers, memory, call stack, timers, keypad and a
//! 64x32 display, driven one fetch-decode-execute cycle at a time.
//!
//! [`CHIP8`] is the machine. Its contracts are stated over
//! [`MachineState`], the machine as a mathematical value, and
//! `MachineState::step`, the function from one state to the next.

pub mod alu;
pub mod cpu;
pub mod display;
pub mod instruction;
pub mod keypad;
pub mod laws;
pub mod memory;
pub mod random;
pub mod semantics;
pub mod state;

pub use cpu::{reset_memory, LoadError, CHIP8, MAX_ROM_SIZE};
pub use instruction::{decode, Instruction};
pub use keypad::Keypad;
pub use random::{RandomSource, ScriptedSource};
pub use state::{
    MachineState, TickError, FONT_SET, FONT_SIZE, FONT_START_ADDR, HEIGHT, MEMORY_SIZE, START_ADDR,
    VIDEO_SIZE, WIDTH,
};
