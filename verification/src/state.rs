//! The abstract machine state that the contracts of the CPU are stated over,
//! together with the fixed sizes and addresses of the machine.

use crate::keypad::KEY_COUNT;
use crate::memory::overlay;
use vstd::prelude::*;

verus! {

/// Number of addressable bytes of memory.
pub const MEMORY_SIZE: usize = 4096;

/// Number of general-purpose registers.
pub const REGISTER_COUNT: usize = 16;

/// Number of the register that receives carry, borrow, shift and collision
/// flags.
pub const FLAG_REGISTER: usize = 15;

/// Number of return addresses the call stack can hold.
pub const STACK_DEPTH: usize = 16;

/// Display width in cells.
pub const WIDTH: usize = 64;

/// Display height in cells.
pub const HEIGHT: usize = 32;

/// Number of display cells.
pub const VIDEO_SIZE: usize = 2048;

/// Value of a display cell that is lit.
pub const PIXEL_ON: u8 = 0xFF;

/// Address at which programs are loaded and execution starts.
pub const START_ADDR: u16 = 0x200;

/// Address of the first byte of the font table.
pub const FONT_START_ADDR: u16 = 0x50;

/// Number of bytes in the font table.
pub const FONT_SIZE: usize = 80;

/// Number of bytes in the sprite of one font digit.
pub const FONT_GLYPH_SIZE: u16 = 5;

/// Sprites of the hexadecimal digits `0` to `F`, five bytes each.
pub const FONT_SET: [u8; 80] = [
    0xF0, 0x90, 0x90, 0x90, 0xF0,
    0x20, 0x60, 0x20, 0x20, 0x70,
    0xF0, 0x10, 0xF0, 0x80, 0xF0,
    0xF0, 0x10, 0xF0, 0x10, 0xF0,
    0x90, 0x90, 0xF0, 0x10, 0x10,
    0xF0, 0x80, 0xF0, 0x10, 0xF0,
    0xF0, 0x80, 0xF0, 0x90, 0xF0,
    0xF0, 0x10, 0x20, 0x40, 0x40,
    0xF0, 0x90, 0xF0, 0x90, 0xF0,
    0xF0, 0x90, 0xF0, 0x10, 0xF0,
    0xF0, 0x90, 0xF0, 0x90, 0x90,
    0xE0, 0x90, 0xE0, 0x90, 0xE0,
    0xF0, 0x80, 0x80, 0x80, 0xF0,
    0xE0, 0x90, 0x90, 0x90, 0xE0,
    0xF0, 0x80, 0xF0, 0x80, 0xF0,
    0xF0, 0x80, 0xF0, 0x80, 0x80,
];

/// A failed cycle. A cycle that fails leaves the machine exactly as it was.
#[derive(Clone, Copy, Debug, PartialEq, Eq, Structural)]
pub enum TickError {
    /// The two bytes of the next instruction do not both lie inside memory.
    ProgramCounterOutOfBounds,
    /// A return was executed with an empty call stack.
    StackUnderflow,
    /// A call was executed with all sixteen stack slots in use.
    StackOverflow,
    /// The instruction would read or write memory beyond the last address.
    MemoryOutOfBounds,
}

/// The complete state of the machine as a mathematical value.
#[verifier::ext_equal]
pub struct MachineState {
    /// The sixteen general-purpose registers `V0` to `VF`.
    pub registers: Seq<u8>,
    /// The 4096 bytes of memory.
    pub memory: Seq<u8>,
    /// The index register `I`.
    pub index: u16,
    /// Address of the next instruction to fetch.
    pub pc: u16,
    /// The sixteen slots of the call stack.
    pub stack: Seq<u16>,
    /// Number of stack slots in use; also the next free slot.
    pub sp: u8,
    /// The delay timer.
    pub delay_timer: u8,
    /// The sound timer.
    pub sound_timer: u8,
    /// One flag per key, `true` while the key is held down.
    pub keypad: Seq<bool>,
    /// The 2048 display cells, row by row.
    pub video: Seq<u8>,
    /// The instruction word fetched by the last successful cycle.
    pub opcode: u16,
}

/// Memory as it is before any program is loaded: zero everywhere except for
/// the font table at its fixed address.
pub open spec fn pristine_memory() -> Seq<u8> {
    overlay(
        Seq::new(MEMORY_SIZE as nat, |addr: int| 0u8),
        FONT_START_ADDR as int,
        FONT_SET@,
        0,
        FONT_SIZE as int,
    )
}

impl MachineState {
    /// Every buffer has its fixed size and the stack pointer does not exceed
    /// the stack depth.
    pub open spec fn wf(self) -> bool {
        &&& self.registers.len() == REGISTER_COUNT
        &&& self.memory.len() == MEMORY_SIZE
        &&& self.stack.len() == STACK_DEPTH
        &&& self.sp <= STACK_DEPTH
        &&& self.keypad.len() == KEY_COUNT
        &&& self.video.len() == VIDEO_SIZE
    }

    /// The state right after construction or reset: everything zero, the font
    /// table in memory, no key pressed and the program counter at the start
    /// address.
    pub open spec fn pristine() -> MachineState {
        MachineState {
            registers: Seq::new(REGISTER_COUNT as nat, |i: int| 0u8),
            memory: pristine_memory(),
            index: 0,
            pc: START_ADDR,
            stack: Seq::new(STACK_DEPTH as nat, |i: int| 0u16),
            sp: 0,
            delay_timer: 0,
            sound_timer: 0,
            keypad: Seq::new(KEY_COUNT as nat, |i: int| false),
            video: Seq::new(VIDEO_SIZE as nat, |i: int| 0u8),
            opcode: 0,
        }
    }

    /// The state with key `key` pressed or released.
    pub open spec fn with_key(self, key: int, pressed: bool) -> MachineState {
        MachineState { keypad: self.keypad.update(key, pressed), ..self }
    }

    /// The state with display cell `cell` set to `value`.
    pub open spec fn with_pixel(self, cell: int, value: u8) -> MachineState {
        MachineState { video: self.video.update(cell, value), ..self }
    }

    /// The state with the program image `rom` copied into memory at the
    /// start address.
    pub open spec fn with_rom(self, rom: Seq<u8>) -> MachineState {
        MachineState {
            memory: overlay(self.memory, START_ADDR as int, rom, 0, rom.len() as int),
            ..self
        }
    }

    /// Every display cell is either off (`0x00`) or on (`0xFF`).
    pub open spec fn video_is_binary(self) -> bool {
        forall|cell: int|
            0 <= cell < self.video.len() ==> self.video[cell] == 0 || self.video[cell] == PIXEL_ON
    }
}

} // verus!
