//! What one cycle does to the machine, as a function on abstract states.

use crate::display::{drawn_video, sprite_collides};
use crate::instruction::{decode_word, Instruction};
use crate::keypad::lowest_pressed;
use crate::memory::overlay;
use crate::state::{
    MachineState, TickError, FLAG_REGISTER, FONT_GLYPH_SIZE, FONT_START_ADDR, MEMORY_SIZE,
    STACK_DEPTH, VIDEO_SIZE,
};
use vstd::prelude::*;

verus! {

/// The value a flag takes in the flag register.
pub open spec fn flag(condition: bool) -> u8 {
    if condition {
        1
    } else {
        0
    }
}

/// One step of a countdown timer: down by one, stopping at zero.
pub open spec fn decayed(timer: u8) -> u8 {
    if timer > 0 {
        (timer - 1) as u8
    } else {
        0
    }
}

/// The hundreds, tens and ones digit of `value`.
pub open spec fn bcd_digits(value: u8) -> (u8, u8, u8) {
    ((value / 100) as u8, ((value / 10) % 10) as u8, (value % 10) as u8)
}

impl MachineState {
    /// Both bytes of the next instruction lie inside memory.
    pub open spec fn can_fetch(self) -> bool {
        self.pc + 1 < MEMORY_SIZE
    }

    /// The instruction word at the program counter, high byte first.
    pub open spec fn fetch_word(self) -> u16 {
        (self.memory[self.pc as int] * 0x100 + self.memory[self.pc + 1]) as u16
    }

    /// The state with `word` latched and the program counter moved past it.
    pub open spec fn advance(self, word: u16) -> MachineState {
        MachineState { opcode: word, pc: (self.pc + 2) as u16, ..self }
    }

    /// The state with register `x` set to `value`.
    pub open spec fn with_register(self, x: int, value: u8) -> MachineState {
        MachineState { registers: self.registers.update(x, value), ..self }
    }

    /// The state with the flag register set to `value` first and register
    /// `x` set to `result` second, so that `result` wins when `x` is the
    /// flag register.
    pub open spec fn with_flag_then(self, value: u8, x: int, result: u8) -> MachineState {
        self.with_register(FLAG_REGISTER as int, value).with_register(x, result)
    }

    /// The state with the program counter moved past one more instruction if
    /// `condition` holds.
    pub open spec fn skip_if(self, condition: bool) -> MachineState {
        if condition {
            MachineState { pc: (self.pc + 2) as u16, ..self }
        } else {
            self
        }
    }

    /// Whether the key whose number is in register `x` is held down. A
    /// register value above fifteen names no key and counts as released.
    pub open spec fn key_down(self, x: int) -> bool {
        self.registers[x] < self.keypad.len() && self.keypad[self.registers[x] as int]
    }

    /// The reason `instruction` cannot be executed in this state, if there is
    /// one: a return on an empty stack, a call on a full stack, or a memory
    /// access relative to the index register that would pass the last
    /// address.
    pub open spec fn fault(self, instruction: Instruction) -> Option<TickError> {
        match instruction {
            Instruction::Return => if self.sp == 0 {
                Some(TickError::StackUnderflow)
            } else {
                None
            },
            Instruction::Call { .. } => if self.sp >= STACK_DEPTH {
                Some(TickError::StackOverflow)
            } else {
                None
            },
            Instruction::Draw { n, .. } => if n > 0 && self.index + n > MEMORY_SIZE {
                Some(TickError::MemoryOutOfBounds)
            } else {
                None
            },
            Instruction::StoreBcd { .. } => if self.index + 2 >= MEMORY_SIZE {
                Some(TickError::MemoryOutOfBounds)
            } else {
                None
            },
            Instruction::StoreRegisters { x } | Instruction::LoadRegisters { x } => if self.index
                + x >= MEMORY_SIZE {
                Some(TickError::MemoryOutOfBounds)
            } else {
                None
            },
            _ => None,
        }
    }

    /// The effect of `instruction` on a state whose program counter already
    /// points past it. `Vx` and `Vy` are the operand registers' values before
    /// the instruction; `random` is the byte used by `Instruction::Random`.
    pub open spec fn apply(self, instruction: Instruction, random: u8) -> MachineState {
        match instruction {
            Instruction::ClearDisplay => MachineState {
                video: Seq::new(VIDEO_SIZE as nat, |cell: int| 0u8),
                ..self
            },
            Instruction::Return => MachineState {
                sp: (self.sp - 1) as u8,
                pc: self.stack[self.sp - 1],
                ..self
            },
            Instruction::Jump { addr } => MachineState { pc: addr, ..self },
            Instruction::Call { addr } => MachineState {
                stack: self.stack.update(self.sp as int, self.pc),
                sp: (self.sp + 1) as u8,
                pc: addr,
                ..self
            },
            Instruction::SkipEqImm { x, kk } => self.skip_if(self.registers[x as int] == kk),
            Instruction::SkipNeImm { x, kk } => self.skip_if(self.registers[x as int] != kk),
            Instruction::SkipEqReg { x, y } => self.skip_if(
                self.registers[x as int] == self.registers[y as int],
            ),
            Instruction::LoadImm { x, kk } => self.with_register(x as int, kk),
            Instruction::AddImm { x, kk } => self.with_register(
                x as int,
                ((self.registers[x as int] + kk) % 0x100) as u8,
            ),
            Instruction::Move { x, y } => self.with_register(x as int, self.registers[y as int]),
            Instruction::Or { x, y } => self.with_register(
                x as int,
                self.registers[x as int] | self.registers[y as int],
            ),
            Instruction::And { x, y } => self.with_register(
                x as int,
                self.registers[x as int] & self.registers[y as int],
            ),
            Instruction::Xor { x, y } => self.with_register(
                x as int,
                self.registers[x as int] ^ self.registers[y as int],
            ),
            Instruction::AddReg { x, y } => {
                let sum = self.registers[x as int] + self.registers[y as int];
                self.with_flag_then(flag(sum > 0xFF), x as int, (sum % 0x100) as u8)
            },
            Instruction::SubReg { x, y } => {
                let vx = self.registers[x as int];
                let vy = self.registers[y as int];
                self.with_flag_then(flag(vx >= vy), x as int, ((vx - vy) % 0x100) as u8)
            },
            Instruction::ShiftRight { x } => {
                let flagged = self.with_register(
                    FLAG_REGISTER as int,
                    (self.registers[x as int] % 2) as u8,
                );
                flagged.with_register(x as int, (flagged.registers[x as int] / 2) as u8)
            },
            Instruction::SubRegReverse { x, y } => {
                let vx = self.registers[x as int];
                let vy = self.registers[y as int];
                self.with_flag_then(flag(vy >= vx), x as int, ((vy - vx) % 0x100) as u8)
            },
            Instruction::ShiftLeft { x } => {
                let flagged = self.with_register(
                    FLAG_REGISTER as int,
                    (self.registers[x as int] / 0x80) as u8,
                );
                flagged.with_register(x as int, ((flagged.registers[x as int] * 2) % 0x100) as u8)
            },
            Instruction::SkipNeReg { x, y } => self.skip_if(
                self.registers[x as int] != self.registers[y as int],
            ),
            Instruction::LoadIndex { addr } => MachineState { index: addr, ..self },
            Instruction::JumpOffset { addr } => MachineState {
                pc: ((self.registers[0] + addr) % 0x1_0000) as u16,
                ..self
            },
            Instruction::Random { x, kk } => self.with_register(x as int, random & kk),
            Instruction::Draw { x, y, n } => {
                let vx = self.registers[x as int] as int;
                let vy = self.registers[y as int] as int;
                let hit = sprite_collides(self.video, self.memory, self.index as int, n as int, vx, vy);
                MachineState {
                    video: drawn_video(self.video, self.memory, self.index as int, n as int, vx, vy),
                    ..self.with_register(FLAG_REGISTER as int, flag(hit))
                }
            },
            Instruction::SkipKeyPressed { x } => self.skip_if(self.key_down(x as int)),
            Instruction::SkipKeyNotPressed { x } => self.skip_if(!self.key_down(x as int)),
            Instruction::LoadDelay { x } => self.with_register(x as int, self.delay_timer),
            Instruction::WaitKey { x } => match lowest_pressed(self.keypad) {
                Some(key) => self.with_register(x as int, key as u8),
                None => MachineState { pc: (self.pc - 2) as u16, ..self },
            },
            Instruction::SetDelay { x } => MachineState {
                delay_timer: self.registers[x as int],
                ..self
            },
            Instruction::SetSound { x } => MachineState {
                sound_timer: self.registers[x as int],
                ..self
            },
            Instruction::AddIndex { x } => MachineState {
                index: ((self.index + self.registers[x as int]) % 0x1_0000) as u16,
                ..self
            },
            Instruction::LoadFont { x } => MachineState {
                index: (FONT_START_ADDR + self.registers[x as int] * FONT_GLYPH_SIZE) as u16,
                ..self
            },
            Instruction::StoreBcd { x } => {
                let digits = bcd_digits(self.registers[x as int]);
                MachineState {
                    memory: self.memory.update(self.index as int, digits.0).update(
                        self.index + 1,
                        digits.1,
                    ).update(self.index + 2, digits.2),
                    ..self
                }
            },
            Instruction::StoreRegisters { x } => MachineState {
                memory: overlay(self.memory, self.index as int, self.registers, 0, x + 1),
                ..self
            },
            Instruction::LoadRegisters { x } => MachineState {
                registers: overlay(self.registers, 0, self.memory, self.index as int, x + 1),
                ..self
            },
            Instruction::Unknown => self,
        }
    }

    /// The state with both timers moved one step towards zero.
    pub open spec fn decay_timers(self) -> MachineState {
        MachineState {
            delay_timer: decayed(self.delay_timer),
            sound_timer: decayed(self.sound_timer),
            ..self
        }
    }

    /// The instruction that the next cycle executes.
    pub open spec fn next_instruction(self) -> Instruction {
        decode_word(self.fetch_word())
    }

    /// Whether the next cycle consumes a random byte.
    pub open spec fn draws_random(self) -> bool {
        self.can_fetch() && self.next_instruction() is Random
    }

    /// One full cycle: fetch the word at the program counter, move the
    /// program counter past it, execute the decoded instruction and let the
    /// timers decay. The cycle fails, without a successor state, when the
    /// word cannot be fetched or the instruction faults.
    pub open spec fn step(self, random: u8) -> Result<MachineState, TickError> {
        if !self.can_fetch() {
            Err(TickError::ProgramCounterOutOfBounds)
        } else {
            let word = self.fetch_word();
            let instruction = decode_word(word);
            match self.fault(instruction) {
                Some(error) => Err(error),
                None => Ok(self.advance(word).apply(instruction, random).decay_timers()),
            }
        }
    }
}

/// Whether a cycle that starts in `before` and uses `random` as its random
/// byte ends in `after` with `result`: on success `after` is the successor
/// state, on failure the error is reported and `after` is `before`.
pub open spec fn cycle_yields(
    before: MachineState,
    random: u8,
    after: MachineState,
    result: Result<(), TickError>,
) -> bool {
    match before.step(random) {
        Ok(next) => result is Ok && after == next,
        Err(error) => result == Err::<(), TickError>(error) && after == before,
    }
}

} // verus!
