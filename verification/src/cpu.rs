//! The CPU: the machine's registers, memory, stack, timers, keypad and
//! display, and the cycle that drives them.

use crate::alu::{add_carry, shift_left, shift_right, sub_borrow};
use crate::display::draw_sprite;
use crate::instruction::{decode, Instruction};
use crate::keypad::{Keypad, KEY_COUNT};
use crate::memory::copy_bytes;
use crate::random::RandomSource;
use crate::semantics::cycle_yields;
use crate::state::{
    pristine_memory, MachineState, TickError, FLAG_REGISTER, FONT_GLYPH_SIZE, FONT_SET, FONT_SIZE,
    FONT_START_ADDR, MEMORY_SIZE, REGISTER_COUNT, STACK_DEPTH, START_ADDR, VIDEO_SIZE,
};
use vstd::prelude::*;

verus! {

/// Number of bytes between the start address and the end of memory: the
/// largest program that can be loaded.
pub const MAX_ROM_SIZE: usize = 3584;

/// A program image that cannot be loaded.
#[derive(Clone, Copy, Debug, PartialEq, Eq, Structural)]
pub enum LoadError {
    /// The image is longer than the memory above the start address.
    RomTooLarge,
}

/// A fresh memory image: all zero, with the font table at its fixed address.
pub fn reset_memory() -> (memory: [u8; 4096])
    ensures
        memory@ == pristine_memory(),
{
    let mut memory = [0u8; 4096];
    let font = FONT_SET;
    copy_bytes(&mut memory, FONT_START_ADDR as usize, &font, 0, FONT_SIZE);
    memory
}

/// A CHIP-8 virtual CPU that draws its random bytes from `R`.
pub struct CHIP8<R: RandomSource> {
    registers: [u8; 16],
    memory: [u8; 4096],
    index: u16,
    pc: u16,
    stack: [u16; 16],
    sp: u8,
    delay_timer: u8,
    sound_timer: u8,
    keypad: Keypad,
    video: [u8; 2048],
    opcode: u16,
    random: R,
}

impl<R: RandomSource> View for CHIP8<R> {
    type V = MachineState;

    /// The machine's state; the random source is not part of it.
    closed spec fn view(&self) -> MachineState {
        MachineState {
            registers: self.registers@,
            memory: self.memory@,
            index: self.index,
            pc: self.pc,
            stack: self.stack@,
            sp: self.sp,
            delay_timer: self.delay_timer,
            sound_timer: self.sound_timer,
            keypad: self.keypad@,
            video: self.video@,
            opcode: self.opcode,
        }
    }
}

impl<R: RandomSource> CHIP8<R> {
    /// The machine's buffers have their fixed sizes and the stack pointer
    /// does not exceed the stack depth.
    pub open spec fn wf(&self) -> bool {
        self@.wf()
    }

    /// The random source that the machine draws from.
    pub closed spec fn source(&self) -> R {
        self.random
    }

    /// A machine in its pristine state that will draw random bytes from
    /// `random`.
    pub fn new(random: R) -> (chip8: CHIP8<R>)
        ensures
            chip8.wf(),
            chip8@ == MachineState::pristine(),
            chip8.source() == random,
    {
        let keypad = Keypad::new();
        CHIP8 {
            registers: [0u8; 16],
            memory: reset_memory(),
            index: 0,
            pc: START_ADDR,
            stack: [0u16; 16],
            sp: 0,
            delay_timer: 0,
            sound_timer: 0,
            keypad,
            video: [0u8; 2048],
            opcode: 0,
            random,
        }
    }

    /// Returns the machine to its pristine state. The random source is kept
    /// as it is.
    pub fn reset(&mut self)
        ensures
            final(self).source() == old(self).source(),
            final(self).wf(),
            final(self)@ == MachineState::pristine(),
    {
        self.registers = [0u8; 16];
        self.memory = reset_memory();
        self.index = 0;
        self.pc = START_ADDR;
        self.stack = [0u16; 16];
        self.sp = 0;
        self.delay_timer = 0;
        self.sound_timer = 0;
        self.keypad = Keypad::new();
        self.video = [0u8; 2048];
        self.opcode = 0;
    }

    /// The display: 2048 cells, row by row, `0x00` for off and `0xFF` for
    /// on.
    pub fn get_video(&self) -> (video: &[u8; 2048])
        ensures
            video@ == self@.video,
    {
        &self.video
    }

    /// The 4096 bytes of memory.
    pub fn get_memory(&self) -> (memory: &[u8; 4096])
        ensures
            memory@ == self@.memory,
    {
        &self.memory
    }

    /// The index register.
    pub fn get_index(&self) -> (index: u16)
        ensures
            index == self@.index,
    {
        self.index
    }

    /// The program counter: the address of the next instruction.
    pub fn get_pc(&self) -> (pc: u16)
        ensures
            pc == self@.pc,
    {
        self.pc
    }

    /// The sixteen general-purpose registers.
    pub fn get_registers(&self) -> (registers: &[u8; 16])
        ensures
            registers@ == self@.registers,
    {
        &self.registers
    }

    /// The sound timer.
    pub fn get_sound_timer(&self) -> (timer: u8)
        ensures
            timer == self@.sound_timer,
    {
        self.sound_timer
    }

    /// The delay timer.
    pub fn get_delay_timer(&self) -> (timer: u8)
        ensures
            timer == self@.delay_timer,
    {
        self.delay_timer
    }

    /// The instruction word fetched by the last successful cycle.
    pub fn get_opcode(&self) -> (opcode: u16)
        ensures
            opcode == self@.opcode,
    {
        self.opcode
    }

    /// The sixteen slots of the call stack.
    pub fn get_stack_ptr(&self) -> (stack: &[u16; 16])
        ensures
            stack@ == self@.stack,
    {
        &self.stack
    }

    /// The stack pointer: the number of stack slots in use.
    pub fn get_stack_index(&self) -> (sp: u8)
        ensures
            sp == self@.sp,
    {
        self.sp
    }

    /// Records that `key` is held down.
    pub fn set_key_down(&mut self, key: usize)
        requires
            old(self).wf(),
            key < KEY_COUNT,
        ensures
            final(self).source() == old(self).source(),
            final(self).wf(),
            final(self)@ == old(self)@.with_key(key as int, true),
    {
        self.keypad.set(key, true);
    }

    /// Records that `key` has been released.
    pub fn set_key_up(&mut self, key: usize)
        requires
            old(self).wf(),
            key < KEY_COUNT,
        ensures
            final(self).source() == old(self).source(),
            final(self).wf(),
            final(self)@ == old(self)@.with_key(key as int, false),
    {
        self.keypad.set(key, false);
    }

    /// Copies a program image into memory at the start address. An image
    /// that does not fit is rejected and nothing is changed.
    pub fn load_rom(&mut self, rom: &[u8]) -> (result: Result<(), LoadError>)
        requires
            old(self).wf(),
        ensures
            final(self).source() == old(self).source(),
            final(self).wf(),
            rom@.len() > MAX_ROM_SIZE ==> result == Err::<(), LoadError>(LoadError::RomTooLarge)
                && final(self)@ == old(self)@,
            rom@.len() <= MAX_ROM_SIZE ==> result is Ok && final(self)@ == old(self)@.with_rom(
                rom@,
            ),
    {
        let len = rom.len();
        if len > MAX_ROM_SIZE {
            return Err(LoadError::RomTooLarge);
        }
        copy_bytes(&mut self.memory, START_ADDR as usize, rom, 0, len);
        Ok(())
    }

    /// Overwrites register `x`, for a host that restores or inspects a
    /// machine from outside.
    pub fn set_register(&mut self, x: usize, value: u8)
        requires
            old(self).wf(),
            x < REGISTER_COUNT,
        ensures
            final(self).source() == old(self).source(),
            final(self).wf(),
            final(self)@ == old(self)@.with_register(x as int, value),
    {
        self.registers[x] = value;
    }

    /// Overwrites display cell `cell`, for a host that restores or inspects
    /// a machine from outside.
    pub fn set_pixel(&mut self, cell: usize, value: u8)
        requires
            old(self).wf(),
            cell < VIDEO_SIZE,
        ensures
            final(self).source() == old(self).source(),
            final(self).wf(),
            final(self)@ == old(self)@.with_pixel(cell as int, value),
    {
        self.video[cell] = value;
    }

    /// Reads the instruction word at the program counter, high byte first,
    /// if both of its bytes lie inside memory.
    fn fetch(&self) -> (word: Option<u16>)
        ensures
            match word {
                Some(w) => self@.can_fetch() && w == self@.fetch_word(),
                None => !self@.can_fetch(),
            },
    {
        let pc = self.pc as usize;
        if pc + 1 >= MEMORY_SIZE {
            return None;
        }
        let high = self.memory[pc] as u16;
        let low = self.memory[pc + 1] as u16;
        assert(high << 8 | low == high * 0x100 + low) by (bit_vector)
            requires
                high < 0x100,
                low < 0x100,
        ;
        Some(high << 8 | low)
    }

    /// Checks, before anything is changed, whether `instruction` can be
    /// executed in the current state.
    fn fault(&self, instruction: Instruction) -> (error: Option<TickError>)
        requires
            self.wf(),
        ensures
            error == self@.fault(instruction),
    {
        let index = self.index as usize;
        match instruction {
            Instruction::Return => if self.sp == 0 {
                Some(TickError::StackUnderflow)
            } else {
                None
            },
            Instruction::Call { .. } => if self.sp as usize >= STACK_DEPTH {
                Some(TickError::StackOverflow)
            } else {
                None
            },
            Instruction::Draw { n, .. } => if n > 0 && index + n as usize > MEMORY_SIZE {
                Some(TickError::MemoryOutOfBounds)
            } else {
                None
            },
            Instruction::StoreBcd { .. } => if index + 2 >= MEMORY_SIZE {
                Some(TickError::MemoryOutOfBounds)
            } else {
                None
            },
            Instruction::StoreRegisters { x } | Instruction::LoadRegisters { x } => if index
                + x as usize >= MEMORY_SIZE {
                Some(TickError::MemoryOutOfBounds)
            } else {
                None
            },
            _ => None,
        }
    }

    /// Sets the flag register to `value` and then register `x` to `result`.
    fn set_flag_then(&mut self, value: u8, x: u8, result: u8)
        requires
            x < REGISTER_COUNT,
        ensures
            final(self).source() == old(self).source(),
            final(self)@ == old(self)@.with_flag_then(value, x as int, result),
    {
        self.registers[FLAG_REGISTER] = value;
        self.registers[x as usize] = result;
    }

    /// Moves the program counter past one more instruction if `condition`
    /// holds.
    fn skip_if(&mut self, condition: bool)
        requires
            old(self)@.pc <= MEMORY_SIZE,
        ensures
            final(self).source() == old(self).source(),
            final(self)@ == old(self)@.skip_if(condition),
    {
        if condition {
            self.pc = self.pc + 2;
        }
    }

    /// Whether the key whose number is in register `x` is held down.
    fn key_down(&self, x: u8) -> (down: bool)
        requires
            self.wf(),
            x < REGISTER_COUNT,
        ensures
            down == self@.key_down(x as int),
    {
        self.keypad.is_pressed(self.registers[x as usize] as usize)
    }

    /// Stores the number of the lowest pressed key in register `x`, or, with
    /// no key pressed, moves the program counter back onto the instruction
    /// so that it runs again next cycle.
    fn wait_key(&mut self, x: u8)
        requires
            old(self).wf(),
            x < REGISTER_COUNT,
            old(self)@.pc >= 2,
        ensures
            final(self).source() == old(self).source(),
            final(self)@ == old(self)@.apply(Instruction::WaitKey { x }, 0),
    {
        match self.keypad.first_pressed() {
            Some(key) => {
                self.registers[x as usize] = key;
            },
            None => {
                self.pc = self.pc - 2;
            },
        }
    }

    /// Writes the hundreds, tens and ones digit of register `x` to the three
    /// bytes at the index register.
    fn store_bcd(&mut self, x: u8)
        requires
            x < REGISTER_COUNT,
            old(self)@.index + 2 < MEMORY_SIZE,
        ensures
            final(self).source() == old(self).source(),
            final(self)@ == old(self)@.apply(Instruction::StoreBcd { x }, 0),
    {
        let vx = self.registers[x as usize];
        let index = self.index as usize;
        self.memory[index] = vx / 100;
        self.memory[index + 1] = (vx / 10) % 10;
        self.memory[index + 2] = vx % 10;
    }

    /// Copies registers `V0..=Vx` to memory starting at the index register.
    fn store_registers(&mut self, x: u8)
        requires
            x < REGISTER_COUNT,
            old(self)@.index + x < MEMORY_SIZE,
        ensures
            final(self).source() == old(self).source(),
            final(self)@ == old(self)@.apply(Instruction::StoreRegisters { x }, 0),
    {
        copy_bytes(&mut self.memory, self.index as usize, &self.registers, 0, x as usize + 1);
    }

    /// Copies memory starting at the index register to registers `V0..=Vx`.
    fn load_registers(&mut self, x: u8)
        requires
            x < REGISTER_COUNT,
            old(self)@.index + x < MEMORY_SIZE,
        ensures
            final(self).source() == old(self).source(),
            final(self)@ == old(self)@.apply(Instruction::LoadRegisters { x }, 0),
    {
        copy_bytes(&mut self.registers, 0, &self.memory, self.index as usize, x as usize + 1);
    }

    /// Draws the `n`-row sprite at the index register at the position held
    /// in registers `x` and `y`, and sets the flag register to the collision
    /// flag.
    fn draw(&mut self, x: u8, y: u8, n: u8)
        requires
            x < REGISTER_COUNT,
            y < REGISTER_COUNT,
            n < 16,
            n == 0 || old(self)@.index + n <= MEMORY_SIZE,
        ensures
            final(self).source() == old(self).source(),
            final(self)@ == old(self)@.apply(Instruction::Draw { x, y, n }, 0),
    {
        let vx = self.registers[x as usize];
        let vy = self.registers[y as usize];
        let collision = draw_sprite(&mut self.video, &self.memory, self.index as usize, n, vx, vy);
        self.registers[FLAG_REGISTER] = if collision {
            1
        } else {
            0
        };
    }

    /// Adds register `x` to the index register, wrapping at sixteen bits.
    fn add_index(&mut self, x: u8)
        requires
            x < REGISTER_COUNT,
        ensures
            final(self).source() == old(self).source(),
            final(self)@ == old(self)@.apply(Instruction::AddIndex { x }, 0),
    {
        let vx = self.registers[x as usize];
        self.index = self.index.wrapping_add(vx as u16);
    }

    /// Points the index register at the font sprite of the digit held in
    /// register `x`.
    fn load_font(&mut self, x: u8)
        requires
            x < REGISTER_COUNT,
        ensures
            final(self).source() == old(self).source(),
            final(self)@ == old(self)@.apply(Instruction::LoadFont { x }, 0),
    {
        let vx = self.registers[x as usize];
        self.index = FONT_START_ADDR + vx as u16 * FONT_GLYPH_SIZE;
    }

    /// Turns every display cell off.
    fn clear_display(&mut self)
        ensures
            final(self).source() == old(self).source(),
            final(self)@ == old(self)@.apply(Instruction::ClearDisplay, 0),
    {
        self.video = [0u8; 2048];
    }

    /// Pushes the program counter on the call stack and jumps to `addr`.
    fn push_call(&mut self, addr: u16)
        requires
            old(self)@.sp < STACK_DEPTH,
        ensures
            final(self).source() == old(self).source(),
            final(self)@ == old(self)@.apply(Instruction::Call { addr }, 0),
    {
        self.stack[self.sp as usize] = self.pc;
        self.sp = self.sp + 1;
        self.pc = addr;
    }

    /// Pops the most recent return address into the program counter.
    fn pop_return(&mut self)
        requires
            0 < old(self)@.sp <= STACK_DEPTH,
        ensures
            final(self).source() == old(self).source(),
            final(self)@ == old(self)@.apply(Instruction::Return, 0),
    {
        self.sp = self.sp - 1;
        self.pc = self.stack[self.sp as usize];
    }

    /// Carries out an instruction that only moves the program counter or
    /// the call stack.
    fn execute_flow(&mut self, instruction: Instruction)
        requires
            old(self).wf(),
            instruction.wf(),
            instruction.is_flow(),
            old(self)@.fault(instruction) is None,
            2 <= old(self)@.pc <= MEMORY_SIZE,
        ensures
            final(self).source() == old(self).source(),
            final(self).wf(),
            final(self)@ == old(self)@.apply(instruction, 0),
    {
        match instruction {
            Instruction::Return => {
                self.pop_return();
            },
            Instruction::Jump { addr } => {
                self.pc = addr;
            },
            Instruction::Call { addr } => {
                self.push_call(addr);
            },
            Instruction::SkipEqImm { x, kk } => {
                let vx = self.registers[x as usize];
                self.skip_if(vx == kk);
            },
            Instruction::SkipNeImm { x, kk } => {
                let vx = self.registers[x as usize];
                self.skip_if(vx != kk);
            },
            Instruction::SkipEqReg { x, y } => {
                let vx = self.registers[x as usize];
                let vy = self.registers[y as usize];
                self.skip_if(vx == vy);
            },
            Instruction::SkipNeReg { x, y } => {
                let vx = self.registers[x as usize];
                let vy = self.registers[y as usize];
                self.skip_if(vx != vy);
            },
            Instruction::JumpOffset { addr } => {
                self.pc = self.registers[0] as u16 + addr;
            },
            Instruction::SkipKeyPressed { x } => {
                let down = self.key_down(x);
                self.skip_if(down);
            },
            Instruction::SkipKeyNotPressed { x } => {
                let down = self.key_down(x);
                self.skip_if(!down);
            },
            Instruction::WaitKey { x } => {
                self.wait_key(x);
            },
            _ => {},
        }
    }

    /// Carries out an instruction that only writes registers.
    fn execute_register(&mut self, instruction: Instruction, random: u8)
        requires
            old(self).wf(),
            instruction.wf(),
            instruction.is_register(),
        ensures
            final(self).source() == old(self).source(),
            final(self).wf(),
            final(self)@ == old(self)@.apply(instruction, random),
    {
        match instruction {
            Instruction::LoadImm { x, kk } => {
                self.set_register(x as usize, kk);
            },
            Instruction::AddImm { x, kk } => {
                let vx = self.registers[x as usize];
                self.set_register(x as usize, add_carry(vx, kk).0);
            },
            Instruction::Move { x, y } => {
                let vy = self.registers[y as usize];
                self.set_register(x as usize, vy);
            },
            Instruction::Or { x, y } => {
                let vx = self.registers[x as usize];
                let vy = self.registers[y as usize];
                self.set_register(x as usize, vx | vy);
            },
            Instruction::And { x, y } => {
                let vx = self.registers[x as usize];
                let vy = self.registers[y as usize];
                self.set_register(x as usize, vx & vy);
            },
            Instruction::Xor { x, y } => {
                let vx = self.registers[x as usize];
                let vy = self.registers[y as usize];
                self.set_register(x as usize, vx ^ vy);
            },
            Instruction::AddReg { x, y } => {
                let vx = self.registers[x as usize];
                let vy = self.registers[y as usize];
                let (sum, carry) = add_carry(vx, vy);
                self.set_flag_then(carry, x, sum);
            },
            Instruction::SubReg { x, y } => {
                let vx = self.registers[x as usize];
                let vy = self.registers[y as usize];
                let (difference, no_borrow) = sub_borrow(vx, vy);
                self.set_flag_then(no_borrow, x, difference);
            },
            Instruction::ShiftRight { x } => {
                let vx = self.registers[x as usize];
                self.set_register(FLAG_REGISTER, shift_right(vx).1);
                let current = self.registers[x as usize];
                self.set_register(x as usize, shift_right(current).0);
            },
            Instruction::SubRegReverse { x, y } => {
                let vx = self.registers[x as usize];
                let vy = self.registers[y as usize];
                let (difference, no_borrow) = sub_borrow(vy, vx);
                self.set_flag_then(no_borrow, x, difference);
            },
            Instruction::ShiftLeft { x } => {
                let vx = self.registers[x as usize];
                self.set_register(FLAG_REGISTER, shift_left(vx).1);
                let current = self.registers[x as usize];
                self.set_register(x as usize, shift_left(current).0);
            },
            Instruction::Random { x, kk } => {
                self.set_register(x as usize, random & kk);
            },
            Instruction::LoadDelay { x } => {
                self.set_register(x as usize, self.delay_timer);
            },
            _ => {},
        }
    }

    /// Carries out an instruction that works on the display, the index
    /// register, the timers or memory.
    fn execute_memory(&mut self, instruction: Instruction)
        requires
            old(self).wf(),
            instruction.wf(),
            !instruction.is_flow(),
            !instruction.is_register(),
            old(self)@.fault(instruction) is None,
        ensures
            final(self).source() == old(self).source(),
            final(self).wf(),
            final(self)@ == old(self)@.apply(instruction, 0),
    {
        match instruction {
            Instruction::ClearDisplay => {
                self.clear_display();
            },
            Instruction::LoadIndex { addr } => {
                self.index = addr;
            },
            Instruction::Draw { x, y, n } => {
                self.draw(x, y, n);
            },
            Instruction::SetDelay { x } => {
                self.delay_timer = self.registers[x as usize];
            },
            Instruction::SetSound { x } => {
                self.sound_timer = self.registers[x as usize];
            },
            Instruction::AddIndex { x } => {
                self.add_index(x);
            },
            Instruction::LoadFont { x } => {
                self.load_font(x);
            },
            Instruction::StoreBcd { x } => {
                self.store_bcd(x);
            },
            Instruction::StoreRegisters { x } => {
                self.store_registers(x);
            },
            Instruction::LoadRegisters { x } => {
                self.load_registers(x);
            },
            _ => {},
        }
    }

    /// Carries out `instruction` on a machine whose program counter already
    /// points past it.
    fn execute(&mut self, instruction: Instruction, random: u8)
        requires
            old(self).wf(),
            instruction.wf(),
            old(self)@.fault(instruction) is None,
            2 <= old(self)@.pc <= MEMORY_SIZE,
        ensures
            final(self).source() == old(self).source(),
            final(self).wf(),
            final(self)@ == old(self)@.apply(instruction, random),
    {
        match instruction {
            Instruction::Return
            | Instruction::Jump { .. }
            | Instruction::Call { .. }
            | Instruction::SkipEqImm { .. }
            | Instruction::SkipNeImm { .. }
            | Instruction::SkipEqReg { .. }
            | Instruction::SkipNeReg { .. }
            | Instruction::JumpOffset { .. }
            | Instruction::SkipKeyPressed { .. }
            | Instruction::SkipKeyNotPressed { .. }
            | Instruction::WaitKey { .. } => self.execute_flow(instruction),
            Instruction::LoadImm { .. }
            | Instruction::AddImm { .. }
            | Instruction::Move { .. }
            | Instruction::Or { .. }
            | Instruction::And { .. }
            | Instruction::Xor { .. }
            | Instruction::AddReg { .. }
            | Instruction::SubReg { .. }
            | Instruction::ShiftRight { .. }
            | Instruction::SubRegReverse { .. }
            | Instruction::ShiftLeft { .. }
            | Instruction::Random { .. }
            | Instruction::LoadDelay { .. } => self.execute_register(instruction, random),
            _ => self.execute_memory(instruction),
        }
    }

    /// Moves each timer one step towards zero.
    fn decay_timers(&mut self)
        ensures
            final(self).source() == old(self).source(),
            final(self)@ == old(self)@.decay_timers(),
    {
        if self.delay_timer > 0 {
            self.delay_timer = self.delay_timer - 1;
        }
        if self.sound_timer > 0 {
            self.sound_timer = self.sound_timer - 1;
        }
    }

    /// Fetches and decodes the next instruction and checks that it can be
    /// executed, without changing anything.
    fn prepare(&self) -> (fetched: Result<(u16, Instruction), TickError>)
        requires
            self.wf(),
        ensures
            match fetched {
                Ok((word, instruction)) => {
                    &&& self@.can_fetch()
                    &&& word == self@.fetch_word()
                    &&& instruction == self@.next_instruction()
                    &&& instruction.wf()
                    &&& self@.fault(instruction) is None
                },
                Err(error) => forall|random: u8| #[trigger]
                    self@.step(random) == Err::<MachineState, TickError>(error),
            },
    {
        let word = match self.fetch() {
            Some(word) => word,
            None => {
                return Err(TickError::ProgramCounterOutOfBounds);
            },
        };
        let instruction = decode(word);
        match self.fault(instruction) {
            Some(error) => Err(error),
            None => Ok((word, instruction)),
        }
    }

    /// Latches `word`, moves the program counter past it, executes
    /// `instruction` and lets the timers decay.
    fn commit(&mut self, word: u16, instruction: Instruction, random: u8)
        requires
            old(self).wf(),
            old(self)@.can_fetch(),
            word == old(self)@.fetch_word(),
            instruction == old(self)@.next_instruction(),
            instruction.wf(),
            old(self)@.fault(instruction) is None,
        ensures
            final(self).source() == old(self).source(),
            final(self).wf(),
            old(self)@.step(random) == Ok::<MachineState, TickError>(final(self)@),
    {
        self.opcode = word;
        self.pc = self.pc + 2;
        self.execute(instruction, random);
        self.decay_timers();
    }

    /// Runs one cycle with `random` as the byte that the random instruction
    /// uses: fetch, advance the program counter, execute, decay the timers.
    /// A cycle that cannot be carried out reports why and changes nothing.
    pub fn tick_with(&mut self, random: u8) -> (result: Result<(), TickError>)
        requires
            old(self).wf(),
        ensures
            final(self).source() == old(self).source(),
            final(self).wf(),
            cycle_yields(old(self)@, random, final(self)@, result),
    {
        match self.prepare() {
            Ok((word, instruction)) => {
                self.commit(word, instruction, random);
                Ok(())
            },
            Err(error) => Err(error),
        }
    }

    /// Runs one cycle, drawing a byte from the random source if and only if
    /// the instruction executed is the random instruction. Whatever byte the
    /// source hands out, the cycle is the one `tick_with` runs with that
    /// byte; a cycle that executes any other instruction leaves the source
    /// untouched and is the same for every byte.
    pub fn tick(&mut self) -> (result: Result<(), TickError>)
        requires
            old(self).wf(),
        ensures
            final(self).wf(),
            exists|random: u8| cycle_yields(old(self)@, random, final(self)@, result),
            !old(self)@.draws_random() ==> final(self).source() == old(self).source(),
            !old(self)@.draws_random() ==> cycle_yields(old(self)@, 0, final(self)@, result),
    {
        match self.prepare() {
            Ok((word, instruction)) => {
                let random = match instruction {
                    Instruction::Random { .. } => self.random.next_byte(),
                    _ => 0,
                };
                self.commit(word, instruction, random);
                assert(cycle_yields(old(self)@, random, self@, Ok(())));
                Ok(())
            },
            Err(error) => {
                assert(cycle_yields(old(self)@, 0, self@, Err(error)));
                Err(error)
            },
        }
    }
}

} // verus!
