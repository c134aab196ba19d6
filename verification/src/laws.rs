//! Properties of the cycle that hold for every state, proved from the
//! definition of `MachineState::step`.

use crate::display::drawn_video;
use crate::instruction::{decode_word, lemma_word_from_nibbles, word_from_nibbles, Instruction};
use crate::keypad::{is_lowest_pressed, lemma_lowest_pressed, none_pressed};
use crate::semantics::{decayed, flag};
use crate::state::{
    MachineState, TickError, FLAG_REGISTER, FONT_SET, FONT_SIZE, FONT_START_ADDR, MEMORY_SIZE,
    PIXEL_ON, STACK_DEPTH,
};
use vstd::prelude::*;

verus! {

/// A successful cycle keeps the state well formed and latches the fetched
/// word.
pub proof fn law_step_preserves_wf(s: MachineState, random: u8)
    requires
        s.wf(),
        s.step(random) is Ok,
    ensures
        s.step(random)->Ok_0.wf(),
        s.step(random)->Ok_0.opcode == s.fetch_word(),
{
    let word = s.fetch_word();
    let instruction = decode_word(word);
    let advanced = s.advance(word);
    let applied = advanced.apply(instruction, random);
    assert(applied.wf());
    assert(applied.opcode == word);
}

/// The pristine state is well formed, its display is dark and its memory
/// holds the font table, byte for byte, at the font address and zero
/// elsewhere.
pub proof fn law_pristine()
    ensures
        MachineState::pristine().wf(),
        MachineState::pristine().video_is_binary(),
        forall|i: int|
            0 <= i < FONT_SIZE ==> #[trigger] MachineState::pristine().memory[FONT_START_ADDR + i]
                == FONT_SET[i],
        forall|addr: int|
            0 <= addr < MEMORY_SIZE && !(FONT_START_ADDR <= addr < FONT_START_ADDR + FONT_SIZE)
                ==> #[trigger] MachineState::pristine().memory[addr] == 0,
{
}

/// Each part of the machine is changed only by the instructions that are
/// meant to change it: the display by clear and draw, memory by the two
/// store instructions, the stack by call, the stack pointer by call and
/// return, the index register by its three load and add instructions, and
/// the keypad by none.
pub proof fn law_frame(s: MachineState, random: u8)
    requires
        s.wf(),
        s.step(random) is Ok,
    ensures
        !(s.next_instruction() is ClearDisplay || s.next_instruction() is Draw) ==> s.step(
            random,
        )->Ok_0.video == s.video,
        !(s.next_instruction() is StoreBcd || s.next_instruction() is StoreRegisters) ==> s.step(
            random,
        )->Ok_0.memory == s.memory,
        !(s.next_instruction() is Call) ==> s.step(random)->Ok_0.stack == s.stack,
        !(s.next_instruction() is Call || s.next_instruction() is Return) ==> s.step(
            random,
        )->Ok_0.sp == s.sp,
        !(s.next_instruction() is LoadIndex || s.next_instruction() is AddIndex
            || s.next_instruction() is LoadFont) ==> s.step(random)->Ok_0.index == s.index,
        s.step(random)->Ok_0.keypad == s.keypad,
{
    let word = s.fetch_word();
    let instruction = decode_word(word);
    let advanced = s.advance(word);
    let applied = advanced.apply(instruction, random);
    assert(!(instruction is ClearDisplay || instruction is Draw) ==> applied.video == s.video);
    assert(!(instruction is StoreBcd || instruction is StoreRegisters) ==> applied.memory
        == s.memory);
    assert(!(instruction is Call) ==> applied.stack == s.stack);
    assert(!(instruction is Call || instruction is Return) ==> applied.sp == s.sp);
    assert(!(instruction is LoadIndex || instruction is AddIndex || instruction is LoadFont)
        ==> applied.index == s.index);
    assert(applied.keypad == s.keypad);
}

/// The random byte matters only to the random instruction: a cycle that
/// executes anything else has the same outcome for every byte.
pub proof fn law_random_byte_only_for_random(s: MachineState, first: u8, second: u8)
    requires
        !s.draws_random(),
    ensures
        s.step(first) == s.step(second),
{
}

/// Immediate load (`6xkk`): after the cycle register `x` holds `kk` and the
/// program counter has moved on by two.
pub proof fn law_immediate_load(s: MachineState, x: u8, kk: u8, random: u8)
    requires
        s.wf(),
        s.can_fetch(),
        x < 16,
        s.fetch_word() == word_from_nibbles(0x6, x as int, kk as int / 0x10, kk as int % 0x10),
    ensures
        s.step(random) is Ok,
        s.step(random)->Ok_0.registers[x as int] == kk,
        s.step(random)->Ok_0.pc == s.pc + 2,
{
    lemma_word_from_nibbles(0x6, x as int, kk as int / 0x10, kk as int % 0x10);
    assert(s.next_instruction() == (Instruction::LoadImm { x, kk }));
}

/// Register add (`8xy4`): register `x` receives the sum modulo 256. The
/// flag register receives 1 if the sum exceeds 255 and 0 otherwise, unless
/// `x` is the flag register itself, which then keeps the sum.
pub proof fn law_add_sets_carry(s: MachineState, x: u8, y: u8, random: u8)
    requires
        s.wf(),
        s.can_fetch(),
        x < 16,
        y < 16,
        s.fetch_word() == word_from_nibbles(0x8, x as int, y as int, 0x4),
    ensures
        s.step(random) is Ok,
        s.step(random)->Ok_0.registers[x as int] == (s.registers[x as int] + s.registers[y as int])
            % 0x100,
        x != FLAG_REGISTER ==> s.step(random)->Ok_0.registers[FLAG_REGISTER as int] == flag(
            s.registers[x as int] + s.registers[y as int] > 0xFF,
        ),
{
    lemma_word_from_nibbles(0x8, x as int, y as int, 0x4);
    assert(s.next_instruction() == (Instruction::AddReg { x, y }));
}

/// Register subtract (`8xy5`): register `x` receives the difference modulo
/// 256. The flag register receives 1 if no borrow occurred (`Vx >= Vy`) and
/// 0 otherwise, unless `x` is the flag register itself, which then keeps
/// the difference.
pub proof fn law_sub_sets_no_borrow(s: MachineState, x: u8, y: u8, random: u8)
    requires
        s.wf(),
        s.can_fetch(),
        x < 16,
        y < 16,
        s.fetch_word() == word_from_nibbles(0x8, x as int, y as int, 0x5),
    ensures
        s.step(random) is Ok,
        s.step(random)->Ok_0.registers[x as int] == (s.registers[x as int] - s.registers[y as int])
            % 0x100,
        x != FLAG_REGISTER ==> s.step(random)->Ok_0.registers[FLAG_REGISTER as int] == flag(
            s.registers[x as int] >= s.registers[y as int],
        ),
{
    lemma_word_from_nibbles(0x8, x as int, y as int, 0x5);
    assert(s.next_instruction() == (Instruction::SubReg { x, y }));
}

/// Reverse subtract (`8xy7`): as the subtract, with the operands swapped.
pub proof fn law_reverse_sub_sets_no_borrow(s: MachineState, x: u8, y: u8, random: u8)
    requires
        s.wf(),
        s.can_fetch(),
        x < 16,
        y < 16,
        s.fetch_word() == word_from_nibbles(0x8, x as int, y as int, 0x7),
    ensures
        s.step(random) is Ok,
        s.step(random)->Ok_0.registers[x as int] == (s.registers[y as int] - s.registers[x as int])
            % 0x100,
        x != FLAG_REGISTER ==> s.step(random)->Ok_0.registers[FLAG_REGISTER as int] == flag(
            s.registers[y as int] >= s.registers[x as int],
        ),
{
    lemma_word_from_nibbles(0x8, x as int, y as int, 0x7);
    assert(s.next_instruction() == (Instruction::SubRegReverse { x, y }));
}

/// A call (`2nnn`) jumps to its target one level deeper in the stack, and a
/// return (`00EE`) executed later at that depth, with the slot the call
/// wrote still intact, continues at the instruction that follows the call
/// and restores the depth.
pub proof fn law_call_then_return(
    s: MachineState,
    addr: u16,
    later: MachineState,
    random: u8,
    later_random: u8,
)
    requires
        s.wf(),
        s.can_fetch(),
        addr < 0x1000,
        s.fetch_word() == 0x2000 + addr,
        s.sp < STACK_DEPTH,
        later.wf(),
        later.can_fetch(),
        later.fetch_word() == 0x00EE,
        later.sp == s.sp + 1,
        later.stack[s.sp as int] == s.pc + 2,
    ensures
        s.step(random) is Ok,
        s.step(random)->Ok_0.pc == addr,
        s.step(random)->Ok_0.sp == s.sp + 1,
        s.step(random)->Ok_0.stack[s.sp as int] == s.pc + 2,
        later.step(later_random) is Ok,
        later.step(later_random)->Ok_0.pc == s.pc + 2,
        later.step(later_random)->Ok_0.sp == s.sp,
{
    assert(s.next_instruction() == (Instruction::Call { addr }));
    assert(later.next_instruction() == Instruction::Return);
}

/// Each timer goes down by exactly one per successful cycle and stops at
/// zero, unless the cycle's instruction sets that timer.
pub proof fn law_timers_decay(s: MachineState, random: u8)
    requires
        s.wf(),
        s.step(random) is Ok,
    ensures
        !(s.next_instruction() is SetDelay) ==> s.step(random)->Ok_0.delay_timer == decayed(
            s.delay_timer,
        ),
        !(s.next_instruction() is SetSound) ==> s.step(random)->Ok_0.sound_timer == decayed(
            s.sound_timer,
        ),
{
    let word = s.fetch_word();
    let instruction = decode_word(word);
    let applied = s.advance(word).apply(instruction, random);
    assert(!(instruction is SetDelay) ==> applied.delay_timer == s.delay_timer);
    assert(!(instruction is SetSound) ==> applied.sound_timer == s.sound_timer);
}

/// Key wait (`Fx0A`) with no key pressed changes nothing but the opcode
/// latch and the timers, so the same instruction runs again next cycle;
/// with a key pressed it stores the lowest pressed key's number in register
/// `x` and moves on.
pub proof fn law_wait_key(s: MachineState, x: u8, random: u8)
    requires
        s.wf(),
        s.can_fetch(),
        x < 16,
        s.fetch_word() == word_from_nibbles(0xF, x as int, 0x0, 0xA),
    ensures
        none_pressed(s.keypad) ==> s.step(random) == Ok::<MachineState, TickError>(
            MachineState {
                opcode: s.fetch_word(),
                delay_timer: decayed(s.delay_timer),
                sound_timer: decayed(s.sound_timer),
                ..s
            },
        ),
        forall|key: int|
            is_lowest_pressed(s.keypad, key) ==> s.step(random) == Ok::<MachineState, TickError>(
                MachineState {
                    opcode: s.fetch_word(),
                    pc: (s.pc + 2) as u16,
                    registers: s.registers.update(x as int, key as u8),
                    delay_timer: decayed(s.delay_timer),
                    sound_timer: decayed(s.sound_timer),
                    ..s
                },
            ),
{
    lemma_word_from_nibbles(0xF, x as int, 0x0, 0xA);
    assert(s.next_instruction() == (Instruction::WaitKey { x }));
    lemma_lowest_pressed(s.keypad);
}

/// Drawing is its own inverse: drawing the same sprite at the same place a
/// second time restores the display.
pub proof fn law_draw_twice_restores(
    video: Seq<u8>,
    memory: Seq<u8>,
    index: int,
    n: int,
    vx: int,
    vy: int,
)
    ensures
        drawn_video(drawn_video(video, memory, index, n, vx, vy), memory, index, n, vx, vy)
            == video,
{
    let once = drawn_video(video, memory, index, n, vx, vy);
    let twice = drawn_video(once, memory, index, n, vx, vy);
    assert forall|cell: int| 0 <= cell < video.len() implies twice[cell] == video[cell] by {
        let value = video[cell];
        assert((value ^ PIXEL_ON) ^ PIXEL_ON == value) by (bit_vector);
    }
    assert(twice =~= video);
}

/// A word outside the instruction set executes as a no-op: only the opcode
/// latch, the program counter and the timers change.
pub proof fn law_unknown_is_noop(s: MachineState, random: u8)
    requires
        s.wf(),
        s.can_fetch(),
        s.next_instruction() is Unknown,
    ensures
        s.step(random) == Ok::<MachineState, TickError>(
            MachineState {
                opcode: s.fetch_word(),
                pc: (s.pc + 2) as u16,
                delay_timer: decayed(s.delay_timer),
                sound_timer: decayed(s.sound_timer),
                ..s
            },
        ),
{
}

/// The only errors are the four that `TickError` names, each with its
/// cause: a failed fetch, a return on an empty stack, a call on a full
/// stack, or an index-relative access past the end of memory.
pub proof fn law_errors(s: MachineState, random: u8)
    requires
        s.wf(),
    ensures
        s.step(random) == Err::<MachineState, TickError>(TickError::ProgramCounterOutOfBounds)
            <==> s.pc + 1 >= MEMORY_SIZE,
        s.step(random) == Err::<MachineState, TickError>(TickError::StackUnderflow) <==> s.can_fetch()
            && s.next_instruction() is Return && s.sp == 0,
        s.step(random) == Err::<MachineState, TickError>(TickError::StackOverflow) <==> s.can_fetch()
            && s.next_instruction() is Call && s.sp == STACK_DEPTH,
        s.step(random) == Err::<MachineState, TickError>(TickError::MemoryOutOfBounds) <==> {
            &&& s.can_fetch()
            &&& match s.next_instruction() {
                Instruction::Draw { n, .. } => n > 0 && s.index + n > MEMORY_SIZE,
                Instruction::StoreBcd { .. } => s.index + 2 >= MEMORY_SIZE,
                Instruction::StoreRegisters { x } => s.index + x >= MEMORY_SIZE,
                Instruction::LoadRegisters { x } => s.index + x >= MEMORY_SIZE,
                _ => false,
            }
        },
{
}

/// A display whose cells are all `0x00` or `0xFF` stays so through every
/// successful cycle.
pub proof fn law_video_stays_binary(s: MachineState, random: u8)
    requires
        s.wf(),
        s.video_is_binary(),
        s.step(random) is Ok,
    ensures
        s.step(random)->Ok_0.video_is_binary(),
{
    let word = s.fetch_word();
    let instruction = decode_word(word);
    let advanced = s.advance(word);
    let applied = advanced.apply(instruction, random);
    assert(0u8 ^ PIXEL_ON == PIXEL_ON) by (bit_vector);
    assert(PIXEL_ON ^ PIXEL_ON == 0u8) by (bit_vector);
    assert forall|cell: int| 0 <= cell < applied.video.len() implies applied.video[cell] == 0
        || applied.video[cell] == PIXEL_ON by {
        assert(s.video[cell] == 0 || s.video[cell] == PIXEL_ON);
    }
}

} // verus!
