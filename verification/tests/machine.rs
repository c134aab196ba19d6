use chip8::{
    reset_memory, LoadError, RandomSource, ScriptedSource, TickError, CHIP8, FONT_SET, MAX_ROM_SIZE,
};

fn machine_with(words: &[u16], script: Vec<u8>) -> CHIP8<ScriptedSource> {
    let mut rom = Vec::new();
    for word in words {
        rom.push((word >> 8) as u8);
        rom.push((word & 0xFF) as u8);
    }
    let mut chip8 = CHIP8::new(ScriptedSource::new(script));
    chip8.load_rom(&rom).unwrap();
    chip8
}

fn assert_pristine(chip8: &CHIP8<ScriptedSource>) {
    assert_eq!(*chip8.get_registers(), [0u8; 16]);
    assert_eq!(*chip8.get_memory(), reset_memory());
    assert_eq!(chip8.get_index(), 0);
    assert_eq!(chip8.get_pc(), 0x200);
    assert_eq!(*chip8.get_stack_ptr(), [0u16; 16]);
    assert_eq!(chip8.get_stack_index(), 0);
    assert_eq!(chip8.get_delay_timer(), 0);
    assert_eq!(chip8.get_sound_timer(), 0);
    assert_eq!(*chip8.get_video(), [0u8; 2048]);
    assert_eq!(chip8.get_opcode(), 0);
}

#[test]
fn a_new_machine_is_pristine() {
    let chip8 = CHIP8::new(ScriptedSource::new(Vec::new()));
    assert_pristine(&chip8);
}

#[test]
fn a_new_machine_has_no_key_pressed() {
    // Key wait on a fresh machine blocks: no key reads as pressed.
    let mut chip8 = machine_with(&[0xF00A], Vec::new());
    chip8.tick().unwrap();
    assert_eq!(chip8.get_pc(), 0x200);
    // Skip-if-not-pressed skips for every key number.
    for key in 0..16u8 {
        let mut chip8 = machine_with(&[0xE0A1], Vec::new());
        chip8.set_register(0, key);
        chip8.tick().unwrap();
        assert_eq!(chip8.get_pc(), 0x204);
    }
}

#[test]
fn pristine_memory_holds_the_font_table() {
    let memory = reset_memory();
    assert_eq!(memory.len(), 4096);
    for addr in 0..4096 {
        if (0x50..0x50 + 80).contains(&addr) {
            assert_eq!(memory[addr], FONT_SET[addr - 0x50]);
        } else {
            assert_eq!(memory[addr], 0);
        }
    }
    assert_eq!(memory[0x50..0x55], [0xF0, 0x90, 0x90, 0x90, 0xF0]);
    assert_eq!(memory[0x50 + 75..0x50 + 80], [0xF0, 0x80, 0xF0, 0x80, 0x80]);
}

#[test]
fn reset_restores_the_pristine_state() {
    let mut chip8 = machine_with(&[0x6A12, 0xA300, 0xFA33, 0x2208, 0xD015, 0xFA15, 0xFA18], vec![]);
    chip8.set_key_down(3);
    for _ in 0..7 {
        chip8.tick().unwrap();
    }
    assert_eq!(chip8.get_stack_index(), 1);
    assert_ne!(*chip8.get_video(), [0u8; 2048]);
    chip8.reset();
    assert_pristine(&chip8);
    // The keypad is cleared too: key wait blocks.
    chip8.load_rom(&[0xF0, 0x0A]).unwrap();
    chip8.tick().unwrap();
    assert_eq!(chip8.get_pc(), 0x200);
}

#[test]
fn load_rom_copies_the_image_to_the_start_address() {
    let mut chip8 = CHIP8::new(ScriptedSource::new(Vec::new()));
    chip8.set_register(2, 9);
    assert_eq!(chip8.load_rom(&[1, 2, 3, 4, 5]), Ok(()));
    let mut expected = reset_memory();
    expected[0x200..0x205].copy_from_slice(&[1, 2, 3, 4, 5]);
    assert_eq!(*chip8.get_memory(), expected);
    assert_eq!(chip8.get_registers()[2], 9);
    assert_eq!(chip8.get_pc(), 0x200);
}

#[test]
fn load_rom_accepts_the_largest_image() {
    let rom: Vec<u8> = (0..MAX_ROM_SIZE).map(|i| (i % 251) as u8 + 1).collect();
    assert_eq!(rom.len(), 4096 - 0x200);
    let mut chip8 = CHIP8::new(ScriptedSource::new(Vec::new()));
    assert_eq!(chip8.load_rom(&rom), Ok(()));
    assert_eq!(chip8.get_memory()[0x200..], rom[..]);
    assert_eq!(chip8.get_memory()[..0x200], reset_memory()[..0x200]);
}

#[test]
fn load_rom_rejects_an_oversized_image() {
    let rom = vec![0xAB; MAX_ROM_SIZE + 1];
    let mut chip8 = CHIP8::new(ScriptedSource::new(Vec::new()));
    assert_eq!(chip8.load_rom(&rom), Err(LoadError::RomTooLarge));
    assert_pristine(&chip8);
}

#[test]
fn load_rom_of_an_empty_image_changes_nothing() {
    let mut chip8 = CHIP8::new(ScriptedSource::new(Vec::new()));
    assert_eq!(chip8.load_rom(&[]), Ok(()));
    assert_pristine(&chip8);
}

#[test]
fn fetch_is_big_endian() {
    let mut chip8 = CHIP8::new(ScriptedSource::new(Vec::new()));
    chip8.load_rom(&[0xA1, 0x23]).unwrap();
    chip8.tick().unwrap();
    assert_eq!(chip8.get_opcode(), 0xA123);
    assert_eq!(chip8.get_index(), 0x123);
}

#[test]
fn fetch_past_the_end_of_memory_is_reported() {
    // JP 0xFFF: the word at 0xFFF would need the byte at 0x1000.
    let mut chip8 = machine_with(&[0x1FFF], Vec::new());
    chip8.set_register(4, 0x44);
    chip8.tick().unwrap();
    assert_eq!(chip8.get_pc(), 0xFFF);
    let memory = *chip8.get_memory();
    assert_eq!(chip8.tick(), Err(TickError::ProgramCounterOutOfBounds));
    assert_eq!(chip8.tick_with(7), Err(TickError::ProgramCounterOutOfBounds));
    assert_eq!(chip8.get_pc(), 0xFFF);
    assert_eq!(chip8.get_opcode(), 0x1FFF);
    assert_eq!(chip8.get_registers()[4], 0x44);
    assert_eq!(*chip8.get_memory(), memory);
}

#[test]
fn the_last_word_of_memory_can_be_fetched() {
    // JP 0xFFE: the last two bytes of memory are zero, a no-op word.
    let mut chip8 = machine_with(&[0x1FFE], Vec::new());
    chip8.tick().unwrap();
    chip8.tick().unwrap();
    assert_eq!(chip8.get_pc(), 0x1000);
    assert_eq!(chip8.tick(), Err(TickError::ProgramCounterOutOfBounds));
}

#[test]
fn jump_with_offset_past_memory_fails_at_the_next_fetch() {
    let mut chip8 = machine_with(&[0xBFFF], Vec::new());
    chip8.set_register(0, 0xFF);
    chip8.tick().unwrap();
    assert_eq!(chip8.get_pc(), 0x10FE);
    assert_eq!(chip8.tick(), Err(TickError::ProgramCounterOutOfBounds));
    assert_eq!(chip8.get_pc(), 0x10FE);
}

#[test]
fn bcd_past_the_end_of_memory_is_reported() {
    let mut chip8 = machine_with(&[0xAFFE, 0xF033], Vec::new());
    chip8.set_register(0, 234);
    chip8.set_register(1, 5);
    chip8.tick().unwrap();
    let memory = *chip8.get_memory();
    assert_eq!(chip8.tick(), Err(TickError::MemoryOutOfBounds));
    assert_eq!(*chip8.get_memory(), memory);
    assert_eq!(chip8.get_pc(), 0x202);
    assert_eq!(chip8.get_opcode(), 0xAFFE);
    assert_eq!(chip8.get_index(), 0xFFE);
}

#[test]
fn bcd_at_the_last_three_bytes_succeeds() {
    let mut chip8 = machine_with(&[0xAFFD, 0xF033], Vec::new());
    chip8.set_register(0, 234);
    chip8.tick().unwrap();
    chip8.tick().unwrap();
    assert_eq!(chip8.get_memory()[0xFFD..], [2, 3, 4]);
}

#[test]
fn register_store_past_the_end_of_memory_is_reported() {
    let mut chip8 = machine_with(&[0xAFFE, 0xF255], Vec::new());
    chip8.set_register(0, 1);
    chip8.set_register(1, 2);
    chip8.set_register(2, 3);
    chip8.tick().unwrap();
    let memory = *chip8.get_memory();
    assert_eq!(chip8.tick(), Err(TickError::MemoryOutOfBounds));
    assert_eq!(*chip8.get_memory(), memory);

    let mut chip8 = machine_with(&[0xAFFE, 0xF155], Vec::new());
    chip8.set_register(0, 1);
    chip8.set_register(1, 2);
    chip8.tick().unwrap();
    chip8.tick().unwrap();
    assert_eq!(chip8.get_memory()[0xFFE..], [1, 2]);
}

#[test]
fn register_load_past_the_end_of_memory_is_reported() {
    let mut chip8 = machine_with(&[0xAFFF, 0xF165], Vec::new());
    chip8.set_register(0, 0x11);
    chip8.set_register(1, 0x22);
    chip8.tick().unwrap();
    assert_eq!(chip8.tick(), Err(TickError::MemoryOutOfBounds));
    assert_eq!(chip8.get_registers()[0..2], [0x11, 0x22]);

    let mut chip8 = machine_with(&[0xAFFF, 0xF065], Vec::new());
    chip8.set_register(0, 0x11);
    chip8.tick().unwrap();
    chip8.tick().unwrap();
    assert_eq!(chip8.get_registers()[0], 0);
}

#[test]
fn draw_past_the_end_of_memory_is_reported() {
    let mut chip8 = machine_with(&[0xAFFE, 0xD003], Vec::new());
    chip8.set_register(0xF, 9);
    chip8.tick().unwrap();
    assert_eq!(chip8.tick(), Err(TickError::MemoryOutOfBounds));
    assert_eq!(*chip8.get_video(), [0u8; 2048]);
    assert_eq!(chip8.get_registers()[0xF], 9);
    assert_eq!(chip8.get_pc(), 0x202);

    // Two rows fit exactly.
    let mut chip8 = machine_with(&[0xAFFE, 0xD002], Vec::new());
    chip8.set_register(0xF, 9);
    chip8.tick().unwrap();
    assert_eq!(chip8.tick(), Ok(()));
    assert_eq!(chip8.get_registers()[0xF], 0);
}

#[test]
fn a_failed_cycle_does_not_decay_the_timers() {
    let mut chip8 = machine_with(&[0xF015, 0x00EE], Vec::new());
    chip8.set_register(0, 10);
    chip8.tick().unwrap();
    assert_eq!(chip8.get_delay_timer(), 9);
    assert_eq!(chip8.tick(), Err(TickError::StackUnderflow));
    assert_eq!(chip8.get_delay_timer(), 9);
}

#[test]
fn random_masks_the_byte_from_the_source() {
    let mut chip8 = machine_with(&[0xC10F, 0xC2F0, 0xC3FF, 0xC400], vec![0xAB, 0xCD, 0xEF, 0xFF]);
    for _ in 0..4 {
        chip8.tick().unwrap();
    }
    assert_eq!(chip8.get_registers()[1], 0x0B);
    assert_eq!(chip8.get_registers()[2], 0xC0);
    assert_eq!(chip8.get_registers()[3], 0xEF);
    assert_eq!(chip8.get_registers()[4], 0x00);
}

#[test]
fn only_the_random_instruction_draws_from_the_source() {
    // Three other instructions, then two random ones: they get the first
    // two bytes of the script.
    let mut chip8 = machine_with(&[0x6005, 0x7001, 0xA300, 0xC1FF, 0xC2FF], vec![0x11, 0x22, 0x33]);
    for _ in 0..5 {
        chip8.tick().unwrap();
    }
    assert_eq!(chip8.get_registers()[1], 0x11);
    assert_eq!(chip8.get_registers()[2], 0x22);
}

#[test]
fn tick_with_uses_the_given_byte() {
    let mut chip8 = machine_with(&[0xC13C, 0x6200], vec![0xFF]);
    assert_eq!(chip8.tick_with(0xA5), Ok(()));
    assert_eq!(chip8.get_registers()[1], 0xA5 & 0x3C);
    assert_eq!(chip8.get_pc(), 0x202);
    // For any other instruction the byte is ignored.
    assert_eq!(chip8.tick_with(0xA5), Ok(()));
    assert_eq!(chip8.get_registers()[2], 0);
    assert_eq!(chip8.get_pc(), 0x204);
}

#[test]
fn tick_and_tick_with_agree() {
    let words = [0x6A12, 0xA300, 0xFA33, 0x2208, 0xD015, 0xC1FF, 0xFA15, 0x00EE];
    let mut left = machine_with(&words, vec![0x5A]);
    let mut right = machine_with(&words, Vec::new());
    for _ in 0..7 {
        assert_eq!(left.tick(), right.tick_with(0x5A));
        assert_eq!(left.get_registers(), right.get_registers());
        assert_eq!(left.get_memory(), right.get_memory());
        assert_eq!(left.get_video(), right.get_video());
        assert_eq!(left.get_stack_ptr(), right.get_stack_ptr());
        assert_eq!(left.get_pc(), right.get_pc());
        assert_eq!(left.get_index(), right.get_index());
        assert_eq!(left.get_stack_index(), right.get_stack_index());
        assert_eq!(left.get_delay_timer(), right.get_delay_timer());
        assert_eq!(left.get_sound_timer(), right.get_sound_timer());
        assert_eq!(left.get_opcode(), right.get_opcode());
    }
}

#[test]
fn scripted_source_cycles_through_its_script() {
    let mut source = ScriptedSource::new(vec![3, 1, 4]);
    let drawn: Vec<u8> = (0..7).map(|_| source.next_byte()).collect();
    assert_eq!(drawn, vec![3, 1, 4, 3, 1, 4, 3]);
}

#[test]
fn scripted_source_with_an_empty_script_yields_zero() {
    let mut source = ScriptedSource::new(Vec::new());
    assert_eq!(source.next_byte(), 0);
    assert_eq!(source.next_byte(), 0);
}

#[test]
fn setters_overwrite_one_cell() {
    let mut chip8 = CHIP8::new(ScriptedSource::new(Vec::new()));
    chip8.set_register(0xF, 0x12);
    chip8.set_pixel(2047, 0xFF);
    chip8.set_pixel(0, 0x01);
    let mut registers = [0u8; 16];
    registers[0xF] = 0x12;
    let mut video = [0u8; 2048];
    video[2047] = 0xFF;
    video[0] = 0x01;
    assert_eq!(*chip8.get_registers(), registers);
    assert_eq!(*chip8.get_video(), video);
}
