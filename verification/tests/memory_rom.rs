//! Tests of the memory model, the ROM image type and the logical
//! framebuffer, used directly.

use chiprs::error::Chip8Error;
use chiprs::events::KeyInputState;
use chiprs::framebuffer::FrameBuffer;
use chiprs::instructions::Instruction;
use chiprs::memory::Memory;
use chiprs::rom::Rom;

#[test]
fn fresh_memory_holds_the_font() {
    let m = Memory::default();
    // Digit 0 starts at address 0: F0 90 90 90 F0.
    assert_eq!(m.get_slice(0, 5).unwrap(), vec![0xF0, 0x90, 0x90, 0x90, 0xF0]);
    // Digit F starts at address 75.
    assert_eq!(m.get_slice(75, 5).unwrap(), vec![0xF0, 0x80, 0xF0, 0x80, 0x80]);
    // Everything from the end of the font on is zero.
    assert_eq!(m.get(80), Some(0));
}

#[test]
fn word_fetch_is_big_endian_and_bounded() {
    let mut m = Memory::default();
    let rom = Rom::from_bytes(&[0x12, 0x34]).unwrap();
    assert_eq!(m.load(rom), 0x200);
    assert_eq!(m.get(0x200), Some(0x1234));
    assert_eq!(m.get(0x201), Some(0x3400));
    assert_eq!(m.get(4095), None);
    assert_eq!(m.get(usize::MAX), None);
}

#[test]
fn memory_writes_are_bounds_checked() {
    let mut m = Memory::default();
    assert_eq!(m.write_slice(0x1FF, &vec![1]), Err(Chip8Error::OutOfBounds(0x1FF)));
    assert_eq!(m.write_slice(4095, &vec![1, 2]), Err(Chip8Error::OutOfBounds(4095)));
    assert_eq!(m.write_slice(0x200, &vec![7, 8]), Ok(()));
    assert_eq!(m.get(0x200), Some(0x0708));
    assert_eq!(m.get_slice(4095, 2), Err(Chip8Error::OutOfBounds(4095)));
}

#[test]
fn rom_sizes_pick_the_variant() {
    assert!(matches!(Rom::from_bytes(&[0u8; 3584]), Ok(Rom::Base(_, 3584))));
    assert!(matches!(Rom::from_bytes(&[0u8; 2560]), Ok(Rom::ETI600(_, 2560))));
    assert!(matches!(Rom::from_bytes(&[0u8; 100]), Ok(Rom::Base(_, 100))));
    assert!(matches!(Rom::from_bytes(&[]), Ok(Rom::Base(_, 0))));
    assert_eq!(
        Rom::from_bytes(&[0u8; 4000]).err(),
        Some(Chip8Error::RomTooLarge)
    );
}

#[test]
fn rom_insert_and_disassemble() {
    let mut rom = Rom::from_bytes(&[0u8; 6]).unwrap();
    rom.insert(0, Instruction::CLS);
    rom.insert(2, Instruction::JPAddr(0x234));
    rom.insert(4, Instruction::LDIAddr(0x2F0));
    let insts = rom.disassemble().unwrap();
    assert_eq!(
        insts,
        vec![
            Instruction::CLS,
            Instruction::JPAddr(0x234),
            Instruction::LDIAddr(0x2F0)
        ]
    );
}

#[test]
fn rom_disassemble_reports_the_bad_word() {
    let rom = Rom::from_bytes(&[0x00, 0xE0, 0x80, 0x08]).unwrap();
    assert_eq!(rom.disassemble(), Err(Chip8Error::InvalidOpcode(0x8008)));
}

#[test]
fn framebuffer_wraps_both_coordinates() {
    let mut fb = FrameBuffer::new();
    // An 8-bit row at column 60 wraps into columns 0..4.
    let collided = fb.draw_at(60, 0, &[0xFF]);
    assert!(!collided);
    for x in 60..64 {
        assert!(fb.pixel_at(x, 0));
    }
    for x in 0..4 {
        assert!(fb.pixel_at(x, 0));
    }
    assert!(!fb.pixel_at(4, 0));

    // A two-row sprite at the bottom edge wraps onto the top row.
    let mut fb = FrameBuffer::new();
    let collided = fb.draw_at(0, 31, &[0x80, 0x80]);
    assert!(!collided);
    assert!(fb.pixel_at(0, 31));
    assert!(fb.pixel_at(0, 0));
}

#[test]
fn framebuffer_clear_unlights_everything() {
    let mut fb = FrameBuffer::new();
    fb.draw_at(1, 2, &[0xFF, 0xFF]);
    fb.clear();
    let snap = fb.snapshot();
    assert_eq!(snap.len(), 2048);
    assert!(snap.iter().all(|px| !px));
}

#[test]
fn key_input_state_flags() {
    let k = KeyInputState::new(0b0001);
    assert!(k.is_pressed());
    assert!(!k.is_repeated());
    assert!(k.is_pressed_but_not_repeated());
    assert!(!k.is_up());

    let k = KeyInputState::new(0b0011);
    assert!(k.is_pressed());
    assert!(k.is_repeated());
    assert!(!k.is_pressed_but_not_repeated());

    let k = KeyInputState::new(0b1100);
    assert!(k.is_held());
    assert!(k.is_released());
    assert!(k.is_up());

    let k = KeyInputState::default();
    assert!(k.is_up());
    assert!(!k.is_pressed());
}
