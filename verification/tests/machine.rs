//! Tests of the processor: construction, ROM loading, instruction
//! execution semantics, stack discipline, timers, keys and drawing.

use chiprs::error::Chip8Error;
use chiprs::instructions::Instruction;
use chiprs::processor::Processor;

#[test]
fn processor_construction_with_rom_load() {
    let mut p = Processor::default();
    let _ = p.load(&[0]);
    let _ = p.load(&[]);
    let _ = p.load(&[0; 100000]);
}

#[test]
fn rom_load_offsets_and_rejection() {
    let mut p = Processor::default();
    assert_eq!(p.load(&[0u8; 3584]), Ok(0x200));
    assert_eq!(p.program_counter(), 0x200);

    let mut p = Processor::default();
    assert_eq!(p.load(&[0u8; 2560]), Ok(0x600));
    assert_eq!(p.program_counter(), 0x600);

    let mut p = Processor::default();
    assert_eq!(p.load(&[0u8; 4000]), Err(Chip8Error::RomTooLarge));
    assert_eq!(p.program_counter(), 0x000);
}

#[test]
fn add_flag_law_over_all_bytes() {
    for a in 0..=255u8 {
        for b in 0..=255u8 {
            let mut p = Processor::default();
            p.load(&[]).unwrap();
            p.execute(Instruction::LDxByte(0, a), 0).unwrap();
            p.execute(Instruction::LDxByte(1, b), 0).unwrap();
            p.execute(Instruction::ADDxy(0, 1), 0).unwrap();
            let sum = a as u16 + b as u16;
            assert_eq!(p.register(0), (sum % 256) as u8);
            assert_eq!(p.register(15), if sum > 255 { 1 } else { 0 });
        }
    }
}

#[test]
fn sub_wraparound() {
    let mut p = Processor::default();
    p.load(&[]).unwrap();
    p.execute(Instruction::LDxByte(0, 0x10), 0).unwrap();
    p.execute(Instruction::LDxByte(1, 0x20), 0).unwrap();
    p.execute(Instruction::SUBxy(0, 1), 0).unwrap();
    assert_eq!(p.register(15), 0);
    assert_eq!(p.register(0), 0xF0);
}

#[test]
fn subn_mirrors_sub() {
    let mut p = Processor::default();
    p.load(&[]).unwrap();
    p.execute(Instruction::LDxByte(0, 0x10), 0).unwrap();
    p.execute(Instruction::LDxByte(1, 0x20), 0).unwrap();
    p.execute(Instruction::SUBNxy(0, 1), 0).unwrap();
    assert_eq!(p.register(15), 1);
    assert_eq!(p.register(0), 0x10);
}

#[test]
fn shifts_report_the_shifted_out_bit() {
    let mut p = Processor::default();
    p.load(&[]).unwrap();
    p.execute(Instruction::LDxByte(0, 5), 0).unwrap();
    p.execute(Instruction::SHRxy(0, 7), 0).unwrap();
    assert_eq!(p.register(0), 2);
    assert_eq!(p.register(15), 1);

    p.execute(Instruction::LDxByte(0, 0x81), 0).unwrap();
    p.execute(Instruction::SHLxy(0, 7), 0).unwrap();
    assert_eq!(p.register(0), 2);
    assert_eq!(p.register(15), 1);
}

#[test]
fn add_byte_wraps_without_flag() {
    let mut p = Processor::default();
    p.load(&[]).unwrap();
    p.execute(Instruction::LDxByte(0, 250), 0).unwrap();
    p.execute(Instruction::LDxByte(15, 9), 0).unwrap();
    p.execute(Instruction::ADDxByte(0, 10), 0).unwrap();
    assert_eq!(p.register(0), 4);
    // 7xkk touches no flag.
    assert_eq!(p.register(15), 9);
}

#[test]
fn stack_discipline() {
    let mut p = Processor::default();
    p.load(&[]).unwrap();
    for _ in 0..16 {
        assert_eq!(p.execute(Instruction::CALLAddr(0x300), 0), Ok(()));
    }
    assert_eq!(
        p.execute(Instruction::CALLAddr(0x300), 0),
        Err(Chip8Error::StackOverflow)
    );

    let mut p = Processor::default();
    p.load(&[]).unwrap();
    assert_eq!(p.execute(Instruction::RET, 0), Err(Chip8Error::StackUnderflow));
}

#[test]
fn call_and_ret_return_past_the_call() {
    let mut p = Processor::default();
    p.load(&[]).unwrap();
    assert_eq!(p.program_counter(), 0x200);
    p.execute(Instruction::CALLAddr(0x400), 0).unwrap();
    assert_eq!(p.program_counter(), 0x400);
    p.execute(Instruction::RET, 0).unwrap();
    assert_eq!(p.program_counter(), 0x202);
}

#[test]
fn skips_advance_by_four() {
    let mut p = Processor::default();
    p.load(&[]).unwrap();
    p.execute(Instruction::LDxByte(0, 7), 0).unwrap();
    let pc = p.program_counter();
    p.execute(Instruction::SExByte(0, 7), 0).unwrap();
    assert_eq!(p.program_counter(), pc + 4);
    let pc = p.program_counter();
    p.execute(Instruction::SExByte(0, 8), 0).unwrap();
    assert_eq!(p.program_counter(), pc + 2);
    let pc = p.program_counter();
    p.execute(Instruction::SNExByte(0, 8), 0).unwrap();
    assert_eq!(p.program_counter(), pc + 4);
}

#[test]
fn timers_tick_down_to_zero_and_stay() {
    let mut p = Processor::default();
    p.load(&[]).unwrap();
    p.execute(Instruction::LDxByte(0, 2), 0).unwrap();
    p.execute(Instruction::LDDTx(0), 0).unwrap();
    p.execute(Instruction::LDxByte(1, 1), 0).unwrap();
    p.execute(Instruction::LDSTx(1), 0).unwrap();
    assert_eq!(p.delay_timer(), 2);
    assert_eq!(p.sound_timer(), 1);
    p.tick_timers();
    assert_eq!(p.delay_timer(), 1);
    assert_eq!(p.sound_timer(), 0);
    for _ in 0..100 {
        p.tick_timers();
    }
    assert_eq!(p.delay_timer(), 0);
    assert_eq!(p.sound_timer(), 0);
}

#[test]
fn timer_reads_transfer_back() {
    let mut p = Processor::default();
    p.load(&[]).unwrap();
    p.execute(Instruction::LDxByte(0, 60), 0).unwrap();
    p.execute(Instruction::LDDTx(0), 0).unwrap();
    p.tick_timers();
    p.execute(Instruction::LDxDt(5), 0).unwrap();
    assert_eq!(p.register(5), 59);
}

#[test]
fn rnd_masks_the_random_byte() {
    let mut p = Processor::default();
    p.load(&[]).unwrap();
    p.execute(Instruction::RNDxByte(0, 0x0F), 0xAB, ).unwrap();
    assert_eq!(p.register(0), 0x0B);
    p.execute(Instruction::RNDxByte(0, 0), 0xFF).unwrap();
    assert_eq!(p.register(0), 0);
}

#[test]
fn step_runs_rnd_from_the_entropy_source() {
    // C0 00: RND V0 with mask 0 leaves 0 whatever byte was drawn.
    let mut p = Processor::default();
    p.load(&[0xC0, 0x00]).unwrap();
    p.execute(Instruction::LDxByte(0, 0x55), 0).unwrap();
    p.execute(Instruction::JPAddr(0x200), 0).unwrap();
    p.step().unwrap();
    assert_eq!(p.register(0), 0);
    assert_eq!(p.program_counter(), 0x202);
}

#[test]
fn step_fetches_decodes_and_executes() {
    let mut p = Processor::default();
    p.load(&[0x12, 0x34]).unwrap();
    p.step_with(0).unwrap();
    assert_eq!(p.program_counter(), 0x234);
}

#[test]
fn step_reports_invalid_opcode() {
    let mut p = Processor::default();
    p.load(&[0x80, 0x08]).unwrap();
    assert_eq!(p.step_with(0), Err(Chip8Error::InvalidOpcode(0x8008)));
}

#[test]
fn step_reports_bad_program_counter() {
    let mut p = Processor::default();
    p.load(&[]).unwrap();
    p.execute(Instruction::JPAddr(0xFFF), 0).unwrap();
    assert_eq!(p.step_with(0), Err(Chip8Error::BadProgramCounter(0xFFF)));
}

#[test]
fn sys_is_a_no_op_that_advances() {
    let mut p = Processor::default();
    p.load(&[]).unwrap();
    let pc = p.program_counter();
    p.execute(Instruction::SYS(0x123), 0).unwrap();
    assert_eq!(p.program_counter(), pc + 2);
    // A zero-filled ROM steps through SYS words without failing.
    let mut p = Processor::default();
    p.load(&[0u8, 0, 0, 0]).unwrap();
    p.step_with(0).unwrap();
    assert_eq!(p.program_counter(), 0x202);
}

#[test]
fn jump_with_offset() {
    let mut p = Processor::default();
    p.load(&[]).unwrap();
    p.execute(Instruction::LDxByte(0, 0x10), 0).unwrap();
    p.execute(Instruction::JPV0Addr(0x300), 0).unwrap();
    assert_eq!(p.program_counter(), 0x310);
}

#[test]
fn keys_drive_skips_and_waits() {
    let mut p = Processor::default();
    p.load(&[]).unwrap();
    p.execute(Instruction::LDxByte(0, 5), 0).unwrap();

    // No key pressed: SKP falls through, SKNP skips.
    let pc = p.program_counter();
    p.execute(Instruction::SKPx(0), 0).unwrap();
    assert_eq!(p.program_counter(), pc + 2);
    let pc = p.program_counter();
    p.execute(Instruction::SKPNPx(0), 0).unwrap();
    assert_eq!(p.program_counter(), pc + 4);

    // Key 5 pressed: SKP skips.
    p.set_key_state(1 << 5);
    let pc = p.program_counter();
    p.execute(Instruction::SKPx(0), 0).unwrap();
    assert_eq!(p.program_counter(), pc + 4);

    // LD Vx, K with no key pressed re-executes: the program counter stays.
    p.set_key_state(0);
    let pc = p.program_counter();
    p.execute(Instruction::LDxK(3), 0).unwrap();
    assert_eq!(p.program_counter(), pc);

    // With keys 9 and 12 down it stores the smallest pressed index.
    p.set_key_state((1 << 9) | (1 << 12));
    p.execute(Instruction::LDxK(3), 0).unwrap();
    assert_eq!(p.register(3), 9);
    assert_eq!(p.program_counter(), pc + 2);
}

#[test]
fn bcd_store_and_register_dump_round_trip() {
    let mut p = Processor::default();
    p.load(&[]).unwrap();
    p.execute(Instruction::LDxByte(0, 234), 0).unwrap();
    p.execute(Instruction::LDIAddr(0x300), 0).unwrap();
    p.execute(Instruction::LDBx(0), 0).unwrap();
    // Read the three digits back through LD Vx, [I].
    p.execute(Instruction::LDxI(2), 0).unwrap();
    assert_eq!(p.register(0), 2);
    assert_eq!(p.register(1), 3);
    assert_eq!(p.register(2), 4);
}

#[test]
fn register_dump_and_load_round_trip() {
    let mut p = Processor::default();
    p.load(&[]).unwrap();
    p.execute(Instruction::LDxByte(0, 7), 0).unwrap();
    p.execute(Instruction::LDxByte(1, 8), 0).unwrap();
    p.execute(Instruction::LDxByte(2, 9), 0).unwrap();
    p.execute(Instruction::LDIAddr(0x400), 0).unwrap();
    p.execute(Instruction::LDIx(2), 0).unwrap();
    p.execute(Instruction::LDxByte(0, 0), 0).unwrap();
    p.execute(Instruction::LDxByte(1, 0), 0).unwrap();
    p.execute(Instruction::LDxByte(2, 0), 0).unwrap();
    p.execute(Instruction::LDxI(2), 0).unwrap();
    assert_eq!(p.register(0), 7);
    assert_eq!(p.register(1), 8);
    assert_eq!(p.register(2), 9);
}

#[test]
fn writes_to_the_reserved_area_are_refused() {
    let mut p = Processor::default();
    p.load(&[]).unwrap();
    p.execute(Instruction::LDxByte(0, 42), 0).unwrap();
    p.execute(Instruction::LDIAddr(0x100), 0).unwrap();
    assert_eq!(p.execute(Instruction::LDBx(0), 0), Err(Chip8Error::OutOfBounds(0x100)));
    assert_eq!(p.execute(Instruction::LDIx(0), 0), Err(Chip8Error::OutOfBounds(0x100)));
}

#[test]
fn reads_past_the_end_are_refused() {
    let mut p = Processor::default();
    p.load(&[]).unwrap();
    p.execute(Instruction::LDIAddr(0xFFF), 0).unwrap();
    assert_eq!(
        p.execute(Instruction::DRWxyn(0, 1, 2), 0),
        Err(Chip8Error::OutOfBounds(0xFFF))
    );
    assert_eq!(p.execute(Instruction::LDxI(1), 0), Err(Chip8Error::OutOfBounds(0xFFF)));
}

#[test]
fn index_addition_wraps_at_twelve_bits() {
    let mut p = Processor::default();
    p.load(&[]).unwrap();
    p.execute(Instruction::LDIAddr(0xFFF), 0).unwrap();
    p.execute(Instruction::LDxByte(0, 0xFF), 0).unwrap();
    p.execute(Instruction::ADDIx(0), 0).unwrap();
    assert_eq!(p.index_register(), 0x0FE);
}

#[test]
fn font_addressing_and_glyphs() {
    assert_eq!(Processor::text('0'), [0xF0, 0x90, 0x90, 0x90, 0xF0]);
    assert_eq!(Processor::text('7'), [0xF0, 0x10, 0x20, 0x40, 0x40]);
    assert_eq!(Processor::text('f'), [0xF0, 0x80, 0xF0, 0x80, 0x80]);

    let mut p = Processor::default();
    p.load(&[]).unwrap();
    p.execute(Instruction::LDxByte(0, 0xA), 0).unwrap();
    p.execute(Instruction::LDFx(0), 0).unwrap();
    assert_eq!(p.index_register(), 50);

    // Draw the glyph of hexadecimal digit A and check its top row: F0
    // lights the four leftmost pixels.
    p.execute(Instruction::LDxByte(1, 0), 0).unwrap();
    p.execute(Instruction::DRWxyn(1, 1, 5), 0).unwrap();
    assert_eq!(p.register(15), 0);
    assert!(p.pixel_at(0, 0));
    assert!(p.pixel_at(1, 0));
    assert!(p.pixel_at(2, 0));
    assert!(p.pixel_at(3, 0));
    assert!(!p.pixel_at(4, 0));
}

#[test]
fn sprite_collision_only_when_a_lit_pixel_turns_off() {
    let mut p = Processor::default();
    // One 1-row, 1-bit-wide sprite: the single byte 0x80.
    p.load(&[0x80]).unwrap();
    p.execute(Instruction::LDIAddr(0x200), 0).unwrap();
    p.execute(Instruction::LDxByte(0, 3), 0).unwrap();
    p.execute(Instruction::LDxByte(1, 5), 0).unwrap();

    // A fresh draw against a blank screen reports no collision.
    p.execute(Instruction::DRWxyn(0, 1, 1), 0).unwrap();
    assert_eq!(p.register(15), 0);
    assert!(p.pixel_at(3, 5));

    // Drawing the same sprite again turns the lit pixel off, and that
    // transition is the collision.
    p.execute(Instruction::DRWxyn(0, 1, 1), 0).unwrap();
    assert_eq!(p.register(15), 1);
    assert!(!p.pixel_at(3, 5));
}

#[test]
fn cls_blanks_the_screen() {
    let mut p = Processor::default();
    p.load(&[0x80]).unwrap();
    p.execute(Instruction::LDIAddr(0x200), 0).unwrap();
    p.execute(Instruction::DRWxyn(0, 0, 1), 0).unwrap();
    assert!(p.pixel_at(0, 0));
    p.execute(Instruction::CLS, 0).unwrap();
    let snap = p.framebuffer_snapshot();
    assert_eq!(snap.len(), 2048);
    assert!(snap.iter().all(|px| !px));
}
