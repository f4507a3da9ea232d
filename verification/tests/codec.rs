//! Tests of the instruction codec: decoding, encoding, round trips, and
//! rejection of undefined patterns.

use chiprs::error::Chip8Error;
use chiprs::instructions::Instruction;

#[test]
fn decode_known_words() {
    assert_eq!(Instruction::decode(0x00E0).unwrap(), Instruction::CLS);
    assert_eq!(Instruction::decode(0x00EE).unwrap(), Instruction::RET);
    assert_eq!(Instruction::decode(0x1234).unwrap(), Instruction::JPAddr(0x234));
    assert_eq!(Instruction::decode(0xA2F0).unwrap(), Instruction::LDIAddr(0x2F0));
}

#[test]
fn decode_whole_set() {
    assert_eq!(Instruction::decode(0x0123).unwrap(), Instruction::SYS(0x123));
    assert_eq!(Instruction::decode(0x2345).unwrap(), Instruction::CALLAddr(0x345));
    assert_eq!(Instruction::decode(0x3A42).unwrap(), Instruction::SExByte(0xA, 0x42));
    assert_eq!(Instruction::decode(0x4B17).unwrap(), Instruction::SNExByte(0xB, 0x17));
    assert_eq!(Instruction::decode(0x5120).unwrap(), Instruction::SExy(1, 2));
    assert_eq!(Instruction::decode(0x6C99).unwrap(), Instruction::LDxByte(0xC, 0x99));
    assert_eq!(Instruction::decode(0x7D01).unwrap(), Instruction::ADDxByte(0xD, 0x01));
    assert_eq!(Instruction::decode(0x8120).unwrap(), Instruction::LDxy(1, 2));
    assert_eq!(Instruction::decode(0x8341).unwrap(), Instruction::ORxy(3, 4));
    assert_eq!(Instruction::decode(0x8562).unwrap(), Instruction::ANDxy(5, 6));
    assert_eq!(Instruction::decode(0x8783).unwrap(), Instruction::XORxy(7, 8));
    assert_eq!(Instruction::decode(0x89A4).unwrap(), Instruction::ADDxy(9, 0xA));
    assert_eq!(Instruction::decode(0x8BC5).unwrap(), Instruction::SUBxy(0xB, 0xC));
    assert_eq!(Instruction::decode(0x8DE6).unwrap(), Instruction::SHRxy(0xD, 0xE));
    assert_eq!(Instruction::decode(0x8F07).unwrap(), Instruction::SUBNxy(0xF, 0));
    assert_eq!(Instruction::decode(0x812E).unwrap(), Instruction::SHLxy(1, 2));
    assert_eq!(Instruction::decode(0x9340).unwrap(), Instruction::SNExy(3, 4));
    assert_eq!(Instruction::decode(0xB123).unwrap(), Instruction::JPV0Addr(0x123));
    assert_eq!(Instruction::decode(0xC5AA).unwrap(), Instruction::RNDxByte(5, 0xAA));
    assert_eq!(Instruction::decode(0xD67F).unwrap(), Instruction::DRWxyn(6, 7, 0xF));
    assert_eq!(Instruction::decode(0xE89E).unwrap(), Instruction::SKPx(8));
    assert_eq!(Instruction::decode(0xE9A1).unwrap(), Instruction::SKPNPx(9));
    assert_eq!(Instruction::decode(0xFA07).unwrap(), Instruction::LDxDt(0xA));
    assert_eq!(Instruction::decode(0xFB0A).unwrap(), Instruction::LDxK(0xB));
    assert_eq!(Instruction::decode(0xFC15).unwrap(), Instruction::LDDTx(0xC));
    assert_eq!(Instruction::decode(0xFD18).unwrap(), Instruction::LDSTx(0xD));
    assert_eq!(Instruction::decode(0xFE1E).unwrap(), Instruction::ADDIx(0xE));
    assert_eq!(Instruction::decode(0xFF29).unwrap(), Instruction::LDFx(0xF));
    assert_eq!(Instruction::decode(0xF033).unwrap(), Instruction::LDBx(0));
    assert_eq!(Instruction::decode(0xF155).unwrap(), Instruction::LDIx(1));
    assert_eq!(Instruction::decode(0xF265).unwrap(), Instruction::LDxI(2));
}

#[test]
fn decode_rejects_undefined_patterns() {
    for w in [0x5001u16, 0x8008, 0x8009, 0x9005, 0xE000, 0xE09F, 0xF000, 0xF066, 0xFFFF] {
        assert_eq!(Instruction::decode(w), Err(Chip8Error::InvalidOpcode(w)));
    }
}

#[test]
fn encode_known_words() {
    assert_eq!(Instruction::CLS.encode(), 0x00E0);
    assert_eq!(Instruction::RET.encode(), 0x00EE);
    assert_eq!(Instruction::JPAddr(0x234).encode(), 0x1234);
    assert_eq!(Instruction::LDIAddr(0x2F0).encode(), 0xA2F0);
    assert_eq!(Instruction::DRWxyn(6, 7, 0xF).encode(), 0xD67F);
    assert_eq!(Instruction::SKPx(8).encode(), 0xE89E);
    assert_eq!(Instruction::LDxI(2).encode(), 0xF265);
}

#[test]
fn encode_masks_wide_operands() {
    // A register index or address wider than its field is masked to fit.
    assert_eq!(Instruction::SExByte(0x1F, 0x42).encode(), 0x3F42);
    assert_eq!(Instruction::JPAddr(0xFFFF).encode(), 0x1FFF);
}

fn sample_instructions() -> Vec<Instruction> {
    vec![
        Instruction::CLS,
        Instruction::RET,
        Instruction::SYS(0x123),
        Instruction::JPAddr(0xFFF),
        Instruction::CALLAddr(0x000),
        Instruction::SExByte(0, 0xFF),
        Instruction::SNExByte(15, 0),
        Instruction::SExy(1, 2),
        Instruction::LDxByte(3, 0x7F),
        Instruction::ADDxByte(4, 1),
        Instruction::LDxy(5, 6),
        Instruction::ORxy(7, 8),
        Instruction::ANDxy(9, 10),
        Instruction::XORxy(11, 12),
        Instruction::ADDxy(13, 14),
        Instruction::SUBxy(15, 0),
        Instruction::SHRxy(1, 1),
        Instruction::SUBNxy(2, 3),
        Instruction::SHLxy(4, 5),
        Instruction::SNExy(6, 7),
        Instruction::LDIAddr(0x200),
        Instruction::JPV0Addr(0x300),
        Instruction::RNDxByte(8, 0xAA),
        Instruction::DRWxyn(9, 10, 15),
        Instruction::SKPx(11),
        Instruction::SKPNPx(12),
        Instruction::LDxDt(13),
        Instruction::LDxK(14),
        Instruction::LDDTx(15),
        Instruction::LDSTx(0),
        Instruction::ADDIx(1),
        Instruction::LDFx(2),
        Instruction::LDBx(3),
        Instruction::LDIx(4),
        Instruction::LDxI(5),
    ]
}

#[test]
fn decode_encode_round_trip() {
    for inst in sample_instructions() {
        assert_eq!(Instruction::decode(inst.encode()).unwrap(), inst);
    }
}

#[test]
fn encode_decode_round_trip() {
    let words = [
        0x00E0u16, 0x00EE, 0x0123, 0x0FFF, 0x1234, 0x2345, 0x3A42, 0x4B17, 0x5120, 0x6C99,
        0x7D01, 0x8120, 0x8341, 0x8562, 0x8783, 0x89A4, 0x8BC5, 0x8DE6, 0x8F07, 0x812E, 0x9340,
        0xA2F0, 0xB123, 0xC5AA, 0xD67F, 0xE89E, 0xE9A1, 0xFA07, 0xFB0A, 0xFC15, 0xFD18, 0xFE1E,
        0xFF29, 0xF033, 0xF155, 0xF265,
    ];
    for w in words {
        assert_eq!(Instruction::decode(w).unwrap().encode(), w);
    }
}

#[test]
fn encode_decode_round_trip_all_words() {
    // Every one of the 65536 words that decodes at all encodes back to
    // itself.
    let mut decoded = 0u32;
    for w in 0..=0xFFFFu16 {
        if let Ok(inst) = Instruction::decode(w) {
            assert_eq!(inst.encode(), w);
            decoded += 1;
        }
    }
    assert!(decoded > 0x8000);
}

#[test]
fn rows_carry_the_operands() {
    let r = Instruction::DRWxyn(6, 7, 2).to_row();
    assert_eq!(r.name, "DRW");
    assert_eq!(r.reg_left, Some(6));
    assert_eq!(r.reg_right, Some(7));
    assert_eq!(r.n, Some(2));
    assert_eq!(r.addr, None);
    assert_eq!(r.byte, None);

    let r = Instruction::JPAddr(0x234).to_row();
    assert_eq!(r.name, "JP");
    assert_eq!(r.addr, Some(0x234));

    let r = Instruction::SExByte(3, 0x42).to_row();
    assert_eq!(r.name, "SE");
    assert_eq!(r.reg_left, Some(3));
    assert_eq!(r.byte, Some(0x42));
}

#[test]
fn empty_row_has_no_columns() {
    let r = chiprs::instructions::Row::empty();
    assert_eq!(r.name, "");
    assert_eq!(r.addr, None);
    assert_eq!(r.reg_left, None);
    assert_eq!(r.reg_right, None);
    assert_eq!(r.byte, None);
    assert_eq!(r.n, None);
}
