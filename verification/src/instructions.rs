//! The instruction codec: a pure, stateless, bidirectional mapping between a
//! 16-bit opcode word and a tagged [`Instruction`] value.
//!
//! Decoding splits the word into four 4-bit nibbles and dispatches on them;
//! encoding packs the operands back. The two directions are exact inverses,
//! which `lemma_decode_encode` and `lemma_encode_decode` prove.

use vstd::prelude::*;

use crate::error::Chip8Error;

verus! {

/// One CHIP-8 instruction, carrying its typed operands: a 4-bit register
/// index, an 8-bit immediate, a 12-bit address, or a 4-bit sprite height.
#[derive(Debug, Clone, Copy, PartialEq, Eq, Structural)]
pub enum Instruction {
    ///00E0 - CLS
    CLS,
    ///00EE - RET
    RET,
    ///0nnn - SYS addr
    SYS(u16),
    ///1nnn - JP addr
    JPAddr(u16),
    ///2nnn - CALL addr
    CALLAddr(u16),
    ///3xkk - SE Vx, byte
    SExByte(u8, u8),
    ///4xkk - SNE Vx, byte
    SNExByte(u8, u8),
    ///5xy0 - SE Vx, Vy
    SExy(u8, u8),
    ///6xkk - LD Vx, byte
    LDxByte(u8, u8),
    ///7xkk - ADD Vx, byte
    ADDxByte(u8, u8),
    ///8xy0 - LD Vx, Vy
    LDxy(u8, u8),
    ///8xy1 - OR Vx, Vy
    ORxy(u8, u8),
    ///8xy2 - AND Vx, Vy
    ANDxy(u8, u8),
    ///8xy3 - XOR Vx, Vy
    XORxy(u8, u8),
    ///8xy4 - ADD Vx, Vy
    ADDxy(u8, u8),
    ///8xy5 - SUB Vx, Vy
    SUBxy(u8, u8),
    ///8xy6 - SHR Vx {, Vy}
    SHRxy(u8, u8),
    ///8xy7 - SUBN Vx, Vy
    SUBNxy(u8, u8),
    ///8xyE - SHL Vx {, Vy}
    SHLxy(u8, u8),
    ///9xy0 - SNE Vx, Vy
    SNExy(u8, u8),
    ///Annn - LD I, addr
    LDIAddr(u16),
    ///Bnnn - JP V0, addr
    JPV0Addr(u16),
    ///Cxkk - RND Vx, byte
    RNDxByte(u8, u8),
    ///Dxyn - DRW Vx, Vy, nibble
    DRWxyn(u8, u8, u8),
    ///Ex9E - SKP Vx
    SKPx(u8),
    ///ExA1 - SKNP Vx
    SKPNPx(u8),
    ///Fx07 - LD Vx, DT
    LDxDt(u8),
    ///Fx0A - LD Vx, K
    LDxK(u8),
    ///Fx15 - LD DT, Vx
    LDDTx(u8),
    ///Fx18 - LD ST, Vx
    LDSTx(u8),
    ///Fx1E - ADD I, Vx
    ADDIx(u8),
    ///Fx29 - LD F, Vx
    LDFx(u8),
    ///Fx33 - LD B, Vx
    LDBx(u8),
    ///Fx55 - LD [I], Vx
    LDIx(u8),
    ///Fx65 - LD Vx, [I]
    LDxI(u8),
}

/// One line of a disassembly table: the mnemonic of an instruction together
/// with whichever operand columns the instruction has.
pub struct Row {
    pub name: &'static str,
    pub addr: Option<u16>,
    pub reg_left: Option<u8>,
    pub reg_right: Option<u8>,
    pub byte: Option<u8>,
    pub n: Option<u8>,
}

impl Row {
    fn reg_byte(name: &'static str, reg: u8, byte: u8) -> (r: Row)
        ensures
            r == (Row {
                name,
                addr: None,
                reg_left: Some(reg),
                reg_right: None,
                byte: Some(byte),
                n: None,
            }),
    {
        Row { name, addr: None, reg_left: Some(reg), reg_right: None, byte: Some(byte), n: None }
    }

    fn reg_reg_n(name: &'static str, reg_left: u8, reg_right: u8, n: u8) -> (r: Row)
        ensures
            r == (Row {
                name,
                addr: None,
                reg_left: Some(reg_left),
                reg_right: Some(reg_right),
                byte: None,
                n: Some(n),
            }),
    {
        Row {
            name,
            addr: None,
            reg_left: Some(reg_left),
            reg_right: Some(reg_right),
            byte: None,
            n: Some(n),
        }
    }

    fn reg_reg(name: &'static str, reg_left: u8, reg_right: u8) -> (r: Row)
        ensures
            r == (Row {
                name,
                addr: None,
                reg_left: Some(reg_left),
                reg_right: Some(reg_right),
                byte: None,
                n: None,
            }),
    {
        Row {
            name,
            addr: None,
            reg_left: Some(reg_left),
            reg_right: Some(reg_right),
            byte: None,
            n: None,
        }
    }

    fn reg(name: &'static str, reg: u8) -> (r: Row)
        ensures
            r == (Row {
                name,
                addr: None,
                reg_left: Some(reg),
                reg_right: None,
                byte: None,
                n: None,
            }),
    {
        Row { name, addr: None, reg_left: Some(reg), reg_right: None, byte: None, n: None }
    }

    fn addr_reg(name: &'static str, addr: u16, reg: u8) -> (r: Row)
        ensures
            r == (Row {
                name,
                addr: Some(addr),
                reg_left: Some(reg),
                reg_right: None,
                byte: None,
                n: None,
            }),
    {
        Row { name, addr: Some(addr), reg_left: Some(reg), reg_right: None, byte: None, n: None }
    }

    fn addr(name: &'static str, addr: u16) -> (r: Row)
        ensures
            r == (Row {
                name,
                addr: Some(addr),
                reg_left: None,
                reg_right: None,
                byte: None,
                n: None,
            }),
    {
        Row { name, addr: Some(addr), reg_left: None, reg_right: None, byte: None, n: None }
    }

    fn name(name: &'static str) -> (r: Row)
        ensures
            r == (Row { name, addr: None, reg_left: None, reg_right: None, byte: None, n: None }),
    {
        Row { name, addr: None, reg_left: None, reg_right: None, byte: None, n: None }
    }

    /// A row with no mnemonic and no operands, for table lines that carry
    /// only raw bytes.
    pub fn empty() -> (r: Row)
        ensures
            r == (Row {
                name: "",
                addr: None,
                reg_left: None,
                reg_right: None,
                byte: None,
                n: None,
            }),
    {
        Row { name: "", addr: None, reg_left: None, reg_right: None, byte: None, n: None }
    }
}

/// The disassembly-table row of an instruction.
pub open spec fn to_row_spec(i: Instruction) -> Row {
    match i {
        Instruction::CLS => Row {
            name: "CLS",
            addr: None,
            reg_left: None,
            reg_right: None,
            byte: None,
            n: None,
        },
        Instruction::RET => Row {
            name: "RET",
            addr: None,
            reg_left: None,
            reg_right: None,
            byte: None,
            n: None,
        },
        Instruction::SYS(a) => Row {
            name: "SYS",
            addr: Some(a),
            reg_left: None,
            reg_right: None,
            byte: None,
            n: None,
        },
        Instruction::JPAddr(a) => Row {
            name: "JP",
            addr: Some(a),
            reg_left: None,
            reg_right: None,
            byte: None,
            n: None,
        },
        Instruction::CALLAddr(a) => Row {
            name: "CALL",
            addr: Some(a),
            reg_left: None,
            reg_right: None,
            byte: None,
            n: None,
        },
        Instruction::SExByte(x, b) => Row {
            name: "SE",
            addr: None,
            reg_left: Some(x),
            reg_right: None,
            byte: Some(b),
            n: None,
        },
        Instruction::SNExByte(x, b) => Row {
            name: "SNE",
            addr: None,
            reg_left: Some(x),
            reg_right: None,
            byte: Some(b),
            n: None,
        },
        Instruction::SExy(x, y) => Row {
            name: "SE",
            addr: None,
            reg_left: Some(x),
            reg_right: Some(y),
            byte: None,
            n: None,
        },
        Instruction::LDxByte(x, b) => Row {
            name: "LD",
            addr: None,
            reg_left: Some(x),
            reg_right: None,
            byte: Some(b),
            n: None,
        },
        Instruction::ADDxByte(x, b) => Row {
            name: "ADD",
            addr: None,
            reg_left: Some(x),
            reg_right: None,
            byte: Some(b),
            n: None,
        },
        Instruction::LDxy(x, y) => Row {
            name: "LD",
            addr: None,
            reg_left: Some(x),
            reg_right: Some(y),
            byte: None,
            n: None,
        },
        Instruction::ORxy(x, y) => Row {
            name: "OR",
            addr: None,
            reg_left: Some(x),
            reg_right: Some(y),
            byte: None,
            n: None,
        },
        Instruction::ANDxy(x, y) => Row {
            name: "AND",
            addr: None,
            reg_left: Some(x),
            reg_right: Some(y),
            byte: None,
            n: None,
        },
        Instruction::XORxy(x, y) => Row {
            name: "XOR",
            addr: None,
            reg_left: Some(x),
            reg_right: Some(y),
            byte: None,
            n: None,
        },
        Instruction::ADDxy(x, y) => Row {
            name: "ADD",
            addr: None,
            reg_left: Some(x),
            reg_right: Some(y),
            byte: None,
            n: None,
        },
        Instruction::SUBxy(x, y) => Row {
            name: "SUB",
            addr: None,
            reg_left: Some(x),
            reg_right: Some(y),
            byte: None,
            n: None,
        },
        Instruction::SHRxy(x, y) => Row {
            name: "SHR",
            addr: None,
            reg_left: Some(x),
            reg_right: Some(y),
            byte: None,
            n: None,
        },
        Instruction::SUBNxy(x, y) => Row {
            name: "SUBN",
            addr: None,
            reg_left: Some(x),
            reg_right: Some(y),
            byte: None,
            n: None,
        },
        Instruction::SHLxy(x, y) => Row {
            name: "SHL",
            addr: None,
            reg_left: Some(x),
            reg_right: Some(y),
            byte: None,
            n: None,
        },
        Instruction::SNExy(x, y) => Row {
            name: "SNE",
            addr: None,
            reg_left: Some(x),
            reg_right: Some(y),
            byte: None,
            n: None,
        },
        Instruction::LDIAddr(a) => Row {
            name: "LDI",
            addr: Some(a),
            reg_left: None,
            reg_right: None,
            byte: None,
            n: None,
        },
        Instruction::JPV0Addr(a) => Row {
            name: "JP",
            addr: Some(a),
            reg_left: Some(0),
            reg_right: None,
            byte: None,
            n: None,
        },
        Instruction::RNDxByte(x, b) => Row {
            name: "RND",
            addr: None,
            reg_left: Some(x),
            reg_right: None,
            byte: Some(b),
            n: None,
        },
        Instruction::DRWxyn(x, y, n) => Row {
            name: "DRW",
            addr: None,
            reg_left: Some(x),
            reg_right: Some(y),
            byte: None,
            n: Some(n),
        },
        Instruction::SKPx(x) => Row {
            name: "SKP",
            addr: None,
            reg_left: Some(x),
            reg_right: None,
            byte: None,
            n: None,
        },
        Instruction::SKPNPx(x) => Row {
            name: "SKNP",
            addr: None,
            reg_left: Some(x),
            reg_right: None,
            byte: None,
            n: None,
        },
        Instruction::LDxDt(x) => Row {
            name: "LD",
            addr: None,
            reg_left: Some(x),
            reg_right: None,
            byte: None,
            n: None,
        },
        Instruction::LDxK(x) => Row {
            name: "LD",
            addr: None,
            reg_left: Some(x),
            reg_right: None,
            byte: None,
            n: None,
        },
        Instruction::LDDTx(x) => Row {
            name: "LD",
            addr: None,
            reg_left: Some(x),
            reg_right: None,
            byte: None,
            n: None,
        },
        Instruction::LDSTx(x) => Row {
            name: "LD",
            addr: None,
            reg_left: Some(x),
            reg_right: None,
            byte: None,
            n: None,
        },
        Instruction::ADDIx(x) => Row {
            name: "ADD",
            addr: None,
            reg_left: Some(x),
            reg_right: None,
            byte: None,
            n: None,
        },
        Instruction::LDFx(x) => Row {
            name: "LD",
            addr: None,
            reg_left: Some(x),
            reg_right: None,
            byte: None,
            n: None,
        },
        Instruction::LDBx(x) => Row {
            name: "LD",
            addr: None,
            reg_left: Some(x),
            reg_right: None,
            byte: None,
            n: None,
        },
        Instruction::LDIx(x) => Row {
            name: "LD",
            addr: None,
            reg_left: Some(x),
            reg_right: None,
            byte: None,
            n: None,
        },
        Instruction::LDxI(x) => Row {
            name: "LD",
            addr: None,
            reg_left: Some(x),
            reg_right: None,
            byte: None,
            n: None,
        },
    }
}

/// The top nibble of an opcode word (bits 12-15).
pub open spec fn op_hi(w: u16) -> u8 {
    ((w & 0xF000) >> 12) as u8
}

/// The second nibble of an opcode word (bits 8-11), the `x` register index.
pub open spec fn op_x(w: u16) -> u8 {
    ((w & 0x0F00) >> 8) as u8
}

/// The third nibble of an opcode word (bits 4-7), the `y` register index.
pub open spec fn op_y(w: u16) -> u8 {
    ((w & 0x00F0) >> 4) as u8
}

/// The bottom nibble of an opcode word (bits 0-3).
pub open spec fn op_n(w: u16) -> u8 {
    (w & 0x000F) as u8
}

/// The low 12 bits of an opcode word, a memory address.
pub open spec fn op_addr(w: u16) -> u16 {
    w & 0x0FFF
}

/// The low byte of an opcode word, an immediate operand.
pub open spec fn op_kk(w: u16) -> u8 {
    (w & 0x00FF) as u8
}

/// Packs four nibbles into an opcode word; each argument is masked to 4 bits.
pub open spec fn pack(t: u8, x: u8, y: u8, n: u8) -> u16 {
    (((t & 0xF) as u16) << 12) | (((x & 0xF) as u16) << 8) | (((y & 0xF) as u16) << 4)
        | ((n & 0xF) as u16)
}

/// Packs a tag nibble and a 12-bit address into an opcode word.
pub open spec fn pack_addr(t: u8, a: u16) -> u16 {
    (((t & 0xF) as u16) << 12) | (a & 0x0FFF)
}

/// Packs a tag nibble, a register nibble and an immediate byte into a word.
pub open spec fn pack_kk(t: u8, x: u8, kk: u8) -> u16 {
    (((t & 0xF) as u16) << 12) | (((x & 0xF) as u16) << 8) | (kk as u16)
}

impl Instruction {
    /// The operands lie in the ranges the instruction format gives them:
    /// register indices and nibbles are 4 bits, addresses are 12 bits.
    pub open spec fn wf(self) -> bool {
        match self {
            Instruction::CLS => true,
            Instruction::RET => true,
            Instruction::SYS(a) => a < 0x1000,
            Instruction::JPAddr(a) => a < 0x1000,
            Instruction::CALLAddr(a) => a < 0x1000,
            Instruction::SExByte(x, _) => x < 16,
            Instruction::SNExByte(x, _) => x < 16,
            Instruction::SExy(x, y) => x < 16 && y < 16,
            Instruction::LDxByte(x, _) => x < 16,
            Instruction::ADDxByte(x, _) => x < 16,
            Instruction::LDxy(x, y) => x < 16 && y < 16,
            Instruction::ORxy(x, y) => x < 16 && y < 16,
            Instruction::ANDxy(x, y) => x < 16 && y < 16,
            Instruction::XORxy(x, y) => x < 16 && y < 16,
            Instruction::ADDxy(x, y) => x < 16 && y < 16,
            Instruction::SUBxy(x, y) => x < 16 && y < 16,
            Instruction::SHRxy(x, y) => x < 16 && y < 16,
            Instruction::SUBNxy(x, y) => x < 16 && y < 16,
            Instruction::SHLxy(x, y) => x < 16 && y < 16,
            Instruction::SNExy(x, y) => x < 16 && y < 16,
            Instruction::LDIAddr(a) => a < 0x1000,
            Instruction::JPV0Addr(a) => a < 0x1000,
            Instruction::RNDxByte(x, _) => x < 16,
            Instruction::DRWxyn(x, y, n) => x < 16 && y < 16 && n < 16,
            Instruction::SKPx(x) => x < 16,
            Instruction::SKPNPx(x) => x < 16,
            Instruction::LDxDt(x) => x < 16,
            Instruction::LDxK(x) => x < 16,
            Instruction::LDDTx(x) => x < 16,
            Instruction::LDSTx(x) => x < 16,
            Instruction::ADDIx(x) => x < 16,
            Instruction::LDFx(x) => x < 16,
            Instruction::LDBx(x) => x < 16,
            Instruction::LDIx(x) => x < 16,
            Instruction::LDxI(x) => x < 16,
        }
    }
}

/// What decoding a 16-bit word yields: the matching instruction, or `None`
/// where no pattern of the instruction set matches.
pub open spec fn decode_spec(w: u16) -> Option<Instruction> {
    let x = op_x(w);
    let y = op_y(w);
    let n = op_n(w);
    let addr = op_addr(w);
    let kk = op_kk(w);
    if op_hi(w) == 0x0 {
        if w == 0x00E0 {
            Some(Instruction::CLS)
        } else if w == 0x00EE {
            Some(Instruction::RET)
        } else {
            Some(Instruction::SYS(addr))
        }
    } else if op_hi(w) == 0x1 {
        Some(Instruction::JPAddr(addr))
    } else if op_hi(w) == 0x2 {
        Some(Instruction::CALLAddr(addr))
    } else if op_hi(w) == 0x3 {
        Some(Instruction::SExByte(x, kk))
    } else if op_hi(w) == 0x4 {
        Some(Instruction::SNExByte(x, kk))
    } else if op_hi(w) == 0x5 {
        if n == 0x0 {
            Some(Instruction::SExy(x, y))
        } else {
            None
        }
    } else if op_hi(w) == 0x6 {
        Some(Instruction::LDxByte(x, kk))
    } else if op_hi(w) == 0x7 {
        Some(Instruction::ADDxByte(x, kk))
    } else if op_hi(w) == 0x8 {
        if n == 0x0 {
            Some(Instruction::LDxy(x, y))
        } else if n == 0x1 {
            Some(Instruction::ORxy(x, y))
        } else if n == 0x2 {
            Some(Instruction::ANDxy(x, y))
        } else if n == 0x3 {
            Some(Instruction::XORxy(x, y))
        } else if n == 0x4 {
            Some(Instruction::ADDxy(x, y))
        } else if n == 0x5 {
            Some(Instruction::SUBxy(x, y))
        } else if n == 0x6 {
            Some(Instruction::SHRxy(x, y))
        } else if n == 0x7 {
            Some(Instruction::SUBNxy(x, y))
        } else if n == 0xE {
            Some(Instruction::SHLxy(x, y))
        } else {
            None
        }
    } else if op_hi(w) == 0x9 {
        if n == 0x0 {
            Some(Instruction::SNExy(x, y))
        } else {
            None
        }
    } else if op_hi(w) == 0xA {
        Some(Instruction::LDIAddr(addr))
    } else if op_hi(w) == 0xB {
        Some(Instruction::JPV0Addr(addr))
    } else if op_hi(w) == 0xC {
        Some(Instruction::RNDxByte(x, kk))
    } else if op_hi(w) == 0xD {
        Some(Instruction::DRWxyn(x, y, n))
    } else if op_hi(w) == 0xE {
        if kk == 0x9E {
            Some(Instruction::SKPx(x))
        } else if kk == 0xA1 {
            Some(Instruction::SKPNPx(x))
        } else {
            None
        }
    } else if op_hi(w) == 0xF {
        if kk == 0x07 {
            Some(Instruction::LDxDt(x))
        } else if kk == 0x0A {
            Some(Instruction::LDxK(x))
        } else if kk == 0x15 {
            Some(Instruction::LDDTx(x))
        } else if kk == 0x18 {
            Some(Instruction::LDSTx(x))
        } else if kk == 0x1E {
            Some(Instruction::ADDIx(x))
        } else if kk == 0x29 {
            Some(Instruction::LDFx(x))
        } else if kk == 0x33 {
            Some(Instruction::LDBx(x))
        } else if kk == 0x55 {
            Some(Instruction::LDIx(x))
        } else if kk == 0x65 {
            Some(Instruction::LDxI(x))
        } else {
            None
        }
    } else {
        None
    }
}

/// What encoding an instruction yields: the operands packed back into their
/// nibble positions. Total: out-of-range operands are masked to their field.
pub open spec fn encode_spec(i: Instruction) -> u16 {
    match i {
        Instruction::CLS => 0x00E0,
        Instruction::RET => 0x00EE,
        Instruction::SYS(a) => pack_addr(0x0, a),
        Instruction::JPAddr(a) => pack_addr(0x1, a),
        Instruction::CALLAddr(a) => pack_addr(0x2, a),
        Instruction::SExByte(x, kk) => pack_kk(0x3, x, kk),
        Instruction::SNExByte(x, kk) => pack_kk(0x4, x, kk),
        Instruction::SExy(x, y) => pack(0x5, x, y, 0x0),
        Instruction::LDxByte(x, kk) => pack_kk(0x6, x, kk),
        Instruction::ADDxByte(x, kk) => pack_kk(0x7, x, kk),
        Instruction::LDxy(x, y) => pack(0x8, x, y, 0x0),
        Instruction::ORxy(x, y) => pack(0x8, x, y, 0x1),
        Instruction::ANDxy(x, y) => pack(0x8, x, y, 0x2),
        Instruction::XORxy(x, y) => pack(0x8, x, y, 0x3),
        Instruction::ADDxy(x, y) => pack(0x8, x, y, 0x4),
        Instruction::SUBxy(x, y) => pack(0x8, x, y, 0x5),
        Instruction::SHRxy(x, y) => pack(0x8, x, y, 0x6),
        Instruction::SUBNxy(x, y) => pack(0x8, x, y, 0x7),
        Instruction::SHLxy(x, y) => pack(0x8, x, y, 0xE),
        Instruction::SNExy(x, y) => pack(0x9, x, y, 0x0),
        Instruction::LDIAddr(a) => pack_addr(0xA, a),
        Instruction::JPV0Addr(a) => pack_addr(0xB, a),
        Instruction::RNDxByte(x, kk) => pack_kk(0xC, x, kk),
        Instruction::DRWxyn(x, y, n) => pack(0xD, x, y, n),
        Instruction::SKPx(x) => pack(0xE, x, 0x9, 0xE),
        Instruction::SKPNPx(x) => pack(0xE, x, 0xA, 0x1),
        Instruction::LDxDt(x) => pack(0xF, x, 0x0, 0x7),
        Instruction::LDxK(x) => pack(0xF, x, 0x0, 0xA),
        Instruction::LDDTx(x) => pack(0xF, x, 0x1, 0x5),
        Instruction::LDSTx(x) => pack(0xF, x, 0x1, 0x8),
        Instruction::ADDIx(x) => pack(0xF, x, 0x1, 0xE),
        Instruction::LDFx(x) => pack(0xF, x, 0x2, 0x9),
        Instruction::LDBx(x) => pack(0xF, x, 0x3, 0x3),
        Instruction::LDIx(x) => pack(0xF, x, 0x5, 0x5),
        Instruction::LDxI(x) => pack(0xF, x, 0x6, 0x5),
    }
}

/// Splits a word into its four nibbles, top first.
pub fn nibbles(v: u16) -> (r: (u8, u8, u8, u8))
    ensures
        r.0 == op_hi(v),
        r.1 == op_x(v),
        r.2 == op_y(v),
        r.3 == op_n(v),
        r.0 < 16,
        r.1 < 16,
        r.2 < 16,
        r.3 < 16,
{
    proof {
        assert((v & 0xF000) >> 12 < 16 && (v & 0x0F00) >> 8 < 16 && (v & 0x00F0) >> 4 < 16 && (v
            & 0x000F) < 16) by (bit_vector);
    }
    (
        ((v & 0xF000) >> 12) as u8,
        ((v & 0x0F00) >> 8) as u8,
        ((v & 0x00F0) >> 4) as u8,
        (v & 0x000F) as u8,
    )
}

/// Packs four nibbles into an opcode word.
fn pack_x(t: u8, x: u8, y: u8, n: u8) -> (w: u16)
    ensures
        w == pack(t, x, y, n),
{
    (((t & 0xF) as u16) << 12) | (((x & 0xF) as u16) << 8) | (((y & 0xF) as u16) << 4) | ((n
        & 0xF) as u16)
}

/// Packs a tag nibble and a 12-bit address into an opcode word.
fn pack_addr_x(t: u8, a: u16) -> (w: u16)
    ensures
        w == pack_addr(t, a),
{
    (((t & 0xF) as u16) << 12) | (a & 0x0FFF)
}

/// Packs a tag nibble, a register nibble and an immediate byte into a word.
fn pack_kk_x(t: u8, x: u8, kk: u8) -> (w: u16)
    ensures
        w == pack_kk(t, x, kk),
{
    (((t & 0xF) as u16) << 12) | (((x & 0xF) as u16) << 8) | (kk as u16)
}

impl Instruction {
    /// Decodes a 16-bit word into an instruction; a word that matches no
    /// pattern of the instruction set is rejected as `InvalidOpcode`.
    pub fn decode(v: u16) -> (r: Result<Self, Chip8Error>)
        ensures
            match decode_spec(v) {
                Some(inst) => r == Ok::<Instruction, Chip8Error>(inst) && inst.wf(),
                None => r == Err::<Instruction, Chip8Error>(Chip8Error::InvalidOpcode(v)),
            },
    {
        let (i, x, y, n) = nibbles(v);
        let addr = v & 0x0FFF;
        let kk = (v & 0x00FF) as u8;
        proof {
            assert(v & 0x0FFF < 0x1000) by (bit_vector);
        }
        match i {
            0x0 => {
                if v == 0x00E0 {
                    Ok(Instruction::CLS)
                } else if v == 0x00EE {
                    Ok(Instruction::RET)
                } else {
                    Ok(Instruction::SYS(addr))
                }
            },
            0x1 => Ok(Instruction::JPAddr(addr)),
            0x2 => Ok(Instruction::CALLAddr(addr)),
            0x3 => Ok(Instruction::SExByte(x, kk)),
            0x4 => Ok(Instruction::SNExByte(x, kk)),
            0x5 => {
                if n == 0x0 {
                    Ok(Instruction::SExy(x, y))
                } else {
                    Err(Chip8Error::InvalidOpcode(v))
                }
            },
            0x6 => Ok(Instruction::LDxByte(x, kk)),
            0x7 => Ok(Instruction::ADDxByte(x, kk)),
            0x8 => match n {
                0x0 => Ok(Instruction::LDxy(x, y)),
                0x1 => Ok(Instruction::ORxy(x, y)),
                0x2 => Ok(Instruction::ANDxy(x, y)),
                0x3 => Ok(Instruction::XORxy(x, y)),
                0x4 => Ok(Instruction::ADDxy(x, y)),
                0x5 => Ok(Instruction::SUBxy(x, y)),
                0x6 => Ok(Instruction::SHRxy(x, y)),
                0x7 => Ok(Instruction::SUBNxy(x, y)),
                0xE => Ok(Instruction::SHLxy(x, y)),
                _ => Err(Chip8Error::InvalidOpcode(v)),
            },
            0x9 => {
                if n == 0x0 {
                    Ok(Instruction::SNExy(x, y))
                } else {
                    Err(Chip8Error::InvalidOpcode(v))
                }
            },
            0xA => Ok(Instruction::LDIAddr(addr)),
            0xB => Ok(Instruction::JPV0Addr(addr)),
            0xC => Ok(Instruction::RNDxByte(x, kk)),
            0xD => Ok(Instruction::DRWxyn(x, y, n)),
            0xE => match kk {
                0x9E => Ok(Instruction::SKPx(x)),
                0xA1 => Ok(Instruction::SKPNPx(x)),
                _ => Err(Chip8Error::InvalidOpcode(v)),
            },
            0xF => match kk {
                0x07 => Ok(Instruction::LDxDt(x)),
                0x0A => Ok(Instruction::LDxK(x)),
                0x15 => Ok(Instruction::LDDTx(x)),
                0x18 => Ok(Instruction::LDSTx(x)),
                0x1E => Ok(Instruction::ADDIx(x)),
                0x29 => Ok(Instruction::LDFx(x)),
                0x33 => Ok(Instruction::LDBx(x)),
                0x55 => Ok(Instruction::LDIx(x)),
                0x65 => Ok(Instruction::LDxI(x)),
                _ => Err(Chip8Error::InvalidOpcode(v)),
            },
            _ => Err(Chip8Error::InvalidOpcode(v)),
        }
    }

    /// Encodes an instruction back into its 16-bit word. Total: operands
    /// wider than their field are masked, exactly as `encode_spec` says.
    pub fn encode(&self) -> (w: u16)
        ensures
            w == encode_spec(*self),
    {
        match self {
            Instruction::CLS => 0x00E0,
            Instruction::RET => 0x00EE,
            Instruction::SYS(a) => pack_addr_x(0x0, *a),
            Instruction::JPAddr(a) => pack_addr_x(0x1, *a),
            Instruction::CALLAddr(a) => pack_addr_x(0x2, *a),
            Instruction::SExByte(x, kk) => pack_kk_x(0x3, *x, *kk),
            Instruction::SNExByte(x, kk) => pack_kk_x(0x4, *x, *kk),
            Instruction::SExy(x, y) => pack_x(0x5, *x, *y, 0x0),
            Instruction::LDxByte(x, kk) => pack_kk_x(0x6, *x, *kk),
            Instruction::ADDxByte(x, kk) => pack_kk_x(0x7, *x, *kk),
            Instruction::LDxy(x, y) => pack_x(0x8, *x, *y, 0x0),
            Instruction::ORxy(x, y) => pack_x(0x8, *x, *y, 0x1),
            Instruction::ANDxy(x, y) => pack_x(0x8, *x, *y, 0x2),
            Instruction::XORxy(x, y) => pack_x(0x8, *x, *y, 0x3),
            Instruction::ADDxy(x, y) => pack_x(0x8, *x, *y, 0x4),
            Instruction::SUBxy(x, y) => pack_x(0x8, *x, *y, 0x5),
            Instruction::SHRxy(x, y) => pack_x(0x8, *x, *y, 0x6),
            Instruction::SUBNxy(x, y) => pack_x(0x8, *x, *y, 0x7),
            Instruction::SHLxy(x, y) => pack_x(0x8, *x, *y, 0xE),
            Instruction::SNExy(x, y) => pack_x(0x9, *x, *y, 0x0),
            Instruction::LDIAddr(a) => pack_addr_x(0xA, *a),
            Instruction::JPV0Addr(a) => pack_addr_x(0xB, *a),
            Instruction::RNDxByte(x, kk) => pack_kk_x(0xC, *x, *kk),
            Instruction::DRWxyn(x, y, n) => pack_x(0xD, *x, *y, *n),
            Instruction::SKPx(x) => pack_x(0xE, *x, 0x9, 0xE),
            Instruction::SKPNPx(x) => pack_x(0xE, *x, 0xA, 0x1),
            Instruction::LDxDt(x) => pack_x(0xF, *x, 0x0, 0x7),
            Instruction::LDxK(x) => pack_x(0xF, *x, 0x0, 0xA),
            Instruction::LDDTx(x) => pack_x(0xF, *x, 0x1, 0x5),
            Instruction::LDSTx(x) => pack_x(0xF, *x, 0x1, 0x8),
            Instruction::ADDIx(x) => pack_x(0xF, *x, 0x1, 0xE),
            Instruction::LDFx(x) => pack_x(0xF, *x, 0x2, 0x9),
            Instruction::LDBx(x) => pack_x(0xF, *x, 0x3, 0x3),
            Instruction::LDIx(x) => pack_x(0xF, *x, 0x5, 0x5),
            Instruction::LDxI(x) => pack_x(0xF, *x, 0x6, 0x5),
        }
    }
}

impl Instruction {
    /// The disassembly-table row of this instruction: its mnemonic and
    /// operand columns.
    pub fn to_row(&self) -> (r: Row)
        ensures
            r == to_row_spec(*self),
    {
        match *self {
            Instruction::CLS => Row::name("CLS"),
            Instruction::RET => Row::name("RET"),
            Instruction::SYS(a) => Row::addr("SYS", a),
            Instruction::JPAddr(a) => Row::addr("JP", a),
            Instruction::CALLAddr(a) => Row::addr("CALL", a),
            Instruction::SExByte(x, b) => Row::reg_byte("SE", x, b),
            Instruction::SNExByte(x, b) => Row::reg_byte("SNE", x, b),
            Instruction::SExy(x, y) => Row::reg_reg("SE", x, y),
            Instruction::LDxByte(x, b) => Row::reg_byte("LD", x, b),
            Instruction::ADDxByte(x, b) => Row::reg_byte("ADD", x, b),
            Instruction::LDxy(x, y) => Row::reg_reg("LD", x, y),
            Instruction::ORxy(x, y) => Row::reg_reg("OR", x, y),
            Instruction::ANDxy(x, y) => Row::reg_reg("AND", x, y),
            Instruction::XORxy(x, y) => Row::reg_reg("XOR", x, y),
            Instruction::ADDxy(x, y) => Row::reg_reg("ADD", x, y),
            Instruction::SUBxy(x, y) => Row::reg_reg("SUB", x, y),
            Instruction::SHRxy(x, y) => Row::reg_reg("SHR", x, y),
            Instruction::SUBNxy(x, y) => Row::reg_reg("SUBN", x, y),
            Instruction::SHLxy(x, y) => Row::reg_reg("SHL", x, y),
            Instruction::SNExy(x, y) => Row::reg_reg("SNE", x, y),
            Instruction::LDIAddr(a) => Row::addr("LDI", a),
            Instruction::JPV0Addr(a) => Row::addr_reg("JP", a, 0),
            Instruction::RNDxByte(x, b) => Row::reg_byte("RND", x, b),
            Instruction::DRWxyn(x, y, n) => Row::reg_reg_n("DRW", x, y, n),
            Instruction::SKPx(x) => Row::reg("SKP", x),
            Instruction::SKPNPx(x) => Row::reg("SKNP", x),
            Instruction::LDxDt(x) => Row::reg("LD", x),
            Instruction::LDxK(x) => Row::reg("LD", x),
            Instruction::LDDTx(x) => Row::reg("LD", x),
            Instruction::LDSTx(x) => Row::reg("LD", x),
            Instruction::ADDIx(x) => Row::reg("ADD", x),
            Instruction::LDFx(x) => Row::reg("LD", x),
            Instruction::LDBx(x) => Row::reg("LD", x),
            Instruction::LDIx(x) => Row::reg("LD", x),
            Instruction::LDxI(x) => Row::reg("LD", x),
        }
    }
}

proof fn lemma_pack_fields(t: u8, x: u8, y: u8, n: u8)
    by (bit_vector)
    requires
        t < 16,
        x < 16,
        y < 16,
        n < 16,
    ensures
        op_hi(pack(t, x, y, n)) == t,
        op_x(pack(t, x, y, n)) == x,
        op_y(pack(t, x, y, n)) == y,
        op_n(pack(t, x, y, n)) == n,
        op_kk(pack(t, x, y, n)) == (y * 16 + n) as u8,
{
}

proof fn lemma_pack_addr_fields(t: u8, a: u16)
    by (bit_vector)
    requires
        t < 16,
        a < 0x1000,
    ensures
        op_hi(pack_addr(t, a)) == t,
        op_addr(pack_addr(t, a)) == a,
        t == 0 ==> pack_addr(t, a) == a,
{
}

proof fn lemma_pack_kk_fields(t: u8, x: u8, kk: u8)
    by (bit_vector)
    requires
        t < 16,
        x < 16,
    ensures
        op_hi(pack_kk(t, x, kk)) == t,
        op_x(pack_kk(t, x, kk)) == x,
        op_kk(pack_kk(t, x, kk)) == kk,
{
}

proof fn lemma_repack(w: u16)
    by (bit_vector)
    ensures
        op_hi(w) < 16,
        op_x(w) < 16,
        op_y(w) < 16,
        op_n(w) < 16,
        op_addr(w) < 0x1000,
        pack(op_hi(w), op_x(w), op_y(w), op_n(w)) == w,
        pack_addr(op_hi(w), op_addr(w)) == w,
        pack_kk(op_hi(w), op_x(w), op_kk(w)) == w,
        op_kk(w) == (op_y(w) * 16 + op_n(w)) as u8,
        op_hi(w) == 0 ==> op_addr(w) == w,
{
}

/// Round-trip law, one direction: decoding the encoding of any constructible
/// instruction gives the instruction back. The two `SYS` addresses whose
/// low byte spells `CLS` or `RET` are the only constructible values whose
/// encodings decode to those instructions instead, so they are left out.
pub proof fn lemma_decode_encode(i: Instruction)
    requires
        i.wf(),
        i matches Instruction::SYS(a) ==> a != 0x0E0 && a != 0x0EE,
    ensures
        decode_spec(encode_spec(i)) == Some(i),
{
    match i {
        Instruction::CLS => {
            assert(op_hi(0x00E0) == 0 && op_hi(0x00EE) == 0) by (bit_vector);
        },
        Instruction::RET => {
            assert(op_hi(0x00E0) == 0 && op_hi(0x00EE) == 0) by (bit_vector);
        },
        Instruction::SYS(a) => lemma_pack_addr_fields(0x0, a),
        Instruction::JPAddr(a) => lemma_pack_addr_fields(0x1, a),
        Instruction::CALLAddr(a) => lemma_pack_addr_fields(0x2, a),
        Instruction::SExByte(x, kk) => lemma_pack_kk_fields(0x3, x, kk),
        Instruction::SNExByte(x, kk) => lemma_pack_kk_fields(0x4, x, kk),
        Instruction::SExy(x, y) => lemma_pack_fields(0x5, x, y, 0x0),
        Instruction::LDxByte(x, kk) => lemma_pack_kk_fields(0x6, x, kk),
        Instruction::ADDxByte(x, kk) => lemma_pack_kk_fields(0x7, x, kk),
        Instruction::LDxy(x, y) => lemma_pack_fields(0x8, x, y, 0x0),
        Instruction::ORxy(x, y) => lemma_pack_fields(0x8, x, y, 0x1),
        Instruction::ANDxy(x, y) => lemma_pack_fields(0x8, x, y, 0x2),
        Instruction::XORxy(x, y) => lemma_pack_fields(0x8, x, y, 0x3),
        Instruction::ADDxy(x, y) => lemma_pack_fields(0x8, x, y, 0x4),
        Instruction::SUBxy(x, y) => lemma_pack_fields(0x8, x, y, 0x5),
        Instruction::SHRxy(x, y) => lemma_pack_fields(0x8, x, y, 0x6),
        Instruction::SUBNxy(x, y) => lemma_pack_fields(0x8, x, y, 0x7),
        Instruction::SHLxy(x, y) => lemma_pack_fields(0x8, x, y, 0xE),
        Instruction::SNExy(x, y) => lemma_pack_fields(0x9, x, y, 0x0),
        Instruction::LDIAddr(a) => lemma_pack_addr_fields(0xA, a),
        Instruction::JPV0Addr(a) => lemma_pack_addr_fields(0xB, a),
        Instruction::RNDxByte(x, kk) => lemma_pack_kk_fields(0xC, x, kk),
        Instruction::DRWxyn(x, y, n) => lemma_pack_fields(0xD, x, y, n),
        Instruction::SKPx(x) => lemma_pack_fields(0xE, x, 0x9, 0xE),
        Instruction::SKPNPx(x) => lemma_pack_fields(0xE, x, 0xA, 0x1),
        Instruction::LDxDt(x) => lemma_pack_fields(0xF, x, 0x0, 0x7),
        Instruction::LDxK(x) => lemma_pack_fields(0xF, x, 0x0, 0xA),
        Instruction::LDDTx(x) => lemma_pack_fields(0xF, x, 0x1, 0x5),
        Instruction::LDSTx(x) => lemma_pack_fields(0xF, x, 0x1, 0x8),
        Instruction::ADDIx(x) => lemma_pack_fields(0xF, x, 0x1, 0xE),
        Instruction::LDFx(x) => lemma_pack_fields(0xF, x, 0x2, 0x9),
        Instruction::LDBx(x) => lemma_pack_fields(0xF, x, 0x3, 0x3),
        Instruction::LDIx(x) => lemma_pack_fields(0xF, x, 0x5, 0x5),
        Instruction::LDxI(x) => lemma_pack_fields(0xF, x, 0x6, 0x5),
    }
}

/// Round-trip law, other direction: every word that decodes successfully is
/// given back unchanged by encoding the decoded instruction.
pub proof fn lemma_encode_decode(w: u16)
    ensures
        decode_spec(w) matches Some(i) ==> encode_spec(i) == w,
{
    lemma_repack(w);
}

} // verus!
