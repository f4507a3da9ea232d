//! ROM images: a byte buffer tagged with the load-offset variant it uses.
//!
//! The standard variant occupies the 3584 bytes from 0x200 to the end of
//! memory; the ETI-660 variant the 2560 bytes from 0x600. A shorter image is
//! zero-padded to the standard budget; a longer one is rejected before any
//! state is touched.

use vstd::prelude::*;

use crate::error::Chip8Error;
use crate::instructions::{decode_spec, encode_spec, Instruction};
use crate::memory::word_at;

verus! {

/// A ROM image, padded to its variant's full budget, together with how many
/// of its bytes came from the source image.
pub enum Rom {
    /// Loads at base offset 0x200; buffer of exactly 3584 bytes.
    Base(Vec<u8>, usize),
    /// Loads at base offset 0x600; buffer of exactly 2560 bytes.
    ETI600(Vec<u8>, usize),
}

impl Rom {
    /// The buffer has exactly its variant's size and the used count does not
    /// exceed it.
    pub open spec fn wf(&self) -> bool {
        match self {
            Rom::Base(b, used) => b@.len() == 3584 && used <= 3584,
            Rom::ETI600(b, used) => b@.len() == 2560 && used <= 2560,
        }
    }

    /// The padded byte contents of the image.
    pub open spec fn bytes(&self) -> Seq<u8> {
        match self {
            Rom::Base(b, _) => b@,
            Rom::ETI600(b, _) => b@,
        }
    }

    /// How many bytes of the buffer came from the source image.
    pub open spec fn used(&self) -> int {
        match self {
            Rom::Base(_, used) => *used as int,
            Rom::ETI600(_, used) => *used as int,
        }
    }

    /// The memory offset this image loads at.
    pub open spec fn base_offset(&self) -> int {
        match self {
            Rom::Base(_, _) => 0x200,
            Rom::ETI600(_, _) => 0x600,
        }
    }

    /// Classifies a raw byte stream by its size: exactly 2560 bytes is an
    /// ETI-660 image, anything else up to 3584 bytes is a standard image
    /// zero-padded to the full budget, and anything larger is rejected with
    /// `RomTooLarge` before any state is touched.
    pub fn from_bytes(bytes: &[u8]) -> (r: Result<Rom, Chip8Error>)
        ensures
            match r {
                Ok(rom) => {
                    &&& rom.wf()
                    &&& bytes@.len() <= 3584
                    &&& rom.used() == bytes@.len()
                    &&& rom is ETI600 <==> bytes@.len() == 2560
                    &&& forall|j: int|
                        0 <= j < rom.bytes().len() ==> rom.bytes()[j] == (if j < bytes@.len() {
                            bytes@[j]
                        } else {
                            0u8
                        })
                },
                Err(e) => e == Chip8Error::RomTooLarge && bytes@.len() > 3584,
            },
    {
        let n = bytes.len();
        if n > 3584 {
            return Err(Chip8Error::RomTooLarge);
        }
        let size: usize = if n == 2560 {
            2560
        } else {
            3584
        };
        let mut buf: Vec<u8> = Vec::new();
        for j in 0..size
            invariant
                buf@.len() == j,
                n == bytes@.len(),
                n <= size,
                forall|t: int|
                    0 <= t < j ==> buf@[t] == (if t < n {
                        bytes@[t]
                    } else {
                        0u8
                    }),
        {
            if j < n {
                buf.push(bytes[j]);
            } else {
                buf.push(0);
            }
        }
        if n == 2560 {
            Ok(Rom::ETI600(buf, n))
        } else {
            Ok(Rom::Base(buf, n))
        }
    }

    /// Writes the encoding of an instruction into the image, big-endian, at
    /// the given byte index.
    pub fn insert(&mut self, index: usize, inst: Instruction)
        requires
            old(self).wf(),
            index + 1 < old(self).bytes().len(),
        ensures
            final(self).wf(),
            final(self).used() == old(self).used(),
            final(self).base_offset() == old(self).base_offset(),
            final(self).bytes() == old(self).bytes().update(
                index as int,
                (encode_spec(inst) >> 8) as u8,
            ).update(index + 1, (encode_spec(inst) & 0x00FF) as u8),
    {
        let i = inst.encode();
        let a = (i >> 8) as u8;
        let b = (i & 0x00FF) as u8;
        match self {
            Rom::Base(r, _) => {
                r.set(index, a);
                r.set(index + 1, b);
            },
            Rom::ETI600(r, _) => {
                r.set(index, a);
                r.set(index + 1, b);
            },
        }
    }

    /// Decodes the used portion of the image as a sequence of big-endian
    /// instruction words; a trailing odd byte is not decoded. Fails with the
    /// `InvalidOpcode` of the first word that matches no instruction.
    pub fn disassemble(&self) -> (r: Result<Vec<Instruction>, Chip8Error>)
        requires
            self.wf(),
        ensures
            match r {
                Ok(insts) => {
                    &&& insts@.len() == self.used() / 2
                    &&& forall|k: int|
                        0 <= k < insts@.len() ==> decode_spec(word_at(self.bytes(), 2 * k))
                            == Some(insts@[k])
                },
                Err(e) => exists|k: int|
                    0 <= k < self.used() / 2 && (#[trigger] decode_spec(
                        word_at(self.bytes(), 2 * k),
                    )) is None && e == Chip8Error::InvalidOpcode(word_at(self.bytes(), 2 * k)),
            },
    {
        let (buf, used): (&Vec<u8>, usize) = match self {
            Rom::Base(b, u) => (b, *u),
            Rom::ETI600(b, u) => (b, *u),
        };
        let pairs = used / 2;
        let mut insts: Vec<Instruction> = Vec::new();
        for k in 0..pairs
            invariant
                insts@.len() == k,
                pairs == self.used() / 2,
                2 * pairs <= buf@.len(),
                buf@ == self.bytes(),
                forall|t: int|
                    0 <= t < k ==> decode_spec(word_at(self.bytes(), 2 * t)) == Some(insts@[t]),
        {
            let w = ((buf[2 * k] as u16) << 8) | (buf[2 * k + 1] as u16);
            match Instruction::decode(w) {
                Ok(inst) => insts.push(inst),
                Err(e) => {
                    proof {
                        assert(0 <= k < self.used() / 2 && decode_spec(
                            word_at(self.bytes(), 2 * (k as int)),
                        ) is None && e == Chip8Error::InvalidOpcode(
                            word_at(self.bytes(), 2 * (k as int)),
                        ));
                    }
                    return Err(e);
                },
            }
        }
        Ok(insts)
    }
}

impl Default for Rom {
    /// A blank standard-variant image: the full 3584-byte budget, zeroed.
    fn default() -> (r: Rom)
        ensures
            r.wf(),
            r is Base,
            r.used() == 3584,
            r.bytes().len() == 3584,
            forall|j: int| 0 <= j < 3584 ==> r.bytes()[j] == 0u8,
    {
        let mut buf: Vec<u8> = Vec::new();
        for j in 0..3584usize
            invariant
                buf@.len() == j,
                forall|t: int| 0 <= t < j ==> buf@[t] == 0u8,
        {
            buf.push(0);
        }
        Rom::Base(buf, 3584)
    }
}

} // verus!
