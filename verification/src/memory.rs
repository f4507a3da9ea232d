//! The memory model: an exactly-4096-byte addressable space.
//!
//! Addresses 0x000-0x1FF are the interpreter area. It holds the hexadecimal
//! font and is never written by a ROM load or by program-controlled stores;
//! every mutating operation here enforces that.

use vstd::prelude::*;

use crate::error::Chip8Error;
use crate::rom::Rom;

verus! {

/// A sequence with `data` written over `mem` starting at `base`, leaving
/// every byte outside that window unchanged.
pub open spec fn overlay(mem: Seq<u8>, base: int, data: Seq<u8>) -> Seq<u8> {
    Seq::new(
        mem.len(),
        |j: int|
            if base <= j < base + data.len() {
                data[j - base]
            } else {
                mem[j]
            },
    )
}

/// The big-endian 16-bit word formed by the bytes at `a` and `a + 1`.
pub open spec fn word_at(mem: Seq<u8>, a: int) -> u16 {
    ((mem[a] as u16) << 8) | (mem[a + 1] as u16)
}

/// The 5-byte glyph of one hexadecimal digit.
pub open spec fn font_sprite_spec(d: int) -> Seq<u8> {
    if d == 0x0 {
        seq![0xF0u8, 0x90, 0x90, 0x90, 0xF0]
    } else if d == 0x1 {
        seq![0x20u8, 0x60, 0x20, 0x20, 0x70]
    } else if d == 0x2 {
        seq![0xF0u8, 0x10, 0xF0, 0x80, 0xF0]
    } else if d == 0x3 {
        seq![0xF0u8, 0x10, 0xF0, 0x10, 0xF0]
    } else if d == 0x4 {
        seq![0x90u8, 0x90, 0xF0, 0x10, 0x10]
    } else if d == 0x5 {
        seq![0xF0u8, 0x80, 0xF0, 0x10, 0xF0]
    } else if d == 0x6 {
        seq![0xF0u8, 0x80, 0xF0, 0x90, 0xF0]
    } else if d == 0x7 {
        seq![0xF0u8, 0x10, 0x20, 0x40, 0x40]
    } else if d == 0x8 {
        seq![0xF0u8, 0x90, 0xF0, 0x90, 0xF0]
    } else if d == 0x9 {
        seq![0xF0u8, 0x90, 0xF0, 0x10, 0xF0]
    } else if d == 0xA {
        seq![0xF0u8, 0x90, 0xF0, 0x90, 0x90]
    } else if d == 0xB {
        seq![0xE0u8, 0x90, 0xE0, 0x90, 0xE0]
    } else if d == 0xC {
        seq![0xF0u8, 0x80, 0x80, 0x80, 0xF0]
    } else if d == 0xD {
        seq![0xE0u8, 0x90, 0x90, 0x90, 0xE0]
    } else if d == 0xE {
        seq![0xF0u8, 0x80, 0xF0, 0x80, 0xF0]
    } else {
        seq![0xF0u8, 0x80, 0xF0, 0x80, 0x80]
    }
}

/// Memory as freshly constructed: the font glyphs at 0x000-0x04F, every
/// other byte zero.
pub open spec fn init_mem() -> Seq<u8> {
    Seq::new(
        4096,
        |j: int|
            if 0 <= j < 80 {
                font_sprite_spec(j / 5)[j % 5]
            } else {
                0u8
            },
    )
}

/// The glyph of the hexadecimal digit `d`, as fetchable through `LDFx`.
pub fn font_sprite(d: u8) -> (s: [u8; 5])
    requires
        d < 16,
    ensures
        s@ == font_sprite_spec(d as int),
{
    match d {
        0x0 => [0xF0, 0x90, 0x90, 0x90, 0xF0],
        0x1 => [0x20, 0x60, 0x20, 0x20, 0x70],
        0x2 => [0xF0, 0x10, 0xF0, 0x80, 0xF0],
        0x3 => [0xF0, 0x10, 0xF0, 0x10, 0xF0],
        0x4 => [0x90, 0x90, 0xF0, 0x10, 0x10],
        0x5 => [0xF0, 0x80, 0xF0, 0x10, 0xF0],
        0x6 => [0xF0, 0x80, 0xF0, 0x90, 0xF0],
        0x7 => [0xF0, 0x10, 0x20, 0x40, 0x40],
        0x8 => [0xF0, 0x90, 0xF0, 0x90, 0xF0],
        0x9 => [0xF0, 0x90, 0xF0, 0x10, 0xF0],
        0xA => [0xF0, 0x90, 0xF0, 0x90, 0x90],
        0xB => [0xE0, 0x90, 0xE0, 0x90, 0xE0],
        0xC => [0xF0, 0x80, 0x80, 0x80, 0xF0],
        0xD => [0xE0, 0x90, 0x90, 0x90, 0xE0],
        0xE => [0xF0, 0x80, 0xF0, 0x80, 0xF0],
        _ => [0xF0, 0x80, 0xF0, 0x80, 0x80],
    }
}

/// The 4096-byte addressable space.
pub struct Memory(Vec<u8>);

impl View for Memory {
    type V = Seq<u8>;

    closed spec fn view(&self) -> Seq<u8> {
        self.0@
    }
}

impl Memory {
    /// The space always holds exactly 4096 bytes.
    pub open spec fn wf(&self) -> bool {
        self@.len() == 4096
    }

    /// Copies a ROM image into memory at its variant's base offset and
    /// returns that offset. The image fills memory exactly to the end, so
    /// the interpreter area below the offset is untouched.
    pub fn load(&mut self, r: Rom) -> (base: u16)
        requires
            old(self).wf(),
            r.wf(),
        ensures
            final(self).wf(),
            base == r.base_offset(),
            final(self)@ == overlay(old(self)@, r.base_offset(), r.bytes()),
    {
        let (buf, base): (&Vec<u8>, usize) = match &r {
            Rom::Base(b, _) => (b, 0x200),
            Rom::ETI600(b, _) => (b, 0x600),
        };
        for j in 0..buf.len()
            invariant
                self.0@.len() == 4096,
                base + buf@.len() == 4096,
                buf@ == r.bytes(),
                base == r.base_offset(),
                forall|t: int| 0 <= t < base ==> self.0@[t] == old(self)@[t],
                forall|t: int| base <= t < base + j ==> self.0@[t] == buf@[t - base],
                forall|t: int| base + j <= t < 4096 ==> self.0@[t] == old(self)@[t],
        {
            self.0.set(base + j, buf[j]);
        }
        assert(self@ =~= overlay(old(self)@, r.base_offset(), r.bytes()));
        base as u16
    }

    /// The big-endian word at address `i`, or `None` where the word would
    /// run past the end of memory.
    pub fn get(&self, i: usize) -> (r: Option<u16>)
        requires
            self.wf(),
        ensures
            match r {
                Some(w) => i + 1 < 4096 && w == word_at(self@, i as int),
                None => i + 1 >= 4096,
            },
    {
        if i < 4095 {
            Some(((self.0[i] as u16) << 8) | (self.0[i + 1] as u16))
        } else {
            None
        }
    }

    /// A copy of the `n` bytes starting at `idx`, bounds-checked; sprite
    /// rows are read through this.
    pub fn get_slice(&self, idx: u16, n: u16) -> (r: Result<Vec<u8>, Chip8Error>)
        requires
            self.wf(),
        ensures
            match r {
                Ok(v) => idx + n <= 4096 && v@ == self@.subrange(idx as int, idx + n),
                Err(e) => e == Chip8Error::OutOfBounds(idx) && idx + n > 4096,
            },
    {
        if (idx as usize) + (n as usize) > 4096 {
            return Err(Chip8Error::OutOfBounds(idx));
        }
        let mut v: Vec<u8> = Vec::new();
        for j in 0..(n as usize)
            invariant
                self.0@.len() == 4096,
                idx + n <= 4096,
                v@.len() == j,
                forall|t: int| 0 <= t < j ==> v@[t] == self.0@[idx + t],
        {
            v.push(self.0[(idx as usize) + j]);
        }
        assert(v@ =~= self@.subrange(idx as int, idx + n));
        Ok(v)
    }

    /// Writes `data` at `idx`, bounds-checked, and refusing any write that
    /// would touch the reserved interpreter area below 0x200.
    pub fn write_slice(&mut self, idx: u16, data: &Vec<u8>) -> (r: Result<(), Chip8Error>)
        requires
            old(self).wf(),
        ensures
            final(self).wf(),
            match r {
                Ok(()) => {
                    &&& 0x200 <= idx
                    &&& idx + data@.len() <= 4096
                    &&& final(self)@ == overlay(old(self)@, idx as int, data@)
                },
                Err(e) => {
                    &&& final(self)@ == old(self)@
                    &&& e == Chip8Error::OutOfBounds(idx)
                    &&& (idx < 0x200 || idx + data@.len() > 4096)
                },
            },
    {
        if idx < 0x200 || data.len() > 4096 || (idx as usize) + data.len() > 4096 {
            return Err(Chip8Error::OutOfBounds(idx));
        }
        for j in 0..data.len()
            invariant
                self.0@.len() == 4096,
                idx + data@.len() <= 4096,
                forall|t: int| 0 <= t < idx ==> self.0@[t] == old(self)@[t],
                forall|t: int| idx <= t < idx + j ==> self.0@[t] == data@[t - idx],
                forall|t: int| idx + j <= t < 4096 ==> self.0@[t] == old(self)@[t],
        {
            self.0.set((idx as usize) + j, data[j]);
        }
        assert(self@ =~= overlay(old(self)@, idx as int, data@));
        Ok(())
    }
}

impl Default for Memory {
    /// Fresh memory: zero-filled, with the font glyphs resident in the
    /// interpreter area.
    fn default() -> (m: Memory)
        ensures
            m.wf(),
            m@ == init_mem(),
    {
        let mut buf: Vec<u8> = Vec::new();
        for j in 0..4096usize
            invariant
                buf@.len() == j,
                forall|t: int| 0 <= t < j ==> buf@[t] == 0u8,
        {
            buf.push(0);
        }
        for j in 0..80usize
            invariant
                buf@.len() == 4096,
                forall|t: int| 0 <= t < j ==> buf@[t] == font_sprite_spec(t / 5)[t % 5],
                forall|t: int| j <= t < 4096 ==> buf@[t] == 0u8,
        {
            let s = font_sprite((j / 5) as u8);
            buf.set(j, s[j % 5]);
        }
        let m = Memory(buf);
        assert(m@ =~= init_mem());
        m
    }
}

} // verus!
