//! The processor: register file, index register, program counter, stack,
//! timers, a memory instance and a framebuffer instance, driven one
//! instruction at a time by `step`.
//!
//! The whole machine state is modelled by the ghost [`CpuState`], and one
//! step is the mathematical function [`step_spec`]: fetch the word at the
//! program counter, decode it, execute it. `step_with` is proved to follow
//! that function exactly for every value of the random byte; `step` draws
//! the byte from the host's entropy source and so guarantees the same for
//! some byte.

use vstd::prelude::*;

use crate::error::Chip8Error;
use crate::framebuffer::{blank_fb, draw_spec, FrameBuffer};
use crate::instructions::{decode_spec, Instruction};
use crate::memory::{font_sprite, font_sprite_spec, init_mem, overlay, word_at, Memory};
use crate::rom::Rom;

verus! {

/// The mathematical model of the whole machine state.
pub ghost struct CpuState {
    /// The sixteen 8-bit general-purpose registers `V0`..`VF`.
    pub regs: Seq<u8>,
    /// The 12-bit index register `I`.
    pub i: u16,
    /// The delay timer.
    pub delay: u8,
    /// The sound timer.
    pub sound: u8,
    /// The program counter.
    pub pc: u16,
    /// The stack pointer: how many return addresses are on the stack.
    pub sp: u8,
    /// The sixteen return-address slots.
    pub stack: Seq<u16>,
    /// The 4096 bytes of memory.
    pub mem: Seq<u8>,
    /// The 64x32 pixel grid, row-major.
    pub fb: Seq<bool>,
    /// The key bitmap: bit `k` set means key `k` is pressed.
    pub keys: u16,
}

impl CpuState {
    /// The structural invariant of the machine state.
    pub open spec fn wf(self) -> bool {
        &&& self.regs.len() == 16
        &&& self.stack.len() == 16
        &&& self.sp <= 16
        &&& self.mem.len() == 4096
        &&& self.fb.len() == 2048
        &&& self.i < 4096
    }
}

/// The state of a machine just constructed: everything zero, memory holding
/// only the font, the screen blank.
pub open spec fn fresh_state() -> CpuState {
    CpuState {
        regs: Seq::new(16, |j: int| 0u8),
        i: 0,
        delay: 0,
        sound: 0,
        pc: 0,
        sp: 0,
        stack: Seq::new(16, |j: int| 0u16),
        mem: init_mem(),
        fb: blank_fb(),
        keys: 0,
    }
}

/// `s` with the program counter advanced past one 2-byte instruction.
pub open spec fn adv(s: CpuState) -> CpuState {
    CpuState { pc: (s.pc + 2) as u16, ..s }
}

/// `s` advanced by two instructions when `cond` holds (a taken skip), else
/// by one.
pub open spec fn adv_skip(s: CpuState, cond: bool) -> CpuState {
    CpuState {
        pc: if cond {
            (s.pc + 4) as u16
        } else {
            (s.pc + 2) as u16
        },
        ..s
    }
}

/// 1 for a raised flag, 0 for a cleared one.
pub open spec fn flag_val(b: bool) -> u8 {
    if b {
        1
    } else {
        0
    }
}

/// Whether key `k` (taken modulo 16) is pressed in the bitmap.
pub open spec fn key_pressed(keys: u16, k: u8) -> bool {
    (keys >> ((k % 16) as u16)) & 1 == 1
}

/// The smallest pressed key index at or above `k`, or 16 if none is.
pub open spec fn first_key(keys: u16, k: int) -> int
    decreases 16 - k,
{
    if k < 0 || k >= 16 {
        16
    } else if key_pressed(keys, k as u8) {
        k
    } else {
        first_key(keys, k + 1)
    }
}

/// The state after executing one decoded instruction, or the error that
/// aborts the step. `rnd` is the byte that `RND` masks.
///
/// Conventions fixed here, where interpreters have historically differed:
/// `CALL` pushes the address of the instruction after the call; `SUB` and
/// `SUBN` wrap modulo 256 on borrow rather than clamping; `SHR` and `SHL`
/// shift `Vx` and ignore `Vy`; flagged operations write `VF` first and the
/// result second, so with `x = 15` the result wins; `ADD I, Vx` wraps at
/// the index register's 12 bits; `LD F, Vx` takes the digit modulo 16; and
/// program-controlled stores below 0x200 are refused, since that area
/// belongs to the interpreter.
pub open spec fn exec_spec(s: CpuState, inst: Instruction, rnd: u8) -> Result<
    CpuState,
    Chip8Error,
> {
    match inst {
        Instruction::CLS => Ok(adv(CpuState { fb: blank_fb(), ..s })),
        Instruction::RET => if s.sp == 0 {
            Err(Chip8Error::StackUnderflow)
        } else {
            Ok(CpuState { sp: (s.sp - 1) as u8, pc: s.stack[s.sp - 1], ..s })
        },
        Instruction::SYS(_) => Ok(adv(s)),
        Instruction::JPAddr(a) => Ok(CpuState { pc: a, ..s }),
        Instruction::CALLAddr(a) => if s.sp >= 16 {
            Err(Chip8Error::StackOverflow)
        } else {
            Ok(
                CpuState {
                    stack: s.stack.update(s.sp as int, (s.pc + 2) as u16),
                    sp: (s.sp + 1) as u8,
                    pc: a,
                    ..s
                },
            )
        },
        Instruction::SExByte(x, b) => Ok(adv_skip(s, s.regs[x as int] == b)),
        Instruction::SNExByte(x, b) => Ok(adv_skip(s, s.regs[x as int] != b)),
        Instruction::SExy(x, y) => Ok(adv_skip(s, s.regs[x as int] == s.regs[y as int])),
        Instruction::LDxByte(x, b) => Ok(adv(CpuState { regs: s.regs.update(x as int, b), ..s })),
        Instruction::ADDxByte(x, b) => Ok(
            adv(
                CpuState {
                    regs: s.regs.update(x as int, ((s.regs[x as int] + b) % 256) as u8),
                    ..s
                },
            ),
        ),
        Instruction::LDxy(x, y) => Ok(
            adv(CpuState { regs: s.regs.update(x as int, s.regs[y as int]), ..s }),
        ),
        Instruction::ORxy(x, y) => Ok(
            adv(
                CpuState {
                    regs: s.regs.update(x as int, s.regs[x as int] | s.regs[y as int]),
                    ..s
                },
            ),
        ),
        Instruction::ANDxy(x, y) => Ok(
            adv(
                CpuState {
                    regs: s.regs.update(x as int, s.regs[x as int] & s.regs[y as int]),
                    ..s
                },
            ),
        ),
        Instruction::XORxy(x, y) => Ok(
            adv(
                CpuState {
                    regs: s.regs.update(x as int, s.regs[x as int] ^ s.regs[y as int]),
                    ..s
                },
            ),
        ),
        Instruction::ADDxy(x, y) => Ok(
            adv(
                CpuState {
                    regs: s.regs.update(
                        15,
                        flag_val(s.regs[x as int] + s.regs[y as int] > 255),
                    ).update(x as int, ((s.regs[x as int] + s.regs[y as int]) % 256) as u8),
                    ..s
                },
            ),
        ),
        Instruction::SUBxy(x, y) => Ok(
            adv(
                CpuState {
                    regs: s.regs.update(
                        15,
                        flag_val(s.regs[x as int] >= s.regs[y as int]),
                    ).update(x as int, ((s.regs[x as int] - s.regs[y as int]) % 256) as u8),
                    ..s
                },
            ),
        ),
        Instruction::SHRxy(x, _y) => Ok(
            adv(
                CpuState {
                    regs: s.regs.update(15, s.regs[x as int] & 1).update(
                        x as int,
                        s.regs[x as int] >> 1,
                    ),
                    ..s
                },
            ),
        ),
        Instruction::SUBNxy(x, y) => Ok(
            adv(
                CpuState {
                    regs: s.regs.update(
                        15,
                        flag_val(s.regs[y as int] >= s.regs[x as int]),
                    ).update(x as int, ((s.regs[y as int] - s.regs[x as int]) % 256) as u8),
                    ..s
                },
            ),
        ),
        Instruction::SHLxy(x, _y) => Ok(
            adv(
                CpuState {
                    regs: s.regs.update(15, (s.regs[x as int] & 0x80) >> 7).update(
                        x as int,
                        s.regs[x as int] << 1,
                    ),
                    ..s
                },
            ),
        ),
        Instruction::SNExy(x, y) => Ok(adv_skip(s, s.regs[x as int] != s.regs[y as int])),
        Instruction::LDIAddr(a) => Ok(adv(CpuState { i: a, ..s })),
        Instruction::JPV0Addr(a) => Ok(CpuState { pc: (a + s.regs[0]) as u16, ..s }),
        Instruction::RNDxByte(x, b) => Ok(
            adv(CpuState { regs: s.regs.update(x as int, rnd & b), ..s }),
        ),
        Instruction::DRWxyn(x, y, n) => if s.i + n > 4096 {
            Err(Chip8Error::OutOfBounds(s.i))
        } else {
            let rows = s.mem.subrange(s.i as int, s.i + n);
            let dr = draw_spec(s.fb, s.regs[x as int] as int, s.regs[y as int] as int, rows);
            Ok(adv(CpuState { fb: dr.0, regs: s.regs.update(15, flag_val(dr.1)), ..s }))
        },
        Instruction::SKPx(x) => Ok(adv_skip(s, key_pressed(s.keys, s.regs[x as int]))),
        Instruction::SKPNPx(x) => Ok(adv_skip(s, !key_pressed(s.keys, s.regs[x as int]))),
        Instruction::LDxDt(x) => Ok(adv(CpuState { regs: s.regs.update(x as int, s.delay), ..s })),
        Instruction::LDxK(x) => if first_key(s.keys, 0) < 16 {
            Ok(
                adv(
                    CpuState { regs: s.regs.update(x as int, first_key(s.keys, 0) as u8), ..s },
                ),
            )
        } else {
            Ok(s)
        },
        Instruction::LDDTx(x) => Ok(adv(CpuState { delay: s.regs[x as int], ..s })),
        Instruction::LDSTx(x) => Ok(adv(CpuState { sound: s.regs[x as int], ..s })),
        Instruction::ADDIx(x) => Ok(
            adv(CpuState { i: ((s.i + s.regs[x as int]) % 0x1000) as u16, ..s }),
        ),
        Instruction::LDFx(x) => Ok(adv(CpuState { i: (5 * (s.regs[x as int] % 16)) as u16, ..s })),
        Instruction::LDBx(x) => if s.i < 0x200 || s.i + 3 > 4096 {
            Err(Chip8Error::OutOfBounds(s.i))
        } else {
            let vx = s.regs[x as int];
            Ok(
                adv(
                    CpuState {
                        mem: overlay(
                            s.mem,
                            s.i as int,
                            seq![(vx / 100) as u8, ((vx / 10) % 10) as u8, (vx % 10) as u8],
                        ),
                        ..s
                    },
                ),
            )
        },
        Instruction::LDIx(x) => if s.i < 0x200 || s.i + x + 1 > 4096 {
            Err(Chip8Error::OutOfBounds(s.i))
        } else {
            Ok(
                adv(
                    CpuState {
                        mem: overlay(s.mem, s.i as int, s.regs.subrange(0, x + 1)),
                        ..s
                    },
                ),
            )
        },
        Instruction::LDxI(x) => if s.i + x + 1 > 4096 {
            Err(Chip8Error::OutOfBounds(s.i))
        } else {
            Ok(
                adv(
                    CpuState {
                        regs: overlay(s.regs, 0, s.mem.subrange(s.i as int, s.i + x + 1)),
                        ..s
                    },
                ),
            )
        },
    }
}

/// One whole step: fetch the word at the program counter, decode it,
/// execute it.
pub open spec fn step_spec(s: CpuState, rnd: u8) -> Result<CpuState, Chip8Error> {
    if s.pc >= 4095 {
        Err(Chip8Error::BadProgramCounter(s.pc))
    } else {
        let w = word_at(s.mem, s.pc as int);
        match decode_spec(w) {
            None => Err(Chip8Error::InvalidOpcode(w)),
            Some(inst) => exec_spec(s, inst, rnd),
        }
    }
}

/// What a completed `step` guarantees of the state it left behind, given
/// the byte the entropy source produced.
pub open spec fn step_outcome(
    pre: CpuState,
    post: CpuState,
    rnd: u8,
    r: Result<(), Chip8Error>,
) -> bool {
    match r {
        Ok(()) => step_spec(pre, rnd) == Ok::<CpuState, Chip8Error>(post),
        Err(e) => step_spec(pre, rnd) == Err::<CpuState, Chip8Error>(e) && post == pre,
    }
}

/// Arithmetic flag law: from any sound state, loading `a` into `V0` and
/// `b` into `V1` and then adding `V1` into `V0` leaves the sum modulo 256
/// in `V0`, with `VF` set exactly when the sum exceeds 255.
pub proof fn lemma_add_flag_law(s: CpuState, a: u8, b: u8, rnd: u8)
    requires
        s.wf(),
    ensures
        exec_spec(s, Instruction::LDxByte(0, a), rnd) matches Ok(s1) && exec_spec(
            s1,
            Instruction::LDxByte(1, b),
            rnd,
        ) matches Ok(s2) && exec_spec(s2, Instruction::ADDxy(0, 1), rnd) matches Ok(s3)
            && s3.regs[0] == (a + b) % 256 && s3.regs[15] == flag_val(a + b > 255),
{
}

/// The execution engine.
pub struct Processor {
    registers: Vec<u8>,
    /// memory addr
    i: u16,
    delay_timer: u8,
    sound_timer: u8,
    program_counter: u16,
    stack_pointer: u8,
    stack: Vec<u16>,
    memory: Memory,
    framebuffer: FrameBuffer,
    keyboard: u16,
}

impl View for Processor {
    type V = CpuState;

    closed spec fn view(&self) -> CpuState {
        CpuState {
            regs: self.registers@,
            i: self.i,
            delay: self.delay_timer,
            sound: self.sound_timer,
            pc: self.program_counter,
            sp: self.stack_pointer,
            stack: self.stack@,
            mem: self.memory@,
            fb: self.framebuffer@,
            keys: self.keyboard,
        }
    }
}

impl Processor {
    /// The machine state is structurally sound.
    pub open spec fn wf(&self) -> bool {
        self@.wf()
    }

    /// A fresh machine with no ROM loaded: everything zero, the font
    /// resident, the screen blank.
    pub fn new() -> (p: Processor)
        ensures
            p.wf(),
            p@ == fresh_state(),
    {
        Processor::default()
    }

    /// A fresh machine loaded with the given ROM image: the program counter
    /// starts at the image's base offset.
    pub fn with_rom(rom: Rom) -> (p: Processor)
        requires
            rom.wf(),
        ensures
            p.wf(),
            p@ == (CpuState {
                pc: rom.base_offset() as u16,
                mem: overlay(init_mem(), rom.base_offset(), rom.bytes()),
                ..fresh_state()
            }),
    {
        let mut p = Processor::default();
        p.program_counter = p.memory.load(rom);
        p
    }

    /// Classifies `bytes` as a ROM image, copies it into memory at its base
    /// offset, and points the program counter there. Rejects an image over
    /// 3584 bytes with `RomTooLarge` before touching any state.
    pub fn load(&mut self, bytes: &[u8]) -> (r: Result<u16, Chip8Error>)
        requires
            old(self).wf(),
        ensures
            final(self).wf(),
            match r {
                Ok(base) => {
                    &&& bytes@.len() <= 3584
                    &&& base == (if bytes@.len() == 2560 {
                        0x600u16
                    } else {
                        0x200u16
                    })
                    &&& final(self)@ == (CpuState {
                        pc: base,
                        mem: final(self)@.mem,
                        ..old(self)@
                    })
                    &&& final(self)@.mem.len() == 4096
                    &&& forall|t: int|
                        0 <= t < base ==> final(self)@.mem[t] == old(self)@.mem[t]
                    &&& forall|t: int|
                        base <= t < base + bytes@.len() ==> final(self)@.mem[t] == bytes@[t
                            - base]
                    &&& forall|t: int|
                        base + bytes@.len() <= t < 4096 ==> final(self)@.mem[t] == 0
                },
                Err(e) => {
                    &&& e == Chip8Error::RomTooLarge
                    &&& bytes@.len() > 3584
                    &&& final(self)@ == old(self)@
                },
            },
    {
        match Rom::from_bytes(bytes) {
            Err(e) => Err(e),
            Ok(rom) => {
                let base = self.memory.load(rom);
                self.program_counter = base;
                Ok(base)
            },
        }
    }

    /// Decrements the delay and sound timers by one each, floored at zero.
    /// Driven by the host at its own fixed cadence, never by `step`.
    pub fn tick_timers(&mut self)
        requires
            old(self).wf(),
        ensures
            final(self).wf(),
            final(self)@ == (CpuState {
                delay: if old(self)@.delay > 0 {
                    (old(self)@.delay - 1) as u8
                } else {
                    0
                },
                sound: if old(self)@.sound > 0 {
                    (old(self)@.sound - 1) as u8
                } else {
                    0
                },
                ..old(self)@
            }),
    {
        if self.delay_timer > 0 {
            self.delay_timer = self.delay_timer - 1;
        }
        if self.sound_timer > 0 {
            self.sound_timer = self.sound_timer - 1;
        }
    }

    /// Replaces the key bitmap with the host's current one: bit `k` set
    /// means key `k` is pressed.
    pub fn set_key_state(&mut self, bitmap: u16)
        requires
            old(self).wf(),
        ensures
            final(self).wf(),
            final(self)@ == (CpuState { keys: bitmap, ..old(self)@ }),
    {
        self.keyboard = bitmap;
    }

    /// The value of register `Vx`.
    pub fn register(&self, x: u8) -> (r: u8)
        requires
            self.wf(),
            x < 16,
        ensures
            r == self@.regs[x as int],
    {
        self.registers[x as usize]
    }

    /// The program counter.
    pub fn program_counter(&self) -> (r: u16)
        ensures
            r == self@.pc,
    {
        self.program_counter
    }

    /// The index register `I`.
    pub fn index_register(&self) -> (r: u16)
        ensures
            r == self@.i,
    {
        self.i
    }

    /// The delay timer.
    pub fn delay_timer(&self) -> (r: u8)
        ensures
            r == self@.delay,
    {
        self.delay_timer
    }

    /// The sound timer.
    pub fn sound_timer(&self) -> (r: u8)
        ensures
            r == self@.sound,
    {
        self.sound_timer
    }

    /// A copy of the pixel grid, row-major, for host rendering.
    pub fn framebuffer_snapshot(&self) -> (r: Vec<bool>)
        requires
            self.wf(),
        ensures
            r@ == self@.fb,
    {
        self.framebuffer.snapshot()
    }

    /// Whether the pixel at column `x`, row `y` is lit.
    pub fn pixel_at(&self, x: usize, y: usize) -> (lit: bool)
        requires
            self.wf(),
            x < 64,
            y < 32,
        ensures
            lit == self@.fb[y * 64 + x],
    {
        self.framebuffer.pixel_at(x, y)
    }

    /// The 5-byte font glyph of a hexadecimal digit character.
    pub fn text(i: char) -> (s: [u8; 5])
        requires
            hex_char_val(i) < 16,
        ensures
            s@ == font_sprite_spec(hex_char_val(i)),
    {
        match i {
            '0' => font_sprite(0x0),
            '1' => font_sprite(0x1),
            '2' => font_sprite(0x2),
            '3' => font_sprite(0x3),
            '4' => font_sprite(0x4),
            '5' => font_sprite(0x5),
            '6' => font_sprite(0x6),
            '7' => font_sprite(0x7),
            '8' => font_sprite(0x8),
            '9' => font_sprite(0x9),
            'a' => font_sprite(0xA),
            'b' => font_sprite(0xB),
            'c' => font_sprite(0xC),
            'd' => font_sprite(0xD),
            'e' => font_sprite(0xE),
            _ => font_sprite(0xF),
        }
    }
}

/// Relies on rand::random: one uniformly sampled byte from the host's
/// entropy source; nothing is promised of the value.
#[verifier::external_body]
fn random_byte() -> u8 {
    rand::random::<u8>()
}

/// The smallest pressed key index in the bitmap, or 16 where no key is
/// pressed.
fn find_first_key(keys: u16) -> (k: u8)
    ensures
        k as int == first_key(keys, 0),
{
    for kk in 0..16u16
        invariant
            first_key(keys, 0) == first_key(keys, kk as int),
    {
        if (keys >> kk) & 1 == 1 {
            proof {
                assert(key_pressed(keys, kk as u8));
            }
            return kk as u8;
        }
    }
    16
}

/// A copy of the first `count` registers, `V0` first.
fn copy_regs_prefix(regs: &Vec<u8>, count: usize) -> (d: Vec<u8>)
    requires
        regs@.len() == 16,
        count <= 16,
    ensures
        d@ == regs@.subrange(0, count as int),
{
    let mut d: Vec<u8> = Vec::new();
    for j in 0..count
        invariant
            regs@.len() == 16,
            count <= 16,
            d@.len() == j,
            forall|t: int| 0 <= t < j ==> d@[t] == regs@[t],
    {
        d.push(regs[j]);
    }
    assert(d@ =~= regs@.subrange(0, count as int));
    d
}

/// Overwrites the first `rows.len()` registers with `rows`, `V0` first.
fn load_regs_prefix(regs: &mut Vec<u8>, rows: &Vec<u8>)
    requires
        old(regs)@.len() == 16,
        rows@.len() <= 16,
    ensures
        final(regs)@ == overlay(old(regs)@, 0, rows@),
{
    for j in 0..rows.len()
        invariant
            regs@.len() == 16,
            rows@.len() <= 16,
            forall|t: int| 0 <= t < j ==> regs@[t] == rows@[t],
            forall|t: int| j <= t < 16 ==> regs@[t] == old(regs)@[t],
    {
        regs.set(j, rows[j]);
    }
    assert(regs@ =~= overlay(old(regs)@, 0, rows@));
}

impl Processor {
    /// Executes one already-decoded instruction, exactly as `exec_spec`
    /// says; on an error the state is left untouched. `rnd` is the byte
    /// that `RND` masks with its immediate operand.
    pub fn execute(&mut self, inst: Instruction, rnd: u8) -> (r: Result<(), Chip8Error>)
        requires
            old(self).wf(),
            inst.wf(),
            old(self)@.pc < 4095,
        ensures
            final(self).wf(),
            match r {
                Ok(()) => exec_spec(old(self)@, inst, rnd) == Ok::<CpuState, Chip8Error>(
                    final(self)@,
                ),
                Err(e) => exec_spec(old(self)@, inst, rnd) == Err::<CpuState, Chip8Error>(e)
                    && final(self)@ == old(self)@,
            },
    {
        match inst {
            Instruction::CLS => self.execute_flow(inst, rnd),
            Instruction::RET => self.execute_flow(inst, rnd),
            Instruction::SYS(..) => self.execute_flow(inst, rnd),
            Instruction::JPAddr(..) => self.execute_flow(inst, rnd),
            Instruction::CALLAddr(..) => self.execute_flow(inst, rnd),
            Instruction::SExByte(..) => self.execute_flow(inst, rnd),
            Instruction::SNExByte(..) => self.execute_flow(inst, rnd),
            Instruction::SExy(..) => self.execute_flow(inst, rnd),
            Instruction::SNExy(..) => self.execute_flow(inst, rnd),
            Instruction::JPV0Addr(..) => self.execute_flow(inst, rnd),
            Instruction::SKPx(..) => self.execute_flow(inst, rnd),
            Instruction::SKPNPx(..) => self.execute_flow(inst, rnd),
            Instruction::LDxK(..) => self.execute_flow(inst, rnd),
            Instruction::LDxByte(..) => self.execute_alu(inst, rnd),
            Instruction::ADDxByte(..) => self.execute_alu(inst, rnd),
            Instruction::LDxy(..) => self.execute_alu(inst, rnd),
            Instruction::ORxy(..) => self.execute_alu(inst, rnd),
            Instruction::ANDxy(..) => self.execute_alu(inst, rnd),
            Instruction::XORxy(..) => self.execute_alu(inst, rnd),
            Instruction::ADDxy(..) => self.execute_arith(inst, rnd),
            Instruction::SUBxy(..) => self.execute_arith(inst, rnd),
            Instruction::SHRxy(..) => self.execute_arith(inst, rnd),
            Instruction::SUBNxy(..) => self.execute_arith(inst, rnd),
            Instruction::SHLxy(..) => self.execute_arith(inst, rnd),
            Instruction::RNDxByte(..) => self.execute_alu(inst, rnd),
            Instruction::LDIAddr(..) => self.execute_mem(inst, rnd),
            Instruction::ADDIx(..) => self.execute_mem(inst, rnd),
            Instruction::LDFx(..) => self.execute_mem(inst, rnd),
            Instruction::LDBx(..) => self.execute_mem(inst, rnd),
            Instruction::LDIx(..) => self.execute_mem(inst, rnd),
            Instruction::LDxI(..) => self.execute_mem(inst, rnd),
            Instruction::DRWxyn(..) => self.execute_mem(inst, rnd),
            Instruction::LDxDt(..) => self.execute_timers(inst, rnd),
            Instruction::LDDTx(..) => self.execute_timers(inst, rnd),
            Instruction::LDSTx(..) => self.execute_timers(inst, rnd),
        }
    }

    /// Control flow and keyboard instructions.
    fn execute_flow(&mut self, inst: Instruction, _rnd: u8) -> (r: Result<(), Chip8Error>)
        requires
            old(self).wf(),
            inst.wf(),
            old(self)@.pc < 4095,
            inst is CLS
            || inst is RET
            || inst is SYS
            || inst is JPAddr
            || inst is CALLAddr
            || inst is SExByte
            || inst is SNExByte
            || inst is SExy
            || inst is SNExy
            || inst is JPV0Addr
            || inst is SKPx
            || inst is SKPNPx
            || inst is LDxK,
        ensures
            final(self).wf(),
            match r {
                Ok(()) => exec_spec(old(self)@, inst, _rnd) == Ok::<CpuState, Chip8Error>(
                    final(self)@,
                ),
                Err(e) => exec_spec(old(self)@, inst, _rnd) == Err::<CpuState, Chip8Error>(e)
                    && final(self)@ == old(self)@,
            },
    {
        match inst {
            Instruction::CLS => {
                self.framebuffer.clear();
                self.program_counter = self.program_counter + 2;
                Ok(())
            },
            Instruction::RET => {
                if self.stack_pointer == 0 {
                    return Err(Chip8Error::StackUnderflow);
                }
                self.stack_pointer = self.stack_pointer - 1;
                self.program_counter = self.stack[self.stack_pointer as usize];
                Ok(())
            },
            Instruction::SYS(_) => {
                self.program_counter = self.program_counter + 2;
                Ok(())
            },
            Instruction::JPAddr(a) => {
                self.program_counter = a;
                Ok(())
            },
            Instruction::CALLAddr(a) => {
                if self.stack_pointer >= 16 {
                    return Err(Chip8Error::StackOverflow);
                }
                self.stack.set(self.stack_pointer as usize, self.program_counter + 2);
                self.stack_pointer = self.stack_pointer + 1;
                self.program_counter = a;
                Ok(())
            },
            Instruction::SExByte(x, b) => {
                if self.registers[x as usize] == b {
                    self.program_counter = self.program_counter + 4;
                } else {
                    self.program_counter = self.program_counter + 2;
                }
                Ok(())
            },
            Instruction::SNExByte(x, b) => {
                if self.registers[x as usize] != b {
                    self.program_counter = self.program_counter + 4;
                } else {
                    self.program_counter = self.program_counter + 2;
                }
                Ok(())
            },
            Instruction::SExy(x, y) => {
                if self.registers[x as usize] == self.registers[y as usize] {
                    self.program_counter = self.program_counter + 4;
                } else {
                    self.program_counter = self.program_counter + 2;
                }
                Ok(())
            },
            Instruction::SNExy(x, y) => {
                if self.registers[x as usize] != self.registers[y as usize] {
                    self.program_counter = self.program_counter + 4;
                } else {
                    self.program_counter = self.program_counter + 2;
                }
                Ok(())
            },
            Instruction::JPV0Addr(a) => {
                self.program_counter = a + (self.registers[0] as u16);
                Ok(())
            },
            Instruction::SKPx(x) => {
                let key = self.registers[x as usize] % 16;
                if (self.keyboard >> (key as u16)) & 1 == 1 {
                    self.program_counter = self.program_counter + 4;
                } else {
                    self.program_counter = self.program_counter + 2;
                }
                Ok(())
            },
            Instruction::SKPNPx(x) => {
                let key = self.registers[x as usize] % 16;
                if (self.keyboard >> (key as u16)) & 1 == 1 {
                    self.program_counter = self.program_counter + 2;
                } else {
                    self.program_counter = self.program_counter + 4;
                }
                Ok(())
            },
            Instruction::LDxK(x) => {
                let k = find_first_key(self.keyboard);
                if k < 16 {
                    self.registers.set(x as usize, k);
                    self.program_counter = self.program_counter + 2;
                }
                Ok(())
            },
            _ => {
                proof {
                    assert(false);
                }
                Err(Chip8Error::InvalidOpcode(0))
            },
        }
    }

    /// Register loads, arithmetic, logic and the random mask.
    fn execute_alu(&mut self, inst: Instruction, rnd: u8) -> (r: Result<(), Chip8Error>)
        requires
            old(self).wf(),
            inst.wf(),
            old(self)@.pc < 4095,
            inst is LDxByte
            || inst is ADDxByte
            || inst is LDxy
            || inst is ORxy
            || inst is ANDxy
            || inst is XORxy
            || inst is RNDxByte,
        ensures
            final(self).wf(),
            match r {
                Ok(()) => exec_spec(old(self)@, inst, rnd) == Ok::<CpuState, Chip8Error>(
                    final(self)@,
                ),
                Err(e) => exec_spec(old(self)@, inst, rnd) == Err::<CpuState, Chip8Error>(e)
                    && final(self)@ == old(self)@,
            },
    {
        match inst {
            Instruction::LDxByte(x, b) => {
                self.registers.set(x as usize, b);
                self.program_counter = self.program_counter + 2;
                Ok(())
            },
            Instruction::ADDxByte(x, b) => {
                let vx = self.registers[x as usize];
                let sum: u16 = vx as u16 + b as u16;
                self.registers.set(x as usize, (sum % 256) as u8);
                self.program_counter = self.program_counter + 2;
                Ok(())
            },
            Instruction::LDxy(x, y) => {
                self.registers.set(x as usize, self.registers[y as usize]);
                self.program_counter = self.program_counter + 2;
                Ok(())
            },
            Instruction::ORxy(x, y) => {
                let v = self.registers[x as usize] | self.registers[y as usize];
                self.registers.set(x as usize, v);
                self.program_counter = self.program_counter + 2;
                Ok(())
            },
            Instruction::ANDxy(x, y) => {
                let v = self.registers[x as usize] & self.registers[y as usize];
                self.registers.set(x as usize, v);
                self.program_counter = self.program_counter + 2;
                Ok(())
            },
            Instruction::XORxy(x, y) => {
                let v = self.registers[x as usize] ^ self.registers[y as usize];
                self.registers.set(x as usize, v);
                self.program_counter = self.program_counter + 2;
                Ok(())
            },
            Instruction::RNDxByte(x, b) => {
                self.registers.set(x as usize, rnd & b);
                self.program_counter = self.program_counter + 2;
                Ok(())
            },
            _ => {
                proof {
                    assert(false);
                }
                Err(Chip8Error::InvalidOpcode(0))
            },
        }
    }

    /// Flagged arithmetic and shifts: `VF` takes the carry, borrow or
    /// shifted-out bit, then `Vx` the result.
    fn execute_arith(&mut self, inst: Instruction, _rnd: u8) -> (r: Result<(), Chip8Error>)
        requires
            old(self).wf(),
            inst.wf(),
            old(self)@.pc < 4095,
            inst is ADDxy || inst is SUBxy || inst is SHRxy || inst is SUBNxy || inst is SHLxy,
        ensures
            final(self).wf(),
            match r {
                Ok(()) => exec_spec(old(self)@, inst, _rnd) == Ok::<CpuState, Chip8Error>(
                    final(self)@,
                ),
                Err(e) => exec_spec(old(self)@, inst, _rnd) == Err::<CpuState, Chip8Error>(e)
                    && final(self)@ == old(self)@,
            },
    {
        match inst {
            Instruction::ADDxy(x, y) => {
                let vx = self.registers[x as usize];
                let vy = self.registers[y as usize];
                let sum: u16 = vx as u16 + vy as u16;
                let flag: u8 = if sum > 255 {
                    1
                } else {
                    0
                };
                self.registers.set(15, flag);
                self.registers.set(x as usize, (sum % 256) as u8);
                self.program_counter = self.program_counter + 2;
                Ok(())
            },
            Instruction::SUBxy(x, y) => {
                let vx = self.registers[x as usize];
                let vy = self.registers[y as usize];
                let flag: u8 = if vx >= vy {
                    1
                } else {
                    0
                };
                let diff: u16 = (vx as u16 + 256) - (vy as u16);
                proof {
                    vstd::arithmetic::div_mod::lemma_mod_add_multiples_vanish(
                        vx - vy,
                        256,
                    );
                }
                self.registers.set(15, flag);
                self.registers.set(x as usize, (diff % 256) as u8);
                self.program_counter = self.program_counter + 2;
                Ok(())
            },
            Instruction::SHRxy(x, _y) => {
                let vx = self.registers[x as usize];
                self.registers.set(15, vx & 1);
                self.registers.set(x as usize, vx >> 1);
                self.program_counter = self.program_counter + 2;
                Ok(())
            },
            Instruction::SUBNxy(x, y) => {
                let vx = self.registers[x as usize];
                let vy = self.registers[y as usize];
                let flag: u8 = if vy >= vx {
                    1
                } else {
                    0
                };
                let diff: u16 = (vy as u16 + 256) - (vx as u16);
                proof {
                    vstd::arithmetic::div_mod::lemma_mod_add_multiples_vanish(
                        vy - vx,
                        256,
                    );
                }
                self.registers.set(15, flag);
                self.registers.set(x as usize, (diff % 256) as u8);
                self.program_counter = self.program_counter + 2;
                Ok(())
            },
            Instruction::SHLxy(x, _y) => {
                let vx = self.registers[x as usize];
                self.registers.set(15, (vx & 0x80) >> 7);
                self.registers.set(x as usize, vx << 1);
                self.program_counter = self.program_counter + 2;
                Ok(())
            },
            _ => {
                proof {
                    assert(false);
                }
                Err(Chip8Error::InvalidOpcode(0))
            },
        }
    }

    /// Index-register and memory instructions, including sprite drawing.
    fn execute_mem(&mut self, inst: Instruction, _rnd: u8) -> (r: Result<(), Chip8Error>)
        requires
            old(self).wf(),
            inst.wf(),
            old(self)@.pc < 4095,
            inst is LDIAddr
            || inst is ADDIx
            || inst is LDFx
            || inst is LDBx
            || inst is LDIx
            || inst is LDxI
            || inst is DRWxyn,
        ensures
            final(self).wf(),
            match r {
                Ok(()) => exec_spec(old(self)@, inst, _rnd) == Ok::<CpuState, Chip8Error>(
                    final(self)@,
                ),
                Err(e) => exec_spec(old(self)@, inst, _rnd) == Err::<CpuState, Chip8Error>(e)
                    && final(self)@ == old(self)@,
            },
    {
        match inst {
            Instruction::LDIAddr(a) => {
                self.i = a;
                self.program_counter = self.program_counter + 2;
                Ok(())
            },
            Instruction::ADDIx(x) => {
                let vx = self.registers[x as usize];
                self.i = (self.i + vx as u16) % 0x1000;
                self.program_counter = self.program_counter + 2;
                Ok(())
            },
            Instruction::LDFx(x) => {
                let vx = self.registers[x as usize];
                self.i = 5 * ((vx % 16) as u16);
                self.program_counter = self.program_counter + 2;
                Ok(())
            },
            Instruction::LDBx(x) => {
                let vx = self.registers[x as usize];
                let mut d: Vec<u8> = Vec::new();
                d.push(vx / 100);
                d.push((vx / 10) % 10);
                d.push(vx % 10);
                proof {
                    assert(d@ =~= seq![
                        (old(self)@.regs[x as int] / 100) as u8,
                        ((old(self)@.regs[x as int] / 10) % 10) as u8,
                        (old(self)@.regs[x as int] % 10) as u8,
                    ]);
                }
                match self.memory.write_slice(self.i, &d) {
                    Err(e) => Err(e),
                    Ok(()) => {
                        self.program_counter = self.program_counter + 2;
                        Ok(())
                    },
                }
            },
            Instruction::LDIx(x) => {
                let d = copy_regs_prefix(&self.registers, (x as usize) + 1);
                match self.memory.write_slice(self.i, &d) {
                    Err(e) => Err(e),
                    Ok(()) => {
                        self.program_counter = self.program_counter + 2;
                        Ok(())
                    },
                }
            },
            Instruction::LDxI(x) => {
                match self.memory.get_slice(self.i, (x as u16) + 1) {
                    Err(e) => Err(e),
                    Ok(rows) => {
                        load_regs_prefix(&mut self.registers, &rows);
                        self.program_counter = self.program_counter + 2;
                        Ok(())
                    },
                }
            },
            Instruction::DRWxyn(x, y, n) => {
                let vx = self.registers[x as usize];
                let vy = self.registers[y as usize];
                match self.memory.get_slice(self.i, n as u16) {
                    Err(e) => Err(e),
                    Ok(rows) => {
                        let col = self.framebuffer.draw_at(vx, vy, rows.as_slice());
                        let flag: u8 = if col {
                            1
                        } else {
                            0
                        };
                        self.registers.set(15, flag);
                        self.program_counter = self.program_counter + 2;
                        Ok(())
                    },
                }
            },
            _ => {
                proof {
                    assert(false);
                }
                Err(Chip8Error::InvalidOpcode(0))
            },
        }
    }

    /// Timer transfer instructions.
    fn execute_timers(&mut self, inst: Instruction, _rnd: u8) -> (r: Result<(), Chip8Error>)
        requires
            old(self).wf(),
            inst.wf(),
            old(self)@.pc < 4095,
            inst is LDxDt
            || inst is LDDTx
            || inst is LDSTx,
        ensures
            final(self).wf(),
            match r {
                Ok(()) => exec_spec(old(self)@, inst, _rnd) == Ok::<CpuState, Chip8Error>(
                    final(self)@,
                ),
                Err(e) => exec_spec(old(self)@, inst, _rnd) == Err::<CpuState, Chip8Error>(e)
                    && final(self)@ == old(self)@,
            },
    {
        match inst {
            Instruction::LDxDt(x) => {
                self.registers.set(x as usize, self.delay_timer);
                self.program_counter = self.program_counter + 2;
                Ok(())
            },
            Instruction::LDDTx(x) => {
                self.delay_timer = self.registers[x as usize];
                self.program_counter = self.program_counter + 2;
                Ok(())
            },
            Instruction::LDSTx(x) => {
                self.sound_timer = self.registers[x as usize];
                self.program_counter = self.program_counter + 2;
                Ok(())
            },
            _ => {
                proof {
                    assert(false);
                }
                Err(Chip8Error::InvalidOpcode(0))
            },
        }
    }

    /// One whole fetch-decode-execute step, exactly as `step_spec` says,
    /// for the given random byte; on an error the state is left untouched.
    pub fn step_with(&mut self, rnd: u8) -> (r: Result<(), Chip8Error>)
        requires
            old(self).wf(),
        ensures
            final(self).wf(),
            match r {
                Ok(()) => step_spec(old(self)@, rnd) == Ok::<CpuState, Chip8Error>(
                    final(self)@,
                ),
                Err(e) => step_spec(old(self)@, rnd) == Err::<CpuState, Chip8Error>(e)
                    && final(self)@ == old(self)@,
            },
    {
        if self.program_counter >= 4095 {
            return Err(Chip8Error::BadProgramCounter(self.program_counter));
        }
        let w = match self.memory.get(self.program_counter as usize) {
            Some(w) => w,
            None => {
                proof {
                    assert(false);
                }
                return Err(Chip8Error::BadProgramCounter(self.program_counter));
            },
        };
        let inst = match Instruction::decode(w) {
            Ok(inst) => inst,
            Err(e) => {
                return Err(e);
            },
        };
        self.execute(inst, rnd)
    }

    /// One whole fetch-decode-execute step, with the `RND` byte drawn from
    /// the host's entropy source: the result follows `step_spec` for some
    /// byte value.
    pub fn step(&mut self) -> (r: Result<(), Chip8Error>)
        requires
            old(self).wf(),
        ensures
            final(self).wf(),
            exists|rnd: u8| #[trigger] step_outcome(old(self)@, final(self)@, rnd, r),
    {
        let rnd = random_byte();
        let r = self.step_with(rnd);
        proof {
            assert(step_outcome(old(self)@, self@, rnd, r));
        }
        r
    }
}

/// The digit value of a hexadecimal character `0`-`9`, `a`-`f`, or 16 for
/// any other character.
pub open spec fn hex_char_val(c: char) -> int {
    if c == '0' {
        0
    } else if c == '1' {
        1
    } else if c == '2' {
        2
    } else if c == '3' {
        3
    } else if c == '4' {
        4
    } else if c == '5' {
        5
    } else if c == '6' {
        6
    } else if c == '7' {
        7
    } else if c == '8' {
        8
    } else if c == '9' {
        9
    } else if c == 'a' {
        10
    } else if c == 'b' {
        11
    } else if c == 'c' {
        12
    } else if c == 'd' {
        13
    } else if c == 'e' {
        14
    } else if c == 'f' {
        15
    } else {
        16
    }
}

impl Default for Processor {
    /// A fresh machine: everything zero, the font resident, the screen
    /// blank. The program counter is set when a ROM is loaded.
    fn default() -> (p: Processor)
        ensures
            p.wf(),
            p@ == fresh_state(),
    {
        let mut registers: Vec<u8> = Vec::new();
        for j in 0..16usize
            invariant
                registers@.len() == j,
                forall|t: int| 0 <= t < j ==> registers@[t] == 0u8,
        {
            registers.push(0);
        }
        let mut stack: Vec<u16> = Vec::new();
        for j in 0..16usize
            invariant
                stack@.len() == j,
                forall|t: int| 0 <= t < j ==> stack@[t] == 0u16,
        {
            stack.push(0);
        }
        let p = Processor {
            registers,
            i: 0,
            delay_timer: 0,
            sound_timer: 0,
            program_counter: 0,
            stack_pointer: 0,
            stack,
            memory: Memory::default(),
            framebuffer: FrameBuffer::new(),
            keyboard: 0,
        };
        proof {
            assert(p@.regs =~= fresh_state().regs);
            assert(p@.stack =~= fresh_state().stack);
        }
        p
    }
}

} // verus!
