//! The executable machine.

use vstd::prelude::*;
use crate::font::{font, font_table};
use crate::instruction::Instruction;
use crate::rng::{self, Rng};
use crate::state::{
    bit_weight, first_pressed, row_bit, saturating_sub, Fault, Sprite, State, TIMER_PERIOD_NANOS,
};
use crate::time::{as_nanos, duration_nanos};
use std::time::Duration;

verus! {

/// A CHIP-8 machine: 4 KiB of memory, sixteen registers, a call stack, two
/// timers, a 64 by 32 framebuffer and a 16-key keypad.
pub struct Chip8 {
    ram: [u8; 4096],
    pc: u16,
    v: [u8; 16],
    i: u16,
    stack: [u16; 16],
    sp: u8,
    delay_timer: u8,
    sound_timer: u8,
    vram: [bool; 2048],
    vram_changed: bool,
    keys: [bool; 16],
    duration_until_next_execute: u64,
    duration_until_next_timer: u64,
    rng: Rng,
}

/// What a tick asks of the host.
#[derive(Clone, Copy, Debug, PartialEq, Eq, Structural)]
pub struct Chip8TickResult {
    /// The framebuffer changed and should be presented again.
    pub vram_changed: bool,
    /// A beep should sound for one frame.
    pub beep: bool,
}

/// Whether the sprite collides with `vram` at some index below `bound`.
spec fn collides_below(sprite: Sprite, vram: Seq<bool>, bound: int) -> bool {
    exists|k: int| 0 <= k < 2048 && k < bound && vram[k] && #[trigger] sprite.lit_at(k)
}

/// Whether the sprite has a set pixel at some index below `bound`.
spec fn visible_below(sprite: Sprite, bound: int) -> bool {
    exists|k: int| 0 <= k < 2048 && k < bound && #[trigger] sprite.lit_at(k)
}

/// Shifting a row right until bit `b` is the lowest and masking it tells
/// whether that bit is set.
proof fn lemma_row_bit(row: u8, b: u8)
    requires
        b < 8,
    ensures
        ((row >> (7 - b)) & 1 == 1) == row_bit(row, b as int),
{
    let shift: u8 = (7 - b) as u8;
    let weight: u8 = bit_weight(b as int) as u8;
    assert(1u8 << 0u8 == 1 && 1u8 << 1u8 == 2 && 1u8 << 2u8 == 4 && 1u8 << 3u8 == 8 && 1u8 << 4u8
        == 16 && 1u8 << 5u8 == 32 && 1u8 << 6u8 == 64 && 1u8 << 7u8 == 128) by (bit_vector);
    assert(((row >> shift) & 1 == 1) == ((row / weight) % 2 == 1)) by (bit_vector)
        requires
            shift < 8,
            weight == 1u8 << shift,
    ;
}

/// Between the end of the sprite's pixels in one display row and their start
/// in the next, the sprite has no set pixel.
proof fn lemma_row_gap(sprite: Sprite, vram: Seq<bool>, py: int, end: int)
    requires
        0 <= sprite.x < 64,
        0 <= py < 32,
        end == sprite.x + 8 || end == 64,
        sprite.x <= end,
    ensures
        collides_below(sprite, vram, py * 64 + end) == collides_below(
            sprite,
            vram,
            (py + 1) * 64 + sprite.x,
        ),
        visible_below(sprite, py * 64 + end) == visible_below(sprite, (py + 1) * 64 + sprite.x),
        forall|k: int|
            py * 64 + end <= k < (py + 1) * 64 + sprite.x ==> !#[trigger] sprite.lit_at(k),
{
    assert forall|k: int| py * 64 + end <= k < (py + 1) * 64 + sprite.x implies !#[trigger]
    sprite.lit_at(k) by {
        if k / 64 == py {
            assert(k % 64 >= end);
        } else {
            assert(k / 64 == py + 1);
            assert(k % 64 < sprite.x);
        }
    }
}

/// Once the bound has passed the sprite's last visible row, the bounded
/// notions agree with the unbounded ones.
proof fn lemma_below_all(sprite: Sprite, vram: Seq<bool>, bound: int)
    requires
        0 <= sprite.x < 64,
        0 <= sprite.y,
        bound >= (sprite.y + sprite.rows.len()) * 64 || bound >= 2048,
    ensures
        collides_below(sprite, vram, bound) == sprite.collides(vram),
        visible_below(sprite, bound) == sprite.visible(),
        forall|k: int| 0 <= k < 2048 && #[trigger] sprite.lit_at(k) ==> k < bound,
{
    assert forall|k: int| 0 <= k < 2048 && #[trigger] sprite.lit_at(k) implies k < bound by {
        assert(k / 64 < sprite.y + sprite.rows.len());
    }
}

impl Chip8 {
    /// The architectural state that this machine is in.
    pub closed spec fn view(&self) -> State {
        State {
            ram: self.ram@,
            v: self.v@,
            i: self.i as int,
            pc: self.pc as int,
            stack: Seq::new(16, |k: int| self.stack@[k] as int),
            sp: self.sp as int,
            delay_timer: self.delay_timer,
            sound_timer: self.sound_timer,
            vram: self.vram@,
            vram_changed: self.vram_changed,
            keys: self.keys@,
            next_instruction_delay: self.duration_until_next_execute as nat,
            next_timer_tick_delay: self.duration_until_next_timer as nat,
            rng: self.rng@,
        }
    }

    /// A machine in its initial state whose random bytes come from `rng`.
    pub fn with_rng(rng: Rng) -> (chip: Chip8)
        ensures
            chip@ == State::initial(rng@),
            chip@.wf(),
    {
        let glyphs = font();
        let mut ram = [0u8;4096];
        let mut a: usize = 0;
        while a < 80
            invariant
                a <= 80,
                glyphs@ == font_table(),
                forall|k: int| 0 <= k < a ==> ram@[k] == font_table()[k],
                forall|k: int| a <= k < 4096 ==> ram@[k] == 0,
            decreases 80 - a,
        {
            ram[a] = glyphs[a];
            a += 1;
        }
        let chip = Chip8 {
            ram,
            pc: 0x200,
            v: [0u8;16],
            i: 0,
            stack: [0u16;16],
            sp: 0,
            delay_timer: 0,
            sound_timer: 0,
            vram: [false;2048],
            vram_changed: false,
            keys: [false;16],
            duration_until_next_execute: 0,
            duration_until_next_timer: 0,
            rng,
        };
        chip
    }

    /// A machine in its initial state: memory zeroed but for the font at
    /// address 0, the program counter at 0x200.
    pub fn new() -> (chip: Chip8)
        ensures
            chip@ == State::initial(rng::DEFAULT_SEED),
            chip@.wf(),
    {
        Chip8::with_rng(Rng::new(rng::DEFAULT_SEED))
    }

    /// Copies a program into memory, starting at address 0x200.
    pub fn load_rom(&mut self, rom_data: &[u8])
        requires
            old(self)@.wf(),
            rom_data@.len() <= 3584,
        ensures
            final(self)@ == old(self)@.with_rom(rom_data@),
            final(self)@.wf(),
    {
        let mut k: usize = 0;
        while k < rom_data.len()
            invariant
                k <= rom_data@.len() <= 3584,
                self@ == (State { ram: self@.ram, ..old(self)@ }),
                self@.ram.len() == 4096,
                forall|a: int|
                    0 <= a < 4096 ==> self@.ram[a] == if 0x200 <= a < 0x200 + k {
                        rom_data@[a - 0x200]
                    } else {
                        old(self)@.ram[a]
                    },
            decreases rom_data@.len() - k,
        {
            self.ram[0x200 + k] = rom_data[k];
            k += 1;
        }
    }

    /// Records that key `index` is pressed or released.
    pub fn set_key(&mut self, index: u8, pressed: bool)
        requires
            old(self)@.wf(),
            index <= 15,
        ensures
            final(self)@ == old(self)@.with_key(index as int, pressed),
            final(self)@.wf(),
    {
        self.keys[index as usize] = pressed;
    }

    /// The lowest pressed key, or 16 if no key is pressed.
    fn lowest_pressed_key(&self) -> (key: u8)
        ensures
            key == first_pressed(self@.keys, 0),
            key <= 16,
    {
        let mut k: u8 = 0;
        while k < 16
            invariant
                k <= 16,
                first_pressed(self@.keys, 0) == first_pressed(self@.keys, k as int),
            decreases 16 - k,
        {
            if self.keys[k as usize] {
                return k;
            }
            k += 1;
        }
        k
    }

    /// Tells whether `instr` can be carried out in the current state, and
    /// if not, why.
    pub fn fault(&self, instr: Instruction) -> (fault: Option<Fault>)
        requires
            self@.wf(),
            instr.wf(),
        ensures
            fault == self@.fault(instr),
    {
        assert(self@ == (State { pc: self.pc as int, ..self@ }));
        self.fault_at(self.pc, instr)
    }

    /// The fault of `instr` in the current state with the program counter
    /// at `pc` instead.
    fn fault_at(&self, pc: u16, instr: Instruction) -> (fault: Option<Fault>)
        requires
            self@.wf(),
            instr.wf(),
        ensures
            fault == (State { pc: pc as int, ..self@ }).fault(instr),
    {
        match instr {
            Instruction::Ret => if self.sp == 0 {
                Some(Fault::StackUnderflow)
            } else {
                None
            },
            Instruction::Call { .. } => if self.sp >= 16 {
                Some(Fault::StackOverflow)
            } else {
                None
            },
            Instruction::SeImm { x, nn } => Self::skip_fault(pc, self.v[x as usize] == nn),
            Instruction::SneImm { x, nn } => Self::skip_fault(pc, self.v[x as usize] != nn),
            Instruction::SeReg { x, y } => Self::skip_fault(
                pc,
                self.v[x as usize] == self.v[y as usize],
            ),
            Instruction::SneReg { x, y } => Self::skip_fault(
                pc,
                self.v[x as usize] != self.v[y as usize],
            ),
            Instruction::Skp { x } => {
                let key = self.v[x as usize];
                if key > 15 {
                    Some(Fault::KeyOutOfRange)
                } else {
                    Self::skip_fault(pc, self.keys[key as usize])
                }
            },
            Instruction::Sknp { x } => {
                let key = self.v[x as usize];
                if key > 15 {
                    Some(Fault::KeyOutOfRange)
                } else {
                    Self::skip_fault(pc, !self.keys[key as usize])
                }
            },
            Instruction::LdVxK { .. } => if pc < 2 && self.lowest_pressed_key() == 16 {
                Some(Fault::PcOutOfRange)
            } else {
                None
            },
            Instruction::LdB { .. } => if self.i as usize + 2 >= 4096 {
                Some(Fault::MemoryOutOfRange)
            } else {
                None
            },
            Instruction::StoreRegs { x } | Instruction::LoadRegs { x } => if self.i as usize
                + x as usize >= 4096 {
                Some(Fault::MemoryOutOfRange)
            } else {
                None
            },
            Instruction::Drw { y, n, .. } => {
                let top = self.v[y as usize] % 32;
                let rows = if n <= 32 - top {
                    n
                } else {
                    32 - top
                };
                if self.i as usize + rows as usize > 4096 {
                    Some(Fault::MemoryOutOfRange)
                } else {
                    None
                }
            },
            _ => None,
        }
    }

    /// The fault of a skip taken at `pc`: none unless the skip is taken and
    /// would carry the program counter out of its range.
    fn skip_fault(pc: u16, taken: bool) -> (fault: Option<Fault>)
        ensures
            fault == if taken && pc + 2 > 0xFFFF {
                Some(Fault::PcOutOfRange)
            } else {
                None
            },
    {
        if taken && pc > 0xFFFD {
            Some(Fault::PcOutOfRange)
        } else {
            None
        }
    }

    /// `Vx <- value`, then `VF <- flag`.
    fn write_reg_then_flag(&mut self, x: u8, value: u8, flag: u8)
        requires
            x < 16,
        ensures
            final(self)@ == old(self)@.set_reg_then_flag(x, value, flag),
    {
        self.v[x as usize] = value;
        self.v[0xF] = flag;
    }

    /// Skips the next instruction if `taken`.
    fn skip_if(&mut self, taken: bool)
        requires
            taken ==> old(self).pc + 2 <= 0xFFFF,
        ensures
            final(self)@ == old(self)@.skip_if(taken),
    {
        if taken {
            self.pc = self.pc + 2;
        }
    }

    /// Carries out the arithmetic and logic instructions `8xy0` to `8xyE`.
    fn execute_alu(&mut self, instr: Instruction)
        requires
            old(self)@.wf(),
            instr.wf(),
            instr is LdReg || instr is Or || instr is And || instr is Xor || instr is AddReg
                || instr is Sub || instr is Shr || instr is Subn || instr is Shl,
        ensures
            final(self)@ == old(self)@.effect(instr),
            final(self)@.wf(),
    {
        match instr {
            Instruction::LdReg { x, y } => {
                self.v[x as usize] = self.v[y as usize];
            },
            Instruction::Or { x, y } => {
                let value = self.v[x as usize] | self.v[y as usize];
                self.write_reg_then_flag(x, value, 0);
            },
            Instruction::And { x, y } => {
                let value = self.v[x as usize] & self.v[y as usize];
                self.write_reg_then_flag(x, value, 0);
            },
            Instruction::Xor { x, y } => {
                let value = self.v[x as usize] ^ self.v[y as usize];
                self.write_reg_then_flag(x, value, 0);
            },
            Instruction::AddReg { x, y } => {
                let a = self.v[x as usize];
                let b = self.v[y as usize];
                let carry: u8 = if a > 255 - b {
                    1
                } else {
                    0
                };
                self.write_reg_then_flag(x, a.wrapping_add(b), carry);
            },
            Instruction::Sub { x, y } => {
                let a = self.v[x as usize];
                let b = self.v[y as usize];
                let no_borrow: u8 = if a >= b {
                    1
                } else {
                    0
                };
                self.write_reg_then_flag(x, a.wrapping_sub(b), no_borrow);
            },
            Instruction::Subn { x, y } => {
                let a = self.v[x as usize];
                let b = self.v[y as usize];
                let no_borrow: u8 = if b >= a {
                    1
                } else {
                    0
                };
                self.write_reg_then_flag(x, b.wrapping_sub(a), no_borrow);
            },
            Instruction::Shr { x, y } => {
                let b = self.v[y as usize];
                assert(b >> 1 == b / 2 && b & 1 == b % 2) by (bit_vector);
                self.write_reg_then_flag(x, b >> 1, b & 1);
            },
            Instruction::Shl { x, y } => {
                let b = self.v[y as usize];
                assert(b << 1 == ((b * 2) % 256) as u8 && (b >> 7) & 1 == b / 128) by (bit_vector);
                self.write_reg_then_flag(x, b << 1, (b >> 7) & 1);
            },
            _ => {},
        }
    }

    /// Stores the three decimal digits of `Vx` at `I`, `I + 1` and `I + 2`.
    fn store_bcd(&mut self, x: u8)
        requires
            old(self)@.wf(),
            x < 16,
            old(self).i + 2 < 4096,
        ensures
            final(self)@ == old(self)@.effect(Instruction::LdB { x }),
            final(self)@.wf(),
    {
        let value = self.v[x as usize];
        let at = self.i as usize;
        self.ram[at] = value / 100;
        self.ram[at + 1] = (value / 10) % 10;
        self.ram[at + 2] = value % 10;
    }

    /// Stores `V0..=Vx` in memory at `I` and advances `I` past them.
    fn store_regs(&mut self, x: u8)
        requires
            old(self)@.wf(),
            x < 16,
            old(self).i + x < 4096,
        ensures
            final(self)@ == old(self)@.effect(Instruction::StoreRegs { x }),
            final(self)@.wf(),
    {
        let base = self.i as usize;
        let mut k: usize = 0;
        while k <= x as usize
            invariant
                k <= x + 1,
                x < 16,
                base == old(self).i,
                base + x < 4096,
                self@ == (State { ram: self@.ram, ..old(self)@ }),
                forall|a: int|
                    0 <= a < 4096 ==> self@.ram[a] == if base <= a < base + k {
                        old(self)@.v[a - base]
                    } else {
                        old(self)@.ram[a]
                    },
            decreases x + 1 - k,
        {
            self.ram[base + k] = self.v[k];
            k += 1;
        }
        self.i = self.i + x as u16 + 1;
    }

    /// Loads `V0..=Vx` from memory at `I` and advances `I` past them.
    fn load_regs(&mut self, x: u8)
        requires
            old(self)@.wf(),
            x < 16,
            old(self).i + x < 4096,
        ensures
            final(self)@ == old(self)@.effect(Instruction::LoadRegs { x }),
            final(self)@.wf(),
    {
        let base = self.i as usize;
        let mut k: usize = 0;
        while k <= x as usize
            invariant
                k <= x + 1,
                x < 16,
                base == old(self).i,
                base + x < 4096,
                self@ == (State { v: self@.v, ..old(self)@ }),
                forall|r: int|
                    0 <= r < 16 ==> self@.v[r] == if r < k {
                        old(self)@.ram[base + r]
                    } else {
                        old(self)@.v[r]
                    },
            decreases x + 1 - k,
        {
            self.v[k] = self.ram[base + k];
            k += 1;
        }
        self.i = self.i + x as u16 + 1;
    }

    /// Waits for a key: stores the lowest pressed key in `Vx`, or moves the
    /// program counter back onto this instruction if no key is pressed.
    fn wait_key(&mut self, x: u8)
        requires
            old(self)@.wf(),
            x < 16,
            old(self)@.fault(Instruction::LdVxK { x }) is None,
        ensures
            final(self)@ == old(self)@.effect(Instruction::LdVxK { x }),
            final(self)@.wf(),
    {
        let key = self.lowest_pressed_key();
        if key < 16 {
            self.v[x as usize] = key;
        } else {
            self.pc = self.pc - 2;
        }
    }

    /// Draws the `n`-row sprite at `I` at (`Vx` modulo 64, `Vy` modulo 32):
    /// XORs it into the framebuffer, clipped at the right and bottom edges,
    /// and sets `VF` to 1 if a lit pixel was turned off, else to 0.
    fn draw(&mut self, x: u8, y: u8, n: u8)
        requires
            old(self)@.wf(),
            x < 16,
            y < 16,
            n < 16,
            old(self)@.fault(Instruction::Drw { x, y, n }) is None,
        ensures
            final(self)@ == old(self)@.effect(Instruction::Drw { x, y, n }),
            final(self)@.wf(),
    {
        let left: usize = (self.v[x as usize] % 64) as usize;
        let top: usize = (self.v[y as usize] % 32) as usize;
        let base: usize = self.i as usize;
        let ghost sprite = self@.sprite(x, y, n);
        let ghost before = self@.vram;
        let mut collided = false;
        let mut touched = false;
        let mut row: usize = 0;
        while row < n as usize && top + row < 32
            invariant
                row <= n < 16,
                top + row <= 32,
                left < 64,
                sprite == old(self)@.sprite(x, y, n),
                sprite.x == left,
                sprite.y == top,
                sprite.rows.len() == State::visible_rows(old(self)@.v[y as int], n),
                before == old(self)@.vram,
                before.len() == 2048,
                base == old(self)@.i,
                base + sprite.rows.len() <= 4096,
                self@ == (State { vram: self@.vram, ..old(self)@ }),
                forall|k: int|
                    0 <= k < 2048 ==> self@.vram[k] == (before[k] != (sprite.lit_at(k) && k < (top
                        + row) * 64 + left)),
                collided == collides_below(sprite, before, (top + row) * 64 + left),
                touched == visible_below(sprite, (top + row) * 64 + left),
            decreases n - row,
        {
            let row_data = self.ram[base + row];
            let mut bit: u8 = 0;
            while bit < 8 && left + (bit as usize) < 64
                invariant
                    bit <= 8,
                    left + bit <= 64,
                    row < n < 16,
                    top + row < 32,
                    sprite.x == left,
                    sprite.y == top,
                    row < sprite.rows.len(),
                    row_data == sprite.rows[row as int],
                    before.len() == 2048,
                    self@ == (State { vram: self@.vram, ..old(self)@ }),
                    forall|k: int|
                        0 <= k < 2048 ==> self@.vram[k] == (before[k] != (sprite.lit_at(k) && k
                            < (top + row) * 64 + left + bit)),
                    collided == collides_below(sprite, before, (top + row) * 64 + left + bit),
                    touched == visible_below(sprite, (top + row) * 64 + left + bit),
                decreases 8 - bit,
            {
                let sprite_pixel = ((row_data >> (7 - bit)) & 1) == 1;
                let index: usize = (top + row) * 64 + left + bit as usize;
                let display_pixel = self.vram[index];
                proof {
                    lemma_row_bit(row_data, bit);
                }
                assert(sprite.lit_at(index as int) == sprite_pixel);
                if sprite_pixel {
                    if display_pixel {
                        collided = true;
                    }
                    self.vram[index] = !display_pixel;
                    touched = true;
                }
                bit += 1;
            }
            proof {
                lemma_row_gap(sprite, before, top as int + row, left as int + bit);
            }
            row += 1;
        }
        proof {
            lemma_below_all(sprite, before, (top + row) * 64 + left);
        }
        self.v[0xF] = if collided {
            1
        } else {
            0
        };
        if touched {
            self.vram_changed = true;
        }
    }

    /// Carries out the instructions that only move the program counter and
    /// the call stack: jumps, calls, returns and skips.
    fn execute_flow(&mut self, instr: Instruction)
        requires
            old(self)@.wf(),
            instr.wf(),
            old(self)@.fault(instr) is None,
            instr is Ret || instr is Jp || instr is Call || instr is JpV0 || instr is SeImm
                || instr is SneImm || instr is SeReg || instr is SneReg || instr is Skp
                || instr is Sknp,
        ensures
            final(self)@ == old(self)@.effect(instr),
            final(self)@.wf(),
    {
        match instr {
            Instruction::Ret => {
                self.sp = self.sp - 1;
                self.pc = self.stack[self.sp as usize];
            },
            Instruction::Jp { nnn } => {
                self.pc = nnn;
            },
            Instruction::Call { nnn } => {
                self.stack[self.sp as usize] = self.pc;
                self.sp = self.sp + 1;
                self.pc = nnn;
            },
            Instruction::JpV0 { nnn } => {
                self.pc = nnn + self.v[0] as u16;
            },
            Instruction::SeImm { x, nn } => {
                let taken = self.v[x as usize] == nn;
                self.skip_if(taken);
            },
            Instruction::SneImm { x, nn } => {
                let taken = self.v[x as usize] != nn;
                self.skip_if(taken);
            },
            Instruction::SeReg { x, y } => {
                let taken = self.v[x as usize] == self.v[y as usize];
                self.skip_if(taken);
            },
            Instruction::SneReg { x, y } => {
                let taken = self.v[x as usize] != self.v[y as usize];
                self.skip_if(taken);
            },
            Instruction::Skp { x } => {
                let taken = self.keys[self.v[x as usize] as usize];
                self.skip_if(taken);
            },
            Instruction::Sknp { x } => {
                let taken = !self.keys[self.v[x as usize] as usize];
                self.skip_if(taken);
            },
            _ => {},
        }
    }

    /// Carries out the instructions that load a register, a timer or the
    /// index register, and the two that touch nothing else: `NOP` and `CLS`.
    fn execute_load(&mut self, instr: Instruction)
        requires
            old(self)@.wf(),
            instr.wf(),
            instr is Nop || instr is Cls || instr is LdImm || instr is AddImm || instr is LdI
                || instr is Rnd || instr is LdVxDt || instr is LdDtVx || instr is LdStVx
                || instr is AddI || instr is LdF,
        ensures
            final(self)@ == old(self)@.effect(instr),
            final(self)@.wf(),
    {
        match instr {
            Instruction::Cls => {
                self.vram = [false;2048];
                self.vram_changed = true;
            },
            Instruction::LdImm { x, nn } => {
                self.v[x as usize] = nn;
            },
            Instruction::AddImm { x, nn } => {
                self.v[x as usize] = self.v[x as usize].wrapping_add(nn);
            },
            Instruction::LdI { nnn } => {
                self.i = nnn;
            },
            Instruction::Rnd { x, nn } => {
                let byte = self.rng.next_u8();
                self.v[x as usize] = byte & nn;
            },
            Instruction::LdVxDt { x } => {
                self.v[x as usize] = self.delay_timer;
            },
            Instruction::LdDtVx { x } => {
                self.delay_timer = self.v[x as usize];
            },
            Instruction::LdStVx { x } => {
                self.sound_timer = self.v[x as usize];
            },
            Instruction::AddI { x } => {
                let sum: u16 = self.i + self.v[x as usize] as u16;
                assert(sum & 0xFFF == sum % 0x1000) by (bit_vector);
                self.i = sum & 0xFFF;
                self.v[0xF] = if sum >= 0x1000 {
                    1
                } else {
                    0
                };
            },
            Instruction::LdF { x } => {
                let value = self.v[x as usize];
                assert(value & 0xF == value % 16) by (bit_vector);
                self.i = (value & 0xF) as u16 * 5;
            },
            _ => {},
        }
    }

    /// Carries out `instr` and starts its pacing delay.
    pub fn execute(&mut self, instr: Instruction)
        requires
            old(self)@.wf(),
            instr.wf(),
            old(self)@.fault(instr) is None,
        ensures
            final(self)@ == old(self)@.execute(instr),
            final(self)@.wf(),
    {
        match instr {
            Instruction::Ret
            | Instruction::Jp { .. }
            | Instruction::Call { .. }
            | Instruction::JpV0 { .. }
            | Instruction::SeImm { .. }
            | Instruction::SneImm { .. }
            | Instruction::SeReg { .. }
            | Instruction::SneReg { .. }
            | Instruction::Skp { .. }
            | Instruction::Sknp { .. } => {
                self.execute_flow(instr);
            },
            Instruction::Nop
            | Instruction::Cls
            | Instruction::LdImm { .. }
            | Instruction::AddImm { .. }
            | Instruction::LdI { .. }
            | Instruction::Rnd { .. }
            | Instruction::LdVxDt { .. }
            | Instruction::LdDtVx { .. }
            | Instruction::LdStVx { .. }
            | Instruction::AddI { .. }
            | Instruction::LdF { .. } => {
                self.execute_load(instr);
            },
            Instruction::LdReg { .. }
            | Instruction::Or { .. }
            | Instruction::And { .. }
            | Instruction::Xor { .. }
            | Instruction::AddReg { .. }
            | Instruction::Sub { .. }
            | Instruction::Shr { .. }
            | Instruction::Subn { .. }
            | Instruction::Shl { .. } => {
                self.execute_alu(instr);
            },
            Instruction::Drw { x, y, n } => {
                self.draw(x, y, n);
            },
            Instruction::LdVxK { x } => {
                self.wait_key(x);
            },
            Instruction::LdB { x } => {
                self.store_bcd(x);
            },
            Instruction::StoreRegs { x } => {
                self.store_regs(x);
            },
            Instruction::LoadRegs { x } => {
                self.load_regs(x);
            },
        }
        self.duration_until_next_execute = instr.delay_nanos();
    }

    /// Reads the instruction word at the program counter, high byte first,
    /// and moves the program counter past it.
    pub fn fetch(&mut self) -> (op: u16)
        requires
            old(self)@.wf(),
            old(self)@.pc + 1 < 4096,
        ensures
            op == old(self)@.opcode_at_pc(),
            final(self)@ == old(self)@.after_fetch(),
            final(self)@.wf(),
    {
        let first_byte = self.ram[self.pc as usize] as u16;
        let second_byte = self.ram[(self.pc + 1) as usize] as u16;
        self.pc = self.pc + 2;
        assert((first_byte << 8) | second_byte == first_byte * 256 + second_byte) by (bit_vector)
            requires
                first_byte < 256,
                second_byte < 256,
        ;
        (first_byte << 8) | second_byte
    }

    /// Decodes the instruction word `op` and carries the instruction out.
    pub fn decode_and_execute(&mut self, op: u16)
        requires
            old(self)@.wf(),
            Instruction::decode_spec(op) matches Some(instr) && old(self)@.fault(instr) is None,
        ensures
            final(self)@ == old(self)@.execute(Instruction::decode_spec(op).unwrap()),
            final(self)@.wf(),
    {
        proof {
            Instruction::decoded_is_wf(op);
        }
        match Instruction::decode(op) {
            Some(instr) => self.execute(instr),
            None => {},
        }
    }

    /// Tells whether the next instruction can be fetched and carried out,
    /// and if not, why.
    pub fn step_fault(&self) -> (fault: Option<Fault>)
        requires
            self@.wf(),
        ensures
            fault == self@.step_fault(),
    {
        if self.pc as usize + 1 >= 4096 {
            return Some(Fault::PcOutOfRange);
        }
        let first_byte = self.ram[self.pc as usize] as u16;
        let second_byte = self.ram[(self.pc + 1) as usize] as u16;
        assert((first_byte << 8) | second_byte == first_byte * 256 + second_byte) by (bit_vector)
            requires
                first_byte < 256,
                second_byte < 256,
        ;
        let op = (first_byte << 8) | second_byte;
        proof {
            Instruction::decoded_is_wf(op);
        }
        match Instruction::decode(op) {
            None => Some(Fault::UnknownOpcode),
            Some(instr) => self.fault_at(self.pc + 2, instr),
        }
    }

    /// Fetches the next instruction and carries it out.
    pub fn step(&mut self)
        requires
            old(self)@.wf(),
            old(self)@.step_fault() is None,
        ensures
            final(self)@ == old(self)@.step(),
            final(self)@.wf(),
    {
        let op = self.fetch();
        self.decode_and_execute(op);
    }

    /// What is left of `delay` after `delta` nanoseconds.
    fn remaining(delay: u64, delta: u128) -> (left: u64)
        ensures
            left == saturating_sub(delay as nat, delta as nat),
    {
        if delta >= delay as u128 {
            0
        } else {
            delay - (delta as u64)
        }
    }

    /// Advances the machine by `delta` nanoseconds of wall-clock time: runs
    /// at most one instruction, if one is due, and fires at most one timer
    /// event, if one is due.
    pub fn tick_nanos(&mut self, delta: u128) -> (result: Chip8TickResult)
        requires
            old(self)@.wf(),
            old(self)@.instruction_due(delta as nat) ==> old(self)@.step_fault() is None,
        ensures
            final(self)@ == old(self)@.tick(delta as nat),
            result.vram_changed == old(self)@.tick_reports_change(delta as nat),
            result.beep == old(self)@.tick_beeps(delta as nat),
            final(self)@.wf(),
    {
        let mut vram_changed = false;
        let mut beep = false;

        let until_execute = Self::remaining(self.duration_until_next_execute, delta);
        if until_execute == 0 {
            self.step();
            if self.vram_changed {
                vram_changed = true;
                self.vram_changed = false;
            }
        } else {
            self.duration_until_next_execute = until_execute;
        }

        let until_timer = Self::remaining(self.duration_until_next_timer, delta);
        if until_timer == 0 {
            self.duration_until_next_timer = TIMER_PERIOD_NANOS;
            if self.delay_timer > 0 {
                self.delay_timer = self.delay_timer - 1;
            }
            if self.sound_timer > 0 {
                beep = true;
                self.sound_timer = self.sound_timer - 1;
            }
        } else {
            self.duration_until_next_timer = until_timer;
        }

        Chip8TickResult { vram_changed, beep }
    }

    /// Advances the machine by the wall-clock time `delta_time` that has
    /// passed since the previous tick.
    pub fn tick(&mut self, delta_time: Duration) -> (result: Chip8TickResult)
        requires
            old(self)@.wf(),
            old(self)@.instruction_due(duration_nanos(delta_time)) ==> old(self)@.step_fault()
                is None,
        ensures
            final(self)@ == old(self)@.tick(duration_nanos(delta_time)),
            result.vram_changed == old(self)@.tick_reports_change(duration_nanos(delta_time)),
            result.beep == old(self)@.tick_beeps(duration_nanos(delta_time)),
            final(self)@.wf(),
    {
        let nanos = as_nanos(delta_time);
        self.tick_nanos(nanos)
    }

    /// Like `tick`, but where the instruction that is due cannot be carried
    /// out, reports the fault and leaves the machine as it was.
    pub fn try_tick(&mut self, delta_time: Duration) -> (result: Result<Chip8TickResult, Fault>)
        requires
            old(self)@.wf(),
        ensures
            final(self)@.wf(),
            old(self)@.instruction_due(duration_nanos(delta_time)) && old(self)@.step_fault()
                is Some ==> result == Err::<Chip8TickResult, Fault>(
                old(self)@.step_fault().unwrap(),
            ) && final(self)@ == old(self)@,
            !(old(self)@.instruction_due(duration_nanos(delta_time)) && old(self)@.step_fault()
                is Some) ==> result == Ok::<Chip8TickResult, Fault>(
                Chip8TickResult {
                    vram_changed: old(self)@.tick_reports_change(duration_nanos(delta_time)),
                    beep: old(self)@.tick_beeps(duration_nanos(delta_time)),
                },
            ) && final(self)@ == old(self)@.tick(duration_nanos(delta_time)),
    {
        let nanos = as_nanos(delta_time);
        if Self::remaining(self.duration_until_next_execute, nanos) == 0 {
            match self.step_fault() {
                Some(fault) => {
                    return Err(fault);
                },
                None => {},
            }
        }
        Ok(self.tick(delta_time))
    }

    /// The program counter.
    pub fn pc(&self) -> (pc: u16)
        ensures
            pc == self@.pc,
    {
        self.pc
    }

    /// The index register `I`.
    pub fn index(&self) -> (i: u16)
        ensures
            i == self@.i,
    {
        self.i
    }

    /// The stack pointer: the number of return addresses on the call stack.
    pub fn sp(&self) -> (sp: u8)
        ensures
            sp == self@.sp,
    {
        self.sp
    }

    /// The delay timer.
    pub fn delay_timer(&self) -> (timer: u8)
        ensures
            timer == self@.delay_timer,
    {
        self.delay_timer
    }

    /// The sound timer.
    pub fn sound_timer(&self) -> (timer: u8)
        ensures
            timer == self@.sound_timer,
    {
        self.sound_timer
    }

    /// The registers `V0` to `VF`.
    pub fn registers(&self) -> (v: &[u8; 16])
        ensures
            v@ == self@.v,
    {
        &self.v
    }

    /// The whole of memory.
    pub fn memory(&self) -> (ram: &[u8; 4096])
        ensures
            ram@ == self@.ram,
    {
        &self.ram
    }

    /// The keypad: whether each of the 16 keys is pressed.
    pub fn keys(&self) -> (keys: &[bool; 16])
        ensures
            keys@ == self@.keys,
    {
        &self.keys
    }

    /// The framebuffer, row-major: pixel (x, y) is at index `y * 64 + x`.
    pub fn framebuffer(&self) -> (pixels: &[bool; 2048])
        ensures
            pixels@ == self@.vram,
    {
        &self.vram
    }
}

} // verus!
