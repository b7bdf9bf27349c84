//! The mathematical model of the machine: its architectural state and the
//! meaning of every instruction and of a host tick as functions on that state.

use vstd::prelude::*;
use crate::font::font_table;
use crate::instruction::Instruction;
use crate::rng;

verus! {

/// Number of bytes of memory.
pub const MEMORY_SIZE: usize = 4096;

/// Width of the display in pixels.
pub const DISPLAY_WIDTH: usize = 64;

/// Height of the display in pixels.
pub const DISPLAY_HEIGHT: usize = 32;

/// Number of pixels of the display.
pub const DISPLAY_SIZE: usize = 2048;

/// Address at which programs are loaded and start.
pub const PROGRAM_START: u16 = 0x200;

/// Largest program that fits between `PROGRAM_START` and the end of memory.
pub const MAX_ROM_SIZE: usize = 3584;

/// Time between two timer events, in nanoseconds (about 60 Hz).
pub const TIMER_PERIOD_NANOS: u64 = 16_666_000;

/// Why an instruction cannot be carried out.
#[derive(Clone, Copy, Debug, PartialEq, Eq, Structural)]
pub enum Fault {
    /// The program counter would leave memory or its 16-bit range.
    PcOutOfRange,
    /// The word at the program counter encodes no instruction.
    UnknownOpcode,
    /// `RET` with an empty call stack.
    StackUnderflow,
    /// `CALL` with a full call stack.
    StackOverflow,
    /// An access through `I` beyond the end of memory.
    MemoryOutOfRange,
    /// A key number above 15 taken from a register.
    KeyOutOfRange,
}

/// A sprite placed on the display: its rows, top first, and the position of
/// its top-left corner. Each row is eight pixels wide, leftmost pixel in the
/// most significant bit. Pixels that fall off the right or bottom edge are
/// not drawn.
pub struct Sprite {
    pub rows: Seq<u8>,
    pub x: int,
    pub y: int,
}

/// The weight of bit `b` of a sprite row, counting from the left: 128 for
/// the leftmost bit, 1 for the rightmost.
pub open spec fn bit_weight(b: int) -> int {
    if b == 0 {
        128
    } else if b == 1 {
        64
    } else if b == 2 {
        32
    } else if b == 3 {
        16
    } else if b == 4 {
        8
    } else if b == 5 {
        4
    } else if b == 6 {
        2
    } else {
        1
    }
}

/// Whether bit `b` of a sprite row is set, counting from the left.
pub open spec fn row_bit(row: u8, b: int) -> bool {
    (row as int / bit_weight(b)) % 2 == 1
}

impl Sprite {
    /// Whether the sprite has a set pixel at display position (`px`, `py`).
    pub open spec fn lit(self, px: int, py: int) -> bool {
        &&& self.x <= px < self.x + 8
        &&& px < 64
        &&& self.y <= py < self.y + self.rows.len()
        &&& py < 32
        &&& row_bit(self.rows[py - self.y], px - self.x)
    }

    /// Whether the sprite has a set pixel at framebuffer index `k`.
    pub open spec fn lit_at(self, k: int) -> bool {
        self.lit(k % 64, k / 64)
    }

    /// The framebuffer after the sprite is XORed into `vram`.
    pub open spec fn blend(self, vram: Seq<bool>) -> Seq<bool> {
        Seq::new(2048, |k: int| vram[k] != self.lit_at(k))
    }

    /// Whether drawing the sprite onto `vram` turns some lit pixel off.
    pub open spec fn collides(self, vram: Seq<bool>) -> bool {
        exists|k: int| 0 <= k < 2048 && vram[k] && #[trigger] self.lit_at(k)
    }

    /// Whether the sprite has any set pixel on the display.
    pub open spec fn visible(self) -> bool {
        exists|k: int| 0 <= k < 2048 && #[trigger] self.lit_at(k)
    }
}

/// The index of the first pressed key at or after `from`, or 16 if there is
/// none.
pub open spec fn first_pressed(keys: Seq<bool>, from: int) -> int
    decreases 16 - from,
{
    if from < 0 || from >= 16 {
        16
    } else if keys[from] {
        from
    } else {
        first_pressed(keys, from + 1)
    }
}

/// `a - b`, or 0 where `b` exceeds `a`.
pub open spec fn saturating_sub(a: nat, b: nat) -> nat {
    if a <= b {
        0
    } else {
        (a - b) as nat
    }
}

/// An 8-bit timer after one timer event.
pub open spec fn count_down(timer: u8) -> u8 {
    if timer > 0 {
        (timer - 1) as u8
    } else {
        0
    }
}

/// The architectural state of the machine.
#[verifier::ext_equal]
pub struct State {
    /// Memory, 4096 bytes.
    pub ram: Seq<u8>,
    /// Registers V0 to VF.
    pub v: Seq<u8>,
    /// Index register.
    pub i: int,
    /// Program counter.
    pub pc: int,
    /// Call stack, 16 return addresses.
    pub stack: Seq<int>,
    /// Stack pointer: the next free slot of the call stack.
    pub sp: int,
    /// Delay timer.
    pub delay_timer: u8,
    /// Sound timer.
    pub sound_timer: u8,
    /// Framebuffer, row-major: pixel (x, y) is at index `y * 64 + x`.
    pub vram: Seq<bool>,
    /// Whether the framebuffer was drawn to since this was last reported.
    pub vram_changed: bool,
    /// Keypad: whether each of the 16 keys is pressed.
    pub keys: Seq<bool>,
    /// Nanoseconds until the next instruction may run.
    pub next_instruction_delay: nat,
    /// Nanoseconds until the next timer event.
    pub next_timer_tick_delay: nat,
    /// Register of the random byte generator.
    pub rng: u32,
}

impl State {
    /// The invariant of the machine: every component has its size, the stack
    /// pointer is at most 16 and the index register at most 4096.
    pub open spec fn wf(self) -> bool {
        &&& self.ram.len() == 4096
        &&& self.v.len() == 16
        &&& self.stack.len() == 16
        &&& self.vram.len() == 2048
        &&& self.keys.len() == 16
        &&& 0 <= self.i <= 0x1000
        &&& 0 <= self.pc <= 0xFFFF
        &&& 0 <= self.sp <= 16
        &&& forall|k: int| 0 <= k < 16 ==> 0 <= #[trigger] self.stack[k] <= 0xFFFF
        &&& self.next_instruction_delay <= u64::MAX
        &&& self.next_timer_tick_delay <= u64::MAX
    }

    /// The machine as constructed: memory zeroed but for the font at
    /// address 0, the program counter at `PROGRAM_START`, everything else
    /// zero or false.
    pub open spec fn initial(rng: u32) -> State {
        State {
            ram: Seq::new(4096, |a: int| if a < 80 { font_table()[a] } else { 0u8 }),
            v: Seq::new(16, |k: int| 0u8),
            i: 0,
            pc: 0x200,
            stack: Seq::new(16, |k: int| 0int),
            sp: 0,
            delay_timer: 0,
            sound_timer: 0,
            vram: Seq::new(2048, |k: int| false),
            vram_changed: false,
            keys: Seq::new(16, |k: int| false),
            next_instruction_delay: 0,
            next_timer_tick_delay: 0,
            rng,
        }
    }

    /// The state with `rom` copied into memory from `PROGRAM_START` on.
    pub open spec fn with_rom(self, rom: Seq<u8>) -> State {
        State {
            ram: Seq::new(
                4096,
                |a: int| if 0x200 <= a < 0x200 + rom.len() { rom[a - 0x200] } else { self.ram[a] },
            ),
            ..self
        }
    }

    /// The state with key `index` pressed or released.
    pub open spec fn with_key(self, index: int, pressed: bool) -> State {
        State { keys: self.keys.update(index, pressed), ..self }
    }

    /// The instruction word at the program counter, high byte first.
    pub open spec fn opcode_at_pc(self) -> u16 {
        (self.ram[self.pc] * 256 + self.ram[self.pc + 1]) as u16
    }

    /// The state after the program counter moves past one instruction.
    pub open spec fn after_fetch(self) -> State {
        State { pc: self.pc + 2, ..self }
    }

    /// The state with the next instruction skipped if `cond` holds.
    pub open spec fn skip_if(self, cond: bool) -> State {
        if cond {
            State { pc: self.pc + 2, ..self }
        } else {
            self
        }
    }

    /// The state with `Vx <- value`.
    pub open spec fn set_reg(self, x: u8, value: u8) -> State {
        State { v: self.v.update(x as int, value), ..self }
    }

    /// The state with `Vx <- value` followed by `VF <- flag`.
    pub open spec fn set_reg_then_flag(self, x: u8, value: u8, flag: u8) -> State {
        State { v: self.v.update(x as int, value).update(0xF, flag), ..self }
    }

    /// The number of rows of an `n`-row sprite that are on the display when
    /// its top row is drawn at row `vy` modulo 32.
    pub open spec fn visible_rows(vy: u8, n: u8) -> int {
        if n <= 32 - vy % 32 {
            n as int
        } else {
            32 - vy % 32
        }
    }

    /// The sprite that `DRW Vx, Vy, n` draws: its rows are read from memory
    /// at `I`, and it is placed at (`Vx` modulo 64, `Vy` modulo 32).
    pub open spec fn sprite(self, x: u8, y: u8, n: u8) -> Sprite {
        Sprite {
            rows: self.ram.subrange(
                self.i,
                self.i + Self::visible_rows(self.v[y as int], n),
            ),
            x: self.v[x as int] as int % 64,
            y: self.v[y as int] as int % 32,
        }
    }

    /// Why `instr` cannot be carried out in this state, or `None` if it can.
    pub open spec fn fault(self, instr: Instruction) -> Option<Fault> {
        match instr {
            Instruction::Ret => if self.sp <= 0 {
                Some(Fault::StackUnderflow)
            } else {
                None
            },
            Instruction::Call { .. } => if self.sp >= 16 {
                Some(Fault::StackOverflow)
            } else {
                None
            },
            Instruction::SeImm { .. }
            | Instruction::SneImm { .. }
            | Instruction::SeReg { .. }
            | Instruction::SneReg { .. } => if self.effect(instr).pc > 0xFFFF {
                Some(Fault::PcOutOfRange)
            } else {
                None
            },
            Instruction::Skp { x } | Instruction::Sknp { x } => if self.v[x as int] > 15 {
                Some(Fault::KeyOutOfRange)
            } else if self.effect(instr).pc > 0xFFFF {
                Some(Fault::PcOutOfRange)
            } else {
                None
            },
            Instruction::LdVxK { .. } => if self.effect(instr).pc < 0 {
                Some(Fault::PcOutOfRange)
            } else {
                None
            },
            Instruction::LdB { .. } => if self.i + 2 >= 4096 {
                Some(Fault::MemoryOutOfRange)
            } else {
                None
            },
            Instruction::StoreRegs { x } | Instruction::LoadRegs { x } => if self.i + x >= 4096 {
                Some(Fault::MemoryOutOfRange)
            } else {
                None
            },
            Instruction::Drw { y, n, .. } => if self.i + Self::visible_rows(self.v[y as int], n)
                > 4096 {
                Some(Fault::MemoryOutOfRange)
            } else {
                None
            },
            _ => None,
        }
    }

    /// What `instr` does to the state, pacing aside.
    pub open spec fn effect(self, instr: Instruction) -> State {
        match instr {
            Instruction::Nop => self,
            Instruction::Cls => State {
                vram: Seq::new(2048, |k: int| false),
                vram_changed: true,
                ..self
            },
            Instruction::Ret => State { sp: self.sp - 1, pc: self.stack[self.sp - 1], ..self },
            Instruction::Jp { nnn } => State { pc: nnn as int, ..self },
            Instruction::Call { nnn } => State {
                stack: self.stack.update(self.sp, self.pc),
                sp: self.sp + 1,
                pc: nnn as int,
                ..self
            },
            Instruction::SeImm { x, nn } => self.skip_if(self.v[x as int] == nn),
            Instruction::SneImm { x, nn } => self.skip_if(self.v[x as int] != nn),
            Instruction::SeReg { x, y } => self.skip_if(self.v[x as int] == self.v[y as int]),
            Instruction::SneReg { x, y } => self.skip_if(self.v[x as int] != self.v[y as int]),
            Instruction::LdImm { x, nn } => self.set_reg(x, nn),
            Instruction::AddImm { x, nn } => self.set_reg(
                x,
                ((self.v[x as int] + nn) % 256) as u8,
            ),
            Instruction::LdReg { x, y } => self.set_reg(x, self.v[y as int]),
            Instruction::Or { x, y } => self.set_reg_then_flag(
                x,
                self.v[x as int] | self.v[y as int],
                0,
            ),
            Instruction::And { x, y } => self.set_reg_then_flag(
                x,
                self.v[x as int] & self.v[y as int],
                0,
            ),
            Instruction::Xor { x, y } => self.set_reg_then_flag(
                x,
                self.v[x as int] ^ self.v[y as int],
                0,
            ),
            Instruction::AddReg { x, y } => self.set_reg_then_flag(
                x,
                ((self.v[x as int] + self.v[y as int]) % 256) as u8,
                if self.v[x as int] + self.v[y as int] > 255 {
                    1
                } else {
                    0
                },
            ),
            Instruction::Sub { x, y } => self.set_reg_then_flag(
                x,
                ((self.v[x as int] - self.v[y as int]) % 256) as u8,
                if self.v[x as int] >= self.v[y as int] {
                    1
                } else {
                    0
                },
            ),
            Instruction::Subn { x, y } => self.set_reg_then_flag(
                x,
                ((self.v[y as int] - self.v[x as int]) % 256) as u8,
                if self.v[y as int] >= self.v[x as int] {
                    1
                } else {
                    0
                },
            ),
            Instruction::Shr { x, y } => self.set_reg_then_flag(
                x,
                self.v[y as int] / 2,
                self.v[y as int] % 2,
            ),
            Instruction::Shl { x, y } => self.set_reg_then_flag(
                x,
                ((self.v[y as int] * 2) % 256) as u8,
                self.v[y as int] / 128,
            ),
            Instruction::LdI { nnn } => State { i: nnn as int, ..self },
            Instruction::JpV0 { nnn } => State { pc: nnn + self.v[0], ..self },
            Instruction::Rnd { x, nn } => State {
                v: self.v.update(x as int, rng::output(self.rng) & nn),
                rng: rng::advance(self.rng),
                ..self
            },
            Instruction::Drw { x, y, n } => {
                let sprite = self.sprite(x, y, n);
                State {
                    vram: sprite.blend(self.vram),
                    vram_changed: self.vram_changed || sprite.visible(),
                    v: self.v.update(
                        0xF,
                        if sprite.collides(self.vram) {
                            1u8
                        } else {
                            0u8
                        },
                    ),
                    ..self
                }
            },
            Instruction::Skp { x } => self.skip_if(self.keys[self.v[x as int] as int]),
            Instruction::Sknp { x } => self.skip_if(!self.keys[self.v[x as int] as int]),
            Instruction::LdVxDt { x } => self.set_reg(x, self.delay_timer),
            Instruction::LdVxK { x } => {
                let key = first_pressed(self.keys, 0);
                if key < 16 {
                    self.set_reg(x, key as u8)
                } else {
                    State { pc: self.pc - 2, ..self }
                }
            },
            Instruction::LdDtVx { x } => State { delay_timer: self.v[x as int], ..self },
            Instruction::LdStVx { x } => State { sound_timer: self.v[x as int], ..self },
            Instruction::AddI { x } => State {
                i: (self.i + self.v[x as int]) % 0x1000,
                v: self.v.update(
                    0xF,
                    if self.i + self.v[x as int] >= 0x1000 {
                        1u8
                    } else {
                        0u8
                    },
                ),
                ..self
            },
            Instruction::LdF { x } => State { i: (self.v[x as int] % 16) * 5, ..self },
            Instruction::LdB { x } => {
                let value = self.v[x as int];
                State {
                    ram: self.ram.update(self.i, value / 100).update(
                        self.i + 1,
                        (value / 10) % 10,
                    ).update(self.i + 2, value % 10),
                    ..self
                }
            },
            Instruction::StoreRegs { x } => State {
                ram: Seq::new(
                    4096,
                    |a: int|
                        if self.i <= a <= self.i + x {
                            self.v[a - self.i]
                        } else {
                            self.ram[a]
                        },
                ),
                i: self.i + x + 1,
                ..self
            },
            Instruction::LoadRegs { x } => State {
                v: Seq::new(
                    16,
                    |k: int|
                        if k <= x {
                            self.ram[self.i + k]
                        } else {
                            self.v[k]
                        },
                ),
                i: self.i + x + 1,
                ..self
            },
        }
    }

    /// The state after `instr` is carried out: its effect, and the pacing
    /// delay that it leaves behind.
    pub open spec fn execute(self, instr: Instruction) -> State {
        State { next_instruction_delay: instr.delay_micros() * 1000, ..self.effect(instr) }
    }

    /// Why the machine cannot fetch and carry out its next instruction, or
    /// `None` if it can.
    pub open spec fn step_fault(self) -> Option<Fault> {
        if self.pc + 1 >= 4096 {
            Some(Fault::PcOutOfRange)
        } else {
            match Instruction::decode_spec(self.opcode_at_pc()) {
                None => Some(Fault::UnknownOpcode),
                Some(instr) => self.after_fetch().fault(instr),
            }
        }
    }

    /// The state after one instruction is fetched and carried out.
    pub open spec fn step(self) -> State {
        self.after_fetch().execute(Instruction::decode_spec(self.opcode_at_pc()).unwrap())
    }

    /// Whether an instruction runs in a tick of `delta` nanoseconds.
    pub open spec fn instruction_due(self, delta: nat) -> bool {
        saturating_sub(self.next_instruction_delay, delta) == 0
    }

    /// Whether a timer event fires in a tick of `delta` nanoseconds.
    pub open spec fn timer_due(self, delta: nat) -> bool {
        saturating_sub(self.next_timer_tick_delay, delta) == 0
    }

    /// The instruction half of a tick: one instruction if it is due, with
    /// the framebuffer flag handed over to the tick's result; otherwise only
    /// the time passes.
    pub open spec fn tick_cpu(self, delta: nat) -> State {
        if self.instruction_due(delta) {
            State { vram_changed: false, ..self.step() }
        } else {
            State {
                next_instruction_delay: saturating_sub(self.next_instruction_delay, delta),
                ..self
            }
        }
    }

    /// The state after one timer event: both timers count down and the
    /// timer period starts again.
    pub open spec fn timer_event(self) -> State {
        State {
            next_timer_tick_delay: 16_666_000,
            delay_timer: count_down(self.delay_timer),
            sound_timer: count_down(self.sound_timer),
            ..self
        }
    }

    /// The timer half of a tick: one timer event if it is due; otherwise
    /// only the time passes.
    pub open spec fn tick_timers(self, delta: nat) -> State {
        if self.timer_due(delta) {
            self.timer_event()
        } else {
            State {
                next_timer_tick_delay: saturating_sub(self.next_timer_tick_delay, delta),
                ..self
            }
        }
    }

    /// The state after a tick of `delta` nanoseconds.
    pub open spec fn tick(self, delta: nat) -> State {
        self.tick_cpu(delta).tick_timers(delta)
    }

    /// Whether a tick of `delta` nanoseconds reports a framebuffer change.
    pub open spec fn tick_reports_change(self, delta: nat) -> bool {
        self.instruction_due(delta) && self.step().vram_changed
    }

    /// Whether a tick of `delta` nanoseconds asks for a beep.
    pub open spec fn tick_beeps(self, delta: nat) -> bool {
        self.timer_due(delta) && self.tick_cpu(delta).sound_timer > 0
    }
}

} // verus!
