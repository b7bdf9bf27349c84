//! Instruction words and their decoding.
//!
//! An instruction is a 16-bit word. Its four nibbles select the operation;
//! depending on the operation the low nibbles are register numbers (`x`,
//! `y`), a 4-bit count (`n`), an 8-bit immediate (`nn`) or a 12-bit address
//! (`nnn`).

use vstd::prelude::*;

verus! {

/// One decoded instruction.
#[derive(Clone, Copy, Debug, PartialEq, Eq, Structural)]
pub enum Instruction {
    /// `0000`: no effect.
    Nop,
    /// `00E0`: clear the framebuffer.
    Cls,
    /// `00EE`: return from a subroutine.
    Ret,
    /// `1nnn`: jump to `nnn`.
    Jp { nnn: u16 },
    /// `2nnn`: call the subroutine at `nnn`.
    Call { nnn: u16 },
    /// `3xnn`: skip the next instruction if `Vx == nn`.
    SeImm { x: u8, nn: u8 },
    /// `4xnn`: skip the next instruction if `Vx != nn`.
    SneImm { x: u8, nn: u8 },
    /// `5xy0`: skip the next instruction if `Vx == Vy`.
    SeReg { x: u8, y: u8 },
    /// `6xnn`: `Vx <- nn`.
    LdImm { x: u8, nn: u8 },
    /// `7xnn`: `Vx <- Vx + nn`, wrapping, without touching VF.
    AddImm { x: u8, nn: u8 },
    /// `8xy0`: `Vx <- Vy`.
    LdReg { x: u8, y: u8 },
    /// `8xy1`: `Vx <- Vx | Vy`, then `VF <- 0`.
    Or { x: u8, y: u8 },
    /// `8xy2`: `Vx <- Vx & Vy`, then `VF <- 0`.
    And { x: u8, y: u8 },
    /// `8xy3`: `Vx <- Vx ^ Vy`, then `VF <- 0`.
    Xor { x: u8, y: u8 },
    /// `8xy4`: `Vx <- Vx + Vy`, wrapping, then `VF <- carry`.
    AddReg { x: u8, y: u8 },
    /// `8xy5`: `Vx <- Vx - Vy`, wrapping, then `VF <- 1` unless it borrowed.
    Sub { x: u8, y: u8 },
    /// `8xy6`: `Vx <- Vy >> 1`, then `VF <-` the bit shifted out.
    Shr { x: u8, y: u8 },
    /// `8xy7`: `Vx <- Vy - Vx`, wrapping, then `VF <- 1` unless it borrowed.
    Subn { x: u8, y: u8 },
    /// `8xyE`: `Vx <- Vy << 1`, then `VF <-` the bit shifted out.
    Shl { x: u8, y: u8 },
    /// `9xy0`: skip the next instruction if `Vx != Vy`.
    SneReg { x: u8, y: u8 },
    /// `Annn`: `I <- nnn`.
    LdI { nnn: u16 },
    /// `Bnnn`: jump to `nnn + V0`.
    JpV0 { nnn: u16 },
    /// `Cxnn`: `Vx <- random byte & nn`.
    Rnd { x: u8, nn: u8 },
    /// `Dxyn`: draw the `n`-row sprite at `I` at position (`Vx`, `Vy`).
    Drw { x: u8, y: u8, n: u8 },
    /// `Ex9E`: skip the next instruction if key `Vx` is pressed.
    Skp { x: u8 },
    /// `ExA1`: skip the next instruction if key `Vx` is not pressed.
    Sknp { x: u8 },
    /// `Fx07`: `Vx <- delay timer`.
    LdVxDt { x: u8 },
    /// `Fx0A`: wait for a key, then `Vx <-` the lowest pressed key.
    LdVxK { x: u8 },
    /// `Fx15`: `delay timer <- Vx`.
    LdDtVx { x: u8 },
    /// `Fx18`: `sound timer <- Vx`.
    LdStVx { x: u8 },
    /// `Fx1E`: `I <- I + Vx` masked to 12 bits, then `VF <-` overflow.
    AddI { x: u8 },
    /// `Fx29`: `I <-` address of the glyph for the low nibble of `Vx`.
    LdF { x: u8 },
    /// `Fx33`: store the decimal digits of `Vx` at `I`, `I + 1`, `I + 2`.
    LdB { x: u8 },
    /// `Fx55`: store `V0..=Vx` at `I`, advancing `I` by `x + 1`.
    StoreRegs { x: u8 },
    /// `Fx65`: load `V0..=Vx` from `I`, advancing `I` by `x + 1`.
    LoadRegs { x: u8 },
}

/// The most significant nibble of `op`.
pub open spec fn nibble_first(op: u16) -> u8 {
    (op / 0x1000) as u8
}

/// The second nibble of `op`: register number `x`.
pub open spec fn nibble_x(op: u16) -> u8 {
    ((op / 0x100) % 0x10) as u8
}

/// The third nibble of `op`: register number `y`.
pub open spec fn nibble_y(op: u16) -> u8 {
    ((op / 0x10) % 0x10) as u8
}

/// The least significant nibble of `op`: the count `n`.
pub open spec fn nibble_n(op: u16) -> u8 {
    (op % 0x10) as u8
}

/// The low byte of `op`: the immediate `nn`.
pub open spec fn low_byte(op: u16) -> u8 {
    (op % 0x100) as u8
}

/// The low twelve bits of `op`: the address `nnn`.
pub open spec fn low_twelve(op: u16) -> u16 {
    op % 0x1000
}

impl Instruction {
    /// Register numbers are below 16, counts below 16, addresses below 4096.
    pub open spec fn wf(self) -> bool {
        match self {
            Instruction::Nop | Instruction::Cls | Instruction::Ret => true,
            Instruction::Jp { nnn }
            | Instruction::Call { nnn }
            | Instruction::LdI { nnn }
            | Instruction::JpV0 { nnn } => nnn < 0x1000,
            Instruction::SeImm { x, .. }
            | Instruction::SneImm { x, .. }
            | Instruction::LdImm { x, .. }
            | Instruction::AddImm { x, .. }
            | Instruction::Rnd { x, .. }
            | Instruction::Skp { x }
            | Instruction::Sknp { x }
            | Instruction::LdVxDt { x }
            | Instruction::LdVxK { x }
            | Instruction::LdDtVx { x }
            | Instruction::LdStVx { x }
            | Instruction::AddI { x }
            | Instruction::LdF { x }
            | Instruction::LdB { x }
            | Instruction::StoreRegs { x }
            | Instruction::LoadRegs { x } => x < 16,
            Instruction::SeReg { x, y }
            | Instruction::LdReg { x, y }
            | Instruction::Or { x, y }
            | Instruction::And { x, y }
            | Instruction::Xor { x, y }
            | Instruction::AddReg { x, y }
            | Instruction::Sub { x, y }
            | Instruction::Shr { x, y }
            | Instruction::Subn { x, y }
            | Instruction::Shl { x, y }
            | Instruction::SneReg { x, y } => x < 16 && y < 16,
            Instruction::Drw { x, y, n } => x < 16 && y < 16 && n < 16,
        }
    }

    /// The instruction that the word `op` encodes, or `None` where `op`
    /// matches no pattern of the instruction set.
    pub open spec fn decode_spec(op: u16) -> Option<Instruction> {
        let first = nibble_first(op);
        let x = nibble_x(op);
        let y = nibble_y(op);
        let n = nibble_n(op);
        let nn = low_byte(op);
        let nnn = low_twelve(op);
        if first == 0x0 {
            if op == 0x0000 {
                Some(Instruction::Nop)
            } else if op == 0x00E0 {
                Some(Instruction::Cls)
            } else if op == 0x00EE {
                Some(Instruction::Ret)
            } else {
                None
            }
        } else if first == 0x1 {
            Some(Instruction::Jp { nnn })
        } else if first == 0x2 {
            Some(Instruction::Call { nnn })
        } else if first == 0x3 {
            Some(Instruction::SeImm { x, nn })
        } else if first == 0x4 {
            Some(Instruction::SneImm { x, nn })
        } else if first == 0x5 {
            if n == 0x0 {
                Some(Instruction::SeReg { x, y })
            } else {
                None
            }
        } else if first == 0x6 {
            Some(Instruction::LdImm { x, nn })
        } else if first == 0x7 {
            Some(Instruction::AddImm { x, nn })
        } else if first == 0x8 {
            if n == 0x0 {
                Some(Instruction::LdReg { x, y })
            } else if n == 0x1 {
                Some(Instruction::Or { x, y })
            } else if n == 0x2 {
                Some(Instruction::And { x, y })
            } else if n == 0x3 {
                Some(Instruction::Xor { x, y })
            } else if n == 0x4 {
                Some(Instruction::AddReg { x, y })
            } else if n == 0x5 {
                Some(Instruction::Sub { x, y })
            } else if n == 0x6 {
                Some(Instruction::Shr { x, y })
            } else if n == 0x7 {
                Some(Instruction::Subn { x, y })
            } else if n == 0xE {
                Some(Instruction::Shl { x, y })
            } else {
                None
            }
        } else if first == 0x9 {
            if n == 0x0 {
                Some(Instruction::SneReg { x, y })
            } else {
                None
            }
        } else if first == 0xA {
            Some(Instruction::LdI { nnn })
        } else if first == 0xB {
            Some(Instruction::JpV0 { nnn })
        } else if first == 0xC {
            Some(Instruction::Rnd { x, nn })
        } else if first == 0xD {
            Some(Instruction::Drw { x, y, n })
        } else if first == 0xE {
            if nn == 0x9E {
                Some(Instruction::Skp { x })
            } else if nn == 0xA1 {
                Some(Instruction::Sknp { x })
            } else {
                None
            }
        } else {
            if nn == 0x07 {
                Some(Instruction::LdVxDt { x })
            } else if nn == 0x0A {
                Some(Instruction::LdVxK { x })
            } else if nn == 0x15 {
                Some(Instruction::LdDtVx { x })
            } else if nn == 0x18 {
                Some(Instruction::LdStVx { x })
            } else if nn == 0x1E {
                Some(Instruction::AddI { x })
            } else if nn == 0x29 {
                Some(Instruction::LdF { x })
            } else if nn == 0x33 {
                Some(Instruction::LdB { x })
            } else if nn == 0x55 {
                Some(Instruction::StoreRegs { x })
            } else if nn == 0x65 {
                Some(Instruction::LoadRegs { x })
            } else {
                None
            }
        }
    }

    /// The time, in microseconds, that must pass after this instruction
    /// before the next one may run.
    pub open spec fn delay_micros(self) -> nat {
        match self {
            Instruction::Nop => 0,
            Instruction::Cls => 109,
            Instruction::Ret => 105,
            Instruction::Jp { .. } => 105,
            Instruction::Call { .. } => 105,
            Instruction::SeImm { .. } => 55,
            Instruction::SneImm { .. } => 55,
            Instruction::SeReg { .. } => 73,
            Instruction::LdImm { .. } => 27,
            Instruction::AddImm { .. } => 45,
            Instruction::LdReg { .. }
            | Instruction::Or { .. }
            | Instruction::And { .. }
            | Instruction::Xor { .. }
            | Instruction::AddReg { .. }
            | Instruction::Sub { .. }
            | Instruction::Shr { .. }
            | Instruction::Subn { .. }
            | Instruction::Shl { .. } => 200,
            Instruction::SneReg { .. } => 73,
            Instruction::LdI { .. } => 55,
            Instruction::JpV0 { .. } => 105,
            Instruction::Rnd { .. } => 164,
            Instruction::Drw { .. } => 22_734,
            Instruction::Skp { .. } => 73,
            Instruction::Sknp { .. } => 73,
            Instruction::LdVxDt { .. } => 45,
            Instruction::LdVxK { .. } => 0,
            Instruction::LdDtVx { .. } => 45,
            Instruction::LdStVx { .. } => 45,
            Instruction::AddI { .. } => 86,
            Instruction::LdF { .. } => 91,
            Instruction::LdB { .. } => 927,
            Instruction::StoreRegs { .. } => 605,
            Instruction::LoadRegs { .. } => 605,
        }
    }

    /// The pacing delay of this instruction in nanoseconds.
    pub fn delay_nanos(self) -> (nanos: u64)
        ensures
            nanos == self.delay_micros() * 1000,
    {
        let micros: u64 = match self {
            Instruction::Nop => 0,
            Instruction::Cls => 109,
            Instruction::Ret => 105,
            Instruction::Jp { .. } => 105,
            Instruction::Call { .. } => 105,
            Instruction::SeImm { .. } => 55,
            Instruction::SneImm { .. } => 55,
            Instruction::SeReg { .. } => 73,
            Instruction::LdImm { .. } => 27,
            Instruction::AddImm { .. } => 45,
            Instruction::LdReg { .. }
            | Instruction::Or { .. }
            | Instruction::And { .. }
            | Instruction::Xor { .. }
            | Instruction::AddReg { .. }
            | Instruction::Sub { .. }
            | Instruction::Shr { .. }
            | Instruction::Subn { .. }
            | Instruction::Shl { .. } => 200,
            Instruction::SneReg { .. } => 73,
            Instruction::LdI { .. } => 55,
            Instruction::JpV0 { .. } => 105,
            Instruction::Rnd { .. } => 164,
            Instruction::Drw { .. } => 22_734,
            Instruction::Skp { .. } => 73,
            Instruction::Sknp { .. } => 73,
            Instruction::LdVxDt { .. } => 45,
            Instruction::LdVxK { .. } => 0,
            Instruction::LdDtVx { .. } => 45,
            Instruction::LdStVx { .. } => 45,
            Instruction::AddI { .. } => 86,
            Instruction::LdF { .. } => 91,
            Instruction::LdB { .. } => 927,
            Instruction::StoreRegs { .. } => 605,
            Instruction::LoadRegs { .. } => 605,
        };
        micros * 1000
    }

    /// Every decoded instruction is well formed.
    pub proof fn decoded_is_wf(op: u16)
        ensures
            Self::decode_spec(op) matches Some(instr) ==> instr.wf(),
    {
    }

    /// Decodes the instruction word `op`.
    pub fn decode(op: u16) -> (decoded: Option<Instruction>)
        ensures
            decoded == Self::decode_spec(op),
    {
        let first: u8 = ((op & 0xF000) >> 12) as u8;
        let x: u8 = ((op & 0x0F00) >> 8) as u8;
        let y: u8 = ((op & 0x00F0) >> 4) as u8;
        let n: u8 = (op & 0x000F) as u8;
        let nn: u8 = (op & 0x00FF) as u8;
        let nnn: u16 = op & 0x0FFF;
        assert(first == nibble_first(op) && x == nibble_x(op) && y == nibble_y(op) && n
            == nibble_n(op) && nn == low_byte(op) && nnn == low_twelve(op)) by {
            assert(((op & 0xF000) >> 12) == op / 0x1000 && ((op & 0x0F00) >> 8) == (op / 0x100)
                % 0x10 && ((op & 0x00F0) >> 4) == (op / 0x10) % 0x10 && (op & 0x000F) == op % 0x10
                && (op & 0x00FF) == op % 0x100 && (op & 0x0FFF) == op % 0x1000) by (bit_vector);
        }
        match (first, x, y, n) {
            (0x0, 0x0, 0x0, 0x0) => Some(Instruction::Nop),
            (0x0, 0x0, 0xE, 0x0) => Some(Instruction::Cls),
            (0x0, 0x0, 0xE, 0xE) => Some(Instruction::Ret),
            (0x1, _, _, _) => Some(Instruction::Jp { nnn }),
            (0x2, _, _, _) => Some(Instruction::Call { nnn }),
            (0x3, _, _, _) => Some(Instruction::SeImm { x, nn }),
            (0x4, _, _, _) => Some(Instruction::SneImm { x, nn }),
            (0x5, _, _, 0x0) => Some(Instruction::SeReg { x, y }),
            (0x6, _, _, _) => Some(Instruction::LdImm { x, nn }),
            (0x7, _, _, _) => Some(Instruction::AddImm { x, nn }),
            (0x8, _, _, 0x0) => Some(Instruction::LdReg { x, y }),
            (0x8, _, _, 0x1) => Some(Instruction::Or { x, y }),
            (0x8, _, _, 0x2) => Some(Instruction::And { x, y }),
            (0x8, _, _, 0x3) => Some(Instruction::Xor { x, y }),
            (0x8, _, _, 0x4) => Some(Instruction::AddReg { x, y }),
            (0x8, _, _, 0x5) => Some(Instruction::Sub { x, y }),
            (0x8, _, _, 0x6) => Some(Instruction::Shr { x, y }),
            (0x8, _, _, 0x7) => Some(Instruction::Subn { x, y }),
            (0x8, _, _, 0xE) => Some(Instruction::Shl { x, y }),
            (0x9, _, _, 0x0) => Some(Instruction::SneReg { x, y }),
            (0xA, _, _, _) => Some(Instruction::LdI { nnn }),
            (0xB, _, _, _) => Some(Instruction::JpV0 { nnn }),
            (0xC, _, _, _) => Some(Instruction::Rnd { x, nn }),
            (0xD, _, _, _) => Some(Instruction::Drw { x, y, n }),
            (0xE, _, 0x9, 0xE) => Some(Instruction::Skp { x }),
            (0xE, _, 0xA, 0x1) => Some(Instruction::Sknp { x }),
            (0xF, _, 0x0, 0x7) => Some(Instruction::LdVxDt { x }),
            (0xF, _, 0x0, 0xA) => Some(Instruction::LdVxK { x }),
            (0xF, _, 0x1, 0x5) => Some(Instruction::LdDtVx { x }),
            (0xF, _, 0x1, 0x8) => Some(Instruction::LdStVx { x }),
            (0xF, _, 0x1, 0xE) => Some(Instruction::AddI { x }),
            (0xF, _, 0x2, 0x9) => Some(Instruction::LdF { x }),
            (0xF, _, 0x3, 0x3) => Some(Instruction::LdB { x }),
            (0xF, _, 0x5, 0x5) => Some(Instruction::StoreRegs { x }),
            (0xF, _, 0x6, 0x5) => Some(Instruction::LoadRegs { x }),
            (_, _, _, _) => None,
        }
    }
}

} // verus!
