//! Decoding of 16-bit CHIP-8 instruction words.
//!
//! An instruction word is built from two consecutive memory bytes, high byte
//! first. The decoder extracts the operand fields and classifies the word
//! into one tagged variant per instruction; a word that matches no known
//! pattern decodes to `None` and is a fatal condition for the engine.

use vstd::prelude::*;

verus! {

/// A decoded instruction: one variant per row of the instruction table.
///
/// `x` and `y` are register selectors (always below 16), `n` is a nibble
/// operand (below 16), `nn` a byte operand, and `nnn` a 12-bit address
/// operand (below 4096).
#[derive(Clone, Copy, PartialEq, Eq, Structural, Debug)]
pub enum Instruction {
    /// 00E0: set the whole frame buffer to false.
    ClearDisplay,
    /// 00EE: return from a subroutine.
    Return,
    /// 1nnn: jump to address nnn.
    Jump { nnn: u16 },
    /// 2nnn: call the subroutine at nnn.
    Call { nnn: u16 },
    /// 3xnn: skip the next instruction if V[x] == nn.
    SkipEqByte { x: u8, nn: u8 },
    /// 4xnn: skip the next instruction if V[x] != nn.
    SkipNeByte { x: u8, nn: u8 },
    /// 5xy_: skip the next instruction if V[x] == V[y].
    SkipEqReg { x: u8, y: u8 },
    /// 6xnn: V[x] <- nn.
    LoadByte { x: u8, nn: u8 },
    /// 7xnn: V[x] <- V[x] + nn, wrapping; VF untouched.
    AddByte { x: u8, nn: u8 },
    /// 8xy0: V[x] <- V[y].
    LoadReg { x: u8, y: u8 },
    /// 8xy1: V[x] <- V[x] | V[y].
    Or { x: u8, y: u8 },
    /// 8xy2: V[x] <- V[x] & V[y].
    And { x: u8, y: u8 },
    /// 8xy3: V[x] <- V[x] ^ V[y].
    Xor { x: u8, y: u8 },
    /// 8xy4: V[x] <- V[x] + V[y] mod 256; VF <- carry.
    AddReg { x: u8, y: u8 },
    /// 8xy5: V[x] <- V[x] - V[y] mod 256; VF <- no-borrow.
    SubReg { x: u8, y: u8 },
    /// 8xy6: VF <- low bit of V[x]; V[x] <- V[x] >> 1.
    ShiftRight { x: u8 },
    /// 8xy7: V[x] <- V[y] - V[x] mod 256; VF <- no-borrow.
    SubNotBorrow { x: u8, y: u8 },
    /// 8xyE: VF <- high bit of V[x]; V[x] <- V[x] << 1 mod 256.
    ShiftLeft { x: u8 },
    /// 9xy_: skip the next instruction if V[x] != V[y].
    SkipNeReg { x: u8, y: u8 },
    /// Annn: I <- nnn.
    LoadI { nnn: u16 },
    /// Bnnn: jump to V[0] + nnn.
    JumpV0 { nnn: u16 },
    /// Cxnn: V[x] <- random byte & nn.
    Random { x: u8, nn: u8 },
    /// Dxyn: draw the n-byte sprite at memory[I..] at (V[x], V[y]).
    Draw { x: u8, y: u8, n: u8 },
    /// Ex9E: skip if the key edge observed this cycle equals V[x].
    SkipKeyPressed { x: u8 },
    /// ExA1: skip if no key edge observed this cycle equals V[x].
    SkipKeyNotPressed { x: u8 },
    /// Fx07: V[x] <- delay timer.
    LoadDelay { x: u8 },
    /// Fx0A: suspend until a key edge arrives; V[x] <- its nibble.
    WaitKey { x: u8 },
    /// Fx15: delay timer <- V[x].
    SetDelay { x: u8 },
    /// Fx18: sound timer <- V[x]; the tone plays while it is non-zero.
    SetSound { x: u8 },
    /// Fx1E: I <- I + V[x]; leaving the address space is fatal.
    AddI { x: u8 },
    /// Fx29: I <- V[x] * 5, the address of the built-in glyph for V[x].
    LoadFont { x: u8 },
    /// Fx33: memory[I..I+3] <- the three decimal digits of V[x].
    StoreBcd { x: u8 },
    /// Fx55: memory[I+i] <- V[i] for i in 0..=x.
    StoreRegs { x: u8 },
    /// Fx65: V[i] <- memory[I+i] for i in 0..=x.
    ReadRegs { x: u8 },
}

/// The high nibble of an instruction word, selecting the instruction family.
pub open spec fn spec_family(word: u16) -> u16 {
    word / 0x1000
}

/// The register selector in bits 8..12.
pub open spec fn spec_x(word: u16) -> u8 {
    ((word / 0x100) % 0x10) as u8
}

/// The register selector in bits 4..8.
pub open spec fn spec_y(word: u16) -> u8 {
    ((word / 0x10) % 0x10) as u8
}

/// The low nibble operand.
pub open spec fn spec_n(word: u16) -> u8 {
    (word % 0x10) as u8
}

/// The low byte operand.
pub open spec fn spec_nn(word: u16) -> u8 {
    (word % 0x100) as u8
}

/// The 12-bit address operand.
pub open spec fn spec_nnn(word: u16) -> u16 {
    word % 0x1000
}

impl Instruction {
    /// Every operand field lies within its width: register selectors and
    /// nibbles below 16, addresses below 4096.
    pub open spec fn valid(self) -> bool {
        match self {
            Instruction::ClearDisplay => true,
            Instruction::Return => true,
            Instruction::Jump { nnn } => nnn < 0x1000,
            Instruction::Call { nnn } => nnn < 0x1000,
            Instruction::SkipEqByte { x, nn } => x < 16,
            Instruction::SkipNeByte { x, nn } => x < 16,
            Instruction::SkipEqReg { x, y } => x < 16 && y < 16,
            Instruction::LoadByte { x, nn } => x < 16,
            Instruction::AddByte { x, nn } => x < 16,
            Instruction::LoadReg { x, y } => x < 16 && y < 16,
            Instruction::Or { x, y } => x < 16 && y < 16,
            Instruction::And { x, y } => x < 16 && y < 16,
            Instruction::Xor { x, y } => x < 16 && y < 16,
            Instruction::AddReg { x, y } => x < 16 && y < 16,
            Instruction::SubReg { x, y } => x < 16 && y < 16,
            Instruction::ShiftRight { x } => x < 16,
            Instruction::SubNotBorrow { x, y } => x < 16 && y < 16,
            Instruction::ShiftLeft { x } => x < 16,
            Instruction::SkipNeReg { x, y } => x < 16 && y < 16,
            Instruction::LoadI { nnn } => nnn < 0x1000,
            Instruction::JumpV0 { nnn } => nnn < 0x1000,
            Instruction::Random { x, nn } => x < 16,
            Instruction::Draw { x, y, n } => x < 16 && y < 16 && n < 16,
            Instruction::SkipKeyPressed { x } => x < 16,
            Instruction::SkipKeyNotPressed { x } => x < 16,
            Instruction::LoadDelay { x } => x < 16,
            Instruction::WaitKey { x } => x < 16,
            Instruction::SetDelay { x } => x < 16,
            Instruction::SetSound { x } => x < 16,
            Instruction::AddI { x } => x < 16,
            Instruction::LoadFont { x } => x < 16,
            Instruction::StoreBcd { x } => x < 16,
            Instruction::StoreRegs { x } => x < 16,
            Instruction::ReadRegs { x } => x < 16,
        }
    }
}

/// What a 16-bit word decodes to; `None` marks an unknown instruction.
///
/// Families 0x0, 0x8, 0xE and 0xF are disambiguated by a secondary selector
/// (the low nibble or low byte); the other families carry their operands
/// directly.
pub open spec fn decode_spec(word: u16) -> Option<Instruction> {
    let x = spec_x(word);
    let y = spec_y(word);
    let n = spec_n(word);
    let nn = spec_nn(word);
    let nnn = spec_nnn(word);
    if word == 0x00E0 {
        Some(Instruction::ClearDisplay)
    } else if word == 0x00EE {
        Some(Instruction::Return)
    } else if spec_family(word) == 0x1 {
        Some(Instruction::Jump { nnn })
    } else if spec_family(word) == 0x2 {
        Some(Instruction::Call { nnn })
    } else if spec_family(word) == 0x3 {
        Some(Instruction::SkipEqByte { x, nn })
    } else if spec_family(word) == 0x4 {
        Some(Instruction::SkipNeByte { x, nn })
    } else if spec_family(word) == 0x5 {
        Some(Instruction::SkipEqReg { x, y })
    } else if spec_family(word) == 0x6 {
        Some(Instruction::LoadByte { x, nn })
    } else if spec_family(word) == 0x7 {
        Some(Instruction::AddByte { x, nn })
    } else if spec_family(word) == 0x8 {
        if n == 0x0 {
            Some(Instruction::LoadReg { x, y })
        } else if n == 0x1 {
            Some(Instruction::Or { x, y })
        } else if n == 0x2 {
            Some(Instruction::And { x, y })
        } else if n == 0x3 {
            Some(Instruction::Xor { x, y })
        } else if n == 0x4 {
            Some(Instruction::AddReg { x, y })
        } else if n == 0x5 {
            Some(Instruction::SubReg { x, y })
        } else if n == 0x6 {
            Some(Instruction::ShiftRight { x })
        } else if n == 0x7 {
            Some(Instruction::SubNotBorrow { x, y })
        } else if n == 0xE {
            Some(Instruction::ShiftLeft { x })
        } else {
            None
        }
    } else if spec_family(word) == 0x9 {
        Some(Instruction::SkipNeReg { x, y })
    } else if spec_family(word) == 0xA {
        Some(Instruction::LoadI { nnn })
    } else if spec_family(word) == 0xB {
        Some(Instruction::JumpV0 { nnn })
    } else if spec_family(word) == 0xC {
        Some(Instruction::Random { x, nn })
    } else if spec_family(word) == 0xD {
        Some(Instruction::Draw { x, y, n })
    } else if spec_family(word) == 0xE {
        if nn == 0x9E {
            Some(Instruction::SkipKeyPressed { x })
        } else if nn == 0xA1 {
            Some(Instruction::SkipKeyNotPressed { x })
        } else {
            None
        }
    } else if spec_family(word) == 0xF {
        if nn == 0x07 {
            Some(Instruction::LoadDelay { x })
        } else if nn == 0x0A {
            Some(Instruction::WaitKey { x })
        } else if nn == 0x15 {
            Some(Instruction::SetDelay { x })
        } else if nn == 0x18 {
            Some(Instruction::SetSound { x })
        } else if nn == 0x1E {
            Some(Instruction::AddI { x })
        } else if nn == 0x29 {
            Some(Instruction::LoadFont { x })
        } else if nn == 0x33 {
            Some(Instruction::StoreBcd { x })
        } else if nn == 0x55 {
            Some(Instruction::StoreRegs { x })
        } else if nn == 0x65 {
            Some(Instruction::ReadRegs { x })
        } else {
            None
        }
    } else {
        None
    }
}

/// Extract the operand fields and classify `word`.
pub fn decode(word: u16) -> (r: Option<Instruction>)
    ensures
        r == decode_spec(word),
        r matches Some(i) ==> i.valid(),
{
    let x = ((word / 0x100) % 0x10) as u8;
    let y = ((word / 0x10) % 0x10) as u8;
    let n = (word % 0x10) as u8;
    let nn = (word % 0x100) as u8;
    let nnn = word % 0x1000;
    let family = word / 0x1000;
    if word == 0x00E0 {
        Some(Instruction::ClearDisplay)
    } else if word == 0x00EE {
        Some(Instruction::Return)
    } else if family == 0x1 {
        Some(Instruction::Jump { nnn })
    } else if family == 0x2 {
        Some(Instruction::Call { nnn })
    } else if family == 0x3 {
        Some(Instruction::SkipEqByte { x, nn })
    } else if family == 0x4 {
        Some(Instruction::SkipNeByte { x, nn })
    } else if family == 0x5 {
        Some(Instruction::SkipEqReg { x, y })
    } else if family == 0x6 {
        Some(Instruction::LoadByte { x, nn })
    } else if family == 0x7 {
        Some(Instruction::AddByte { x, nn })
    } else if family == 0x8 {
        match n {
            0x0 => Some(Instruction::LoadReg { x, y }),
            0x1 => Some(Instruction::Or { x, y }),
            0x2 => Some(Instruction::And { x, y }),
            0x3 => Some(Instruction::Xor { x, y }),
            0x4 => Some(Instruction::AddReg { x, y }),
            0x5 => Some(Instruction::SubReg { x, y }),
            0x6 => Some(Instruction::ShiftRight { x }),
            0x7 => Some(Instruction::SubNotBorrow { x, y }),
            0xE => Some(Instruction::ShiftLeft { x }),
            _ => None,
        }
    } else if family == 0x9 {
        Some(Instruction::SkipNeReg { x, y })
    } else if family == 0xA {
        Some(Instruction::LoadI { nnn })
    } else if family == 0xB {
        Some(Instruction::JumpV0 { nnn })
    } else if family == 0xC {
        Some(Instruction::Random { x, nn })
    } else if family == 0xD {
        Some(Instruction::Draw { x, y, n })
    } else if family == 0xE {
        if nn == 0x9E {
            Some(Instruction::SkipKeyPressed { x })
        } else if nn == 0xA1 {
            Some(Instruction::SkipKeyNotPressed { x })
        } else {
            None
        }
    } else if family == 0xF {
        match nn {
            0x07 => Some(Instruction::LoadDelay { x }),
            0x0A => Some(Instruction::WaitKey { x }),
            0x15 => Some(Instruction::SetDelay { x }),
            0x18 => Some(Instruction::SetSound { x }),
            0x1E => Some(Instruction::AddI { x }),
            0x29 => Some(Instruction::LoadFont { x }),
            0x33 => Some(Instruction::StoreBcd { x }),
            0x55 => Some(Instruction::StoreRegs { x }),
            0x65 => Some(Instruction::ReadRegs { x }),
            _ => None,
        }
    } else {
        None
    }
}

} // verus!
