use vstd::prelude::*;
use crate::error::EmulatorError;

verus! {

/// One decoded instruction. `x` and `y` name registers, `kk` is an 8-bit
/// immediate, `addr` a 12-bit address and `n` a sprite height.
#[derive(Debug, Clone, Copy, PartialEq, Eq, Structural)]
pub enum Instruction {
    /// `00E0`: clear the display.
    ClearScreen,
    /// `00EE`: return from a subroutine.
    Return,
    /// `1nnn`: jump to `addr`.
    Jump { addr: u16 },
    /// `2nnn`: call the subroutine at `addr`.
    Call { addr: u16 },
    /// `3xkk`: skip the next instruction if `Vx == kk`.
    SkipEqImm { x: u8, kk: u8 },
    /// `4xkk`: skip the next instruction if `Vx != kk`.
    SkipNeImm { x: u8, kk: u8 },
    /// `5xy0`: skip the next instruction if `Vx == Vy`.
    SkipEqReg { x: u8, y: u8 },
    /// `6xkk`: `Vx = kk`.
    LoadImm { x: u8, kk: u8 },
    /// `7xkk`: `Vx = Vx + kk`, wrapping, no flag.
    AddImm { x: u8, kk: u8 },
    /// `8xy0`: `Vx = Vy`.
    Move { x: u8, y: u8 },
    /// `8xy1`: `Vx = Vx | Vy`.
    Or { x: u8, y: u8 },
    /// `8xy2`: `Vx = Vx & Vy`.
    And { x: u8, y: u8 },
    /// `8xy3`: `Vx = Vx ^ Vy`.
    Xor { x: u8, y: u8 },
    /// `8xy4`: `Vx = Vx + Vy`, carry into `VF`.
    AddReg { x: u8, y: u8 },
    /// `8xy5`: `Vx = Vx - Vy`, not-borrow into `VF`.
    SubReg { x: u8, y: u8 },
    /// `8x_6`: `Vx = Vx >> 1`, the low bit into `VF`.
    ShiftRight { x: u8 },
    /// `8xy7`: `Vx = Vy - Vx`, not-borrow into `VF`.
    SubReversed { x: u8, y: u8 },
    /// `8x_E`: `Vx = Vx << 1`, the high bit into `VF`.
    ShiftLeft { x: u8 },
    /// `9xy0`: skip the next instruction if `Vx != Vy`.
    SkipNeReg { x: u8, y: u8 },
    /// `Annn`: `I = addr`.
    LoadIndex { addr: u16 },
    /// `Bnnn`: jump to `V0 + addr`.
    JumpOffset { addr: u16 },
    /// `Cxkk`: `Vx = random byte & kk`.
    Random { x: u8, kk: u8 },
    /// `Dxyn`: draw the `n`-row sprite at `I` at `(Vx, Vy)`.
    Draw { x: u8, y: u8, n: u8 },
    /// `Ex9E`: skip the next instruction if key `Vx` is pressed.
    SkipKeyPressed { x: u8 },
    /// `ExA1`: skip the next instruction if key `Vx` is not pressed.
    SkipKeyNotPressed { x: u8 },
    /// `Fx07`: `Vx = delay timer`.
    ReadDelay { x: u8 },
    /// `Fx0A`: wait for a key and store it in `Vx`.
    WaitKey { x: u8 },
    /// `Fx15`: `delay timer = Vx`.
    SetDelay { x: u8 },
    /// `Fx18`: `sound timer = Vx`.
    SetSound { x: u8 },
    /// `Fx1E`: `I = I + Vx`, wrapping at sixteen bits.
    AddIndex { x: u8 },
    /// `Fx29`: `I` = address of the glyph for digit `Vx`, five bytes per
    /// glyph from the base of the glyph table.
    LoadGlyph { x: u8 },
    /// `Fx33`: store the three decimal digits of `Vx` at `I`, `I+1`, `I+2`.
    StoreBcd { x: u8 },
    /// `Fx55`: store `V0..=Vx` at `I`.
    StoreRegs { x: u8 },
    /// `Fx65`: load `V0..=Vx` from `I`.
    LoadRegs { x: u8 },
}

impl Instruction {
    /// Every field fits the width of the instruction field it comes from:
    /// registers and sprite heights in four bits, addresses in twelve.
    pub open spec fn valid(self) -> bool {
        match self {
            Instruction::ClearScreen | Instruction::Return => true,
            Instruction::Jump { addr }
            | Instruction::Call { addr }
            | Instruction::LoadIndex { addr }
            | Instruction::JumpOffset { addr } => addr < 4096,
            Instruction::SkipEqImm { x, .. }
            | Instruction::SkipNeImm { x, .. }
            | Instruction::LoadImm { x, .. }
            | Instruction::AddImm { x, .. }
            | Instruction::Random { x, .. }
            | Instruction::ShiftRight { x }
            | Instruction::ShiftLeft { x }
            | Instruction::SkipKeyPressed { x }
            | Instruction::SkipKeyNotPressed { x }
            | Instruction::ReadDelay { x }
            | Instruction::WaitKey { x }
            | Instruction::SetDelay { x }
            | Instruction::SetSound { x }
            | Instruction::AddIndex { x }
            | Instruction::LoadGlyph { x }
            | Instruction::StoreBcd { x }
            | Instruction::StoreRegs { x }
            | Instruction::LoadRegs { x } => x < 16,
            Instruction::SkipEqReg { x, y }
            | Instruction::Move { x, y }
            | Instruction::Or { x, y }
            | Instruction::And { x, y }
            | Instruction::Xor { x, y }
            | Instruction::AddReg { x, y }
            | Instruction::SubReg { x, y }
            | Instruction::SubReversed { x, y }
            | Instruction::SkipNeReg { x, y } => x < 16 && y < 16,
            Instruction::Draw { x, y, n } => x < 16 && y < 16 && n < 16,
        }
    }

    /// The instructions that only compute on the general registers.
    pub open spec fn is_arithmetic(self) -> bool {
        self is LoadImm || self is AddImm || self is Move || self is Or || self is And
            || self is Xor || self is AddReg || self is SubReg || self is SubReversed
            || self is ShiftRight || self is ShiftLeft || self is Random
    }

    /// The instructions on the address register, the display, the timers,
    /// the key wait and memory.
    pub open spec fn is_peripheral(self) -> bool {
        self is LoadIndex || self is Draw || self is ReadDelay || self is WaitKey
            || self is SetDelay || self is SetSound || self is AddIndex || self is LoadGlyph
            || self is StoreBcd || self is StoreRegs || self is LoadRegs
    }

    /// Tells whether the instruction is [`valid`](Instruction::valid).
    pub fn is_valid(&self) -> (ok: bool)
        ensures
            ok == self.valid(),
    {
        match *self {
            Instruction::ClearScreen | Instruction::Return => true,
            Instruction::Jump { addr }
            | Instruction::Call { addr }
            | Instruction::LoadIndex { addr }
            | Instruction::JumpOffset { addr } => addr < 4096,
            Instruction::SkipEqImm { x, .. }
            | Instruction::SkipNeImm { x, .. }
            | Instruction::LoadImm { x, .. }
            | Instruction::AddImm { x, .. }
            | Instruction::Random { x, .. }
            | Instruction::ShiftRight { x }
            | Instruction::ShiftLeft { x }
            | Instruction::SkipKeyPressed { x }
            | Instruction::SkipKeyNotPressed { x }
            | Instruction::ReadDelay { x }
            | Instruction::WaitKey { x }
            | Instruction::SetDelay { x }
            | Instruction::SetSound { x }
            | Instruction::AddIndex { x }
            | Instruction::LoadGlyph { x }
            | Instruction::StoreBcd { x }
            | Instruction::StoreRegs { x }
            | Instruction::LoadRegs { x } => x < 16,
            Instruction::SkipEqReg { x, y }
            | Instruction::Move { x, y }
            | Instruction::Or { x, y }
            | Instruction::And { x, y }
            | Instruction::Xor { x, y }
            | Instruction::AddReg { x, y }
            | Instruction::SubReg { x, y }
            | Instruction::SubReversed { x, y }
            | Instruction::SkipNeReg { x, y } => x < 16 && y < 16,
            Instruction::Draw { x, y, n } => x < 16 && y < 16 && n < 16,
        }
    }
}

/// The register-register instruction `8xyn` selected by its last nibble.
pub open spec fn decode_alu(x: u8, y: u8, n: u8) -> Result<Instruction, EmulatorError> {
    if n == 0x0 {
        Ok(Instruction::Move { x, y })
    } else if n == 0x1 {
        Ok(Instruction::Or { x, y })
    } else if n == 0x2 {
        Ok(Instruction::And { x, y })
    } else if n == 0x3 {
        Ok(Instruction::Xor { x, y })
    } else if n == 0x4 {
        Ok(Instruction::AddReg { x, y })
    } else if n == 0x5 {
        Ok(Instruction::SubReg { x, y })
    } else if n == 0x6 {
        Ok(Instruction::ShiftRight { x })
    } else if n == 0x7 {
        Ok(Instruction::SubReversed { x, y })
    } else if n == 0xE {
        Ok(Instruction::ShiftLeft { x })
    } else {
        Err(EmulatorError::InvalidInstruction)
    }
}

/// The instruction `Fxkk` selected by its low byte.
pub open spec fn decode_misc(x: u8, kk: u8) -> Result<Instruction, EmulatorError> {
    if kk == 0x07 {
        Ok(Instruction::ReadDelay { x })
    } else if kk == 0x0A {
        Ok(Instruction::WaitKey { x })
    } else if kk == 0x15 {
        Ok(Instruction::SetDelay { x })
    } else if kk == 0x18 {
        Ok(Instruction::SetSound { x })
    } else if kk == 0x1E {
        Ok(Instruction::AddIndex { x })
    } else if kk == 0x29 {
        Ok(Instruction::LoadGlyph { x })
    } else if kk == 0x33 {
        Ok(Instruction::StoreBcd { x })
    } else if kk == 0x55 {
        Ok(Instruction::StoreRegs { x })
    } else if kk == 0x65 {
        Ok(Instruction::LoadRegs { x })
    } else {
        Err(EmulatorError::InvalidInstruction)
    }
}

/// What a 16-bit opcode means. The opcode is read as four hexadecimal
/// digits `a x y n`; its low byte is `kk` and its low twelve bits are `nnn`.
pub open spec fn decode_spec(opcode: u16) -> Result<Instruction, EmulatorError> {
    let a = opcode as int / 0x1000;
    let x = ((opcode as int / 0x100) % 0x10) as u8;
    let y = ((opcode as int / 0x10) % 0x10) as u8;
    let n = (opcode as int % 0x10) as u8;
    let kk = (opcode as int % 0x100) as u8;
    let addr = (opcode as int % 0x1000) as u16;
    if a == 0x0 {
        if opcode == 0x00E0 {
            Ok(Instruction::ClearScreen)
        } else if opcode == 0x00EE {
            Ok(Instruction::Return)
        } else {
            Err(EmulatorError::UnsupportedOpcode)
        }
    } else if a == 0x1 {
        Ok(Instruction::Jump { addr })
    } else if a == 0x2 {
        Ok(Instruction::Call { addr })
    } else if a == 0x3 {
        Ok(Instruction::SkipEqImm { x, kk })
    } else if a == 0x4 {
        Ok(Instruction::SkipNeImm { x, kk })
    } else if a == 0x5 {
        if n == 0 {
            Ok(Instruction::SkipEqReg { x, y })
        } else {
            Err(EmulatorError::InvalidInstruction)
        }
    } else if a == 0x6 {
        Ok(Instruction::LoadImm { x, kk })
    } else if a == 0x7 {
        Ok(Instruction::AddImm { x, kk })
    } else if a == 0x8 {
        decode_alu(x, y, n)
    } else if a == 0x9 {
        if n == 0 {
            Ok(Instruction::SkipNeReg { x, y })
        } else {
            Err(EmulatorError::InvalidInstruction)
        }
    } else if a == 0xA {
        Ok(Instruction::LoadIndex { addr })
    } else if a == 0xB {
        Ok(Instruction::JumpOffset { addr })
    } else if a == 0xC {
        Ok(Instruction::Random { x, kk })
    } else if a == 0xD {
        Ok(Instruction::Draw { x, y, n })
    } else if a == 0xE {
        if kk == 0x9E {
            Ok(Instruction::SkipKeyPressed { x })
        } else if kk == 0xA1 {
            Ok(Instruction::SkipKeyNotPressed { x })
        } else {
            Err(EmulatorError::InvalidInstruction)
        }
    } else {
        decode_misc(x, kk)
    }
}

/// The fields that the shifts and masks of [`decode`] extract are the
/// hexadecimal digits of the opcode.
proof fn lemma_opcode_fields(opcode: u16)
    ensures
        (opcode >> 12) as int == opcode as int / 0x1000,
        ((opcode >> 8) & 0xF) as int == (opcode as int / 0x100) % 0x10,
        ((opcode >> 4) & 0xF) as int == (opcode as int / 0x10) % 0x10,
        (opcode & 0xF) as int == opcode as int % 0x10,
        (opcode & 0xFF) as int == opcode as int % 0x100,
        (opcode & 0xFFF) as int == opcode as int % 0x1000,
        (opcode >> 12) < 0x10,
{
    assert(opcode >> 12 == opcode / 0x1000) by (bit_vector);
    assert((opcode >> 8) & 0xF == (opcode / 0x100) % 0x10) by (bit_vector);
    assert((opcode >> 4) & 0xF == (opcode / 0x10) % 0x10) by (bit_vector);
    assert(opcode & 0xF == opcode % 0x10) by (bit_vector);
    assert(opcode & 0xFF == opcode % 0x100) by (bit_vector);
    assert(opcode & 0xFFF == opcode % 0x1000) by (bit_vector);
    assert((opcode >> 12) < 0x10) by (bit_vector);
}

/// Decodes one opcode.
///
/// Returns the instruction that the opcode encodes, `UnsupportedOpcode` for a
/// legacy machine-code call and `InvalidInstruction` for a word that encodes
/// nothing, exactly as [`decode_spec`] says. A decoded instruction is always
/// [`valid`](Instruction::valid).
pub fn decode(opcode: u16) -> (res: Result<Instruction, EmulatorError>)
    ensures
        res == decode_spec(opcode),
        res matches Ok(instr) ==> instr.valid(),
{
    proof {
        lemma_opcode_fields(opcode);
    }
    let a: u16 = opcode >> 12;
    let x: u8 = ((opcode >> 8) & 0xF) as u8;
    let y: u8 = ((opcode >> 4) & 0xF) as u8;
    let n: u8 = (opcode & 0xF) as u8;
    let kk: u8 = (opcode & 0xFF) as u8;
    let addr: u16 = opcode & 0xFFF;
    match (a, x, y, n) {
        (0x0, 0x0, 0xE, 0x0) => Ok(Instruction::ClearScreen),
        (0x0, 0x0, 0xE, 0xE) => Ok(Instruction::Return),
        (0x0, _, _, _) => Err(EmulatorError::UnsupportedOpcode),
        (0x1, _, _, _) => Ok(Instruction::Jump { addr }),
        (0x2, _, _, _) => Ok(Instruction::Call { addr }),
        (0x3, _, _, _) => Ok(Instruction::SkipEqImm { x, kk }),
        (0x4, _, _, _) => Ok(Instruction::SkipNeImm { x, kk }),
        (0x5, _, _, 0x0) => Ok(Instruction::SkipEqReg { x, y }),
        (0x6, _, _, _) => Ok(Instruction::LoadImm { x, kk }),
        (0x7, _, _, _) => Ok(Instruction::AddImm { x, kk }),
        (0x8, _, _, 0x0) => Ok(Instruction::Move { x, y }),
        (0x8, _, _, 0x1) => Ok(Instruction::Or { x, y }),
        (0x8, _, _, 0x2) => Ok(Instruction::And { x, y }),
        (0x8, _, _, 0x3) => Ok(Instruction::Xor { x, y }),
        (0x8, _, _, 0x4) => Ok(Instruction::AddReg { x, y }),
        (0x8, _, _, 0x5) => Ok(Instruction::SubReg { x, y }),
        (0x8, _, _, 0x6) => Ok(Instruction::ShiftRight { x }),
        (0x8, _, _, 0x7) => Ok(Instruction::SubReversed { x, y }),
        (0x8, _, _, 0xE) => Ok(Instruction::ShiftLeft { x }),
        (0x9, _, _, 0x0) => Ok(Instruction::SkipNeReg { x, y }),
        (0xA, _, _, _) => Ok(Instruction::LoadIndex { addr }),
        (0xB, _, _, _) => Ok(Instruction::JumpOffset { addr }),
        (0xC, _, _, _) => Ok(Instruction::Random { x, kk }),
        (0xD, _, _, _) => Ok(Instruction::Draw { x, y, n }),
        (0xE, _, 0x9, 0xE) => Ok(Instruction::SkipKeyPressed { x }),
        (0xE, _, 0xA, 0x1) => Ok(Instruction::SkipKeyNotPressed { x }),
        (0xF, _, 0x0, 0x7) => Ok(Instruction::ReadDelay { x }),
        (0xF, _, 0x0, 0xA) => Ok(Instruction::WaitKey { x }),
        (0xF, _, 0x1, 0x5) => Ok(Instruction::SetDelay { x }),
        (0xF, _, 0x1, 0x8) => Ok(Instruction::SetSound { x }),
        (0xF, _, 0x1, 0xE) => Ok(Instruction::AddIndex { x }),
        (0xF, _, 0x2, 0x9) => Ok(Instruction::LoadGlyph { x }),
        (0xF, _, 0x3, 0x3) => Ok(Instruction::StoreBcd { x }),
        (0xF, _, 0x5, 0x5) => Ok(Instruction::StoreRegs { x }),
        (0xF, _, 0x6, 0x5) => Ok(Instruction::LoadRegs { x }),
        _ => Err(EmulatorError::InvalidInstruction),
    }
}

} // verus!
