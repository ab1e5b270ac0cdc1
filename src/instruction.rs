use vstd::prelude::*;

verus! {

/// A decoded instruction. Register operands are indices 0 to 15, `u8` immediates are
/// the instruction's low byte, `u16` addresses its low twelve bits.
#[derive(Clone, Copy, Debug, PartialEq, Eq, Structural)]
pub enum Instruction {
    /// `0000`: do nothing.
    Nop,
    /// `00E0`: turn every framebuffer cell off.
    ClearScreen,
    /// `00EE`: return from a subroutine.
    Return,
    /// `1nnn`: jump to `nnn`.
    Jump(u16),
    /// `2nnn`: call the subroutine at `nnn`.
    Call(u16),
    /// `3xnn`: skip the next instruction if `Vx == nn`.
    SkipIfEqualImm(u8, u8),
    /// `4xnn`: skip the next instruction if `Vx != nn`.
    SkipIfNotEqualImm(u8, u8),
    /// `5xy0`: skip the next instruction if `Vx == Vy`.
    SkipIfEqualReg(u8, u8),
    /// `6xnn`: `Vx = nn`.
    SetImm(u8, u8),
    /// `7xnn`: `Vx += nn`, wrapping, flag untouched.
    AddImm(u8, u8),
    /// `8xy0`: `Vx = Vy`.
    Assign(u8, u8),
    /// `8xy1`: `Vx |= Vy`.
    Or(u8, u8),
    /// `8xy2`: `Vx &= Vy`.
    And(u8, u8),
    /// `8xy3`: `Vx ^= Vy`.
    Xor(u8, u8),
    /// `8xy4`: `Vx += Vy`, `VF` = carry.
    AddReg(u8, u8),
    /// `8xy5`: `Vx = Vx - Vy`, `VF` = not borrow.
    SubReg(u8, u8),
    /// `8xy6`: `Vx >>= 1`, `VF` = the bit shifted out.
    ShiftRight(u8),
    /// `8xy7`: `Vx = Vy - Vx`, `VF` = not borrow.
    SubRev(u8, u8),
    /// `8xyE`: `Vx <<= 1`, `VF` = the bit shifted out.
    ShiftLeft(u8),
    /// `9xy0`: skip the next instruction if `Vx != Vy`.
    SkipIfNotEqualReg(u8, u8),
    /// `Annn`: `I = nnn`.
    SetIndex(u16),
    /// `Bnnn`: jump to `nnn + V0`.
    JumpOffset(u16),
    /// `Cxnn`: `Vx` = a random byte AND `nn`.
    Random(u8, u8),
    /// `Dxyn`: draw the `n`-row sprite at `I` at `(Vx, Vy)`, `VF` = collision.
    Draw(u8, u8, u8),
    /// `Ex9E`: skip the next instruction if the key `Vx` is down.
    SkipIfKey(u8),
    /// `ExA1`: skip the next instruction if the key `Vx` is up.
    SkipIfNotKey(u8),
    /// `Fx07`: `Vx` = delay timer.
    GetDelay(u8),
    /// `Fx0A`: wait for a key and store its index in `Vx`.
    WaitKey(u8),
    /// `Fx15`: delay timer = `Vx`.
    SetDelay(u8),
    /// `Fx18`: sound timer = `Vx`.
    SetSound(u8),
    /// `Fx1E`: `I += Vx`, wrapping at 16 bits.
    AddIndex(u8),
    /// `Fx29`: `I` = address of the font glyph for `Vx`.
    FontChar(u8),
    /// `Fx33`: store the decimal digits of `Vx` at `I`, `I+1`, `I+2`.
    StoreBcd(u8),
    /// `Fx55`: store `V0` to `Vx` at `I` onwards.
    StoreRegs(u8),
    /// `Fx65`: load `V0` to `Vx` from `I` onwards.
    LoadRegs(u8),
}

/// The first (most significant) nibble of an instruction word.
pub open spec fn nibble1(op: u16) -> int {
    op as int / 4096
}

pub open spec fn nibble2(op: u16) -> int {
    (op as int / 256) % 16
}

pub open spec fn nibble3(op: u16) -> int {
    (op as int / 16) % 16
}

/// The last (least significant) nibble of an instruction word.
pub open spec fn nibble4(op: u16) -> int {
    op as int % 16
}

/// The instruction's low byte.
pub open spec fn low_byte(op: u16) -> u8 {
    (op as int % 256) as u8
}

/// The instruction's low twelve bits.
pub open spec fn address(op: u16) -> u16 {
    (op as int % 4096) as u16
}

/// The instruction that the word `op` encodes, if any.
pub open spec fn decode_spec(op: u16) -> Option<Instruction> {
    let d1 = nibble1(op);
    let x = nibble2(op) as u8;
    let y = nibble3(op) as u8;
    let d3 = nibble3(op);
    let d4 = nibble4(op);
    let nn = low_byte(op);
    let nnn = address(op);
    if op == 0x0000 {
        Some(Instruction::Nop)
    } else if op == 0x00E0 {
        Some(Instruction::ClearScreen)
    } else if op == 0x00EE {
        Some(Instruction::Return)
    } else if d1 == 1 {
        Some(Instruction::Jump(nnn))
    } else if d1 == 2 {
        Some(Instruction::Call(nnn))
    } else if d1 == 3 {
        Some(Instruction::SkipIfEqualImm(x, nn))
    } else if d1 == 4 {
        Some(Instruction::SkipIfNotEqualImm(x, nn))
    } else if d1 == 5 && d4 == 0 {
        Some(Instruction::SkipIfEqualReg(x, y))
    } else if d1 == 6 {
        Some(Instruction::SetImm(x, nn))
    } else if d1 == 7 {
        Some(Instruction::AddImm(x, nn))
    } else if d1 == 8 && d4 == 0 {
        Some(Instruction::Assign(x, y))
    } else if d1 == 8 && d4 == 1 {
        Some(Instruction::Or(x, y))
    } else if d1 == 8 && d4 == 2 {
        Some(Instruction::And(x, y))
    } else if d1 == 8 && d4 == 3 {
        Some(Instruction::Xor(x, y))
    } else if d1 == 8 && d4 == 4 {
        Some(Instruction::AddReg(x, y))
    } else if d1 == 8 && d4 == 5 {
        Some(Instruction::SubReg(x, y))
    } else if d1 == 8 && d4 == 6 {
        Some(Instruction::ShiftRight(x))
    } else if d1 == 8 && d4 == 7 {
        Some(Instruction::SubRev(x, y))
    } else if d1 == 8 && d4 == 0xE {
        Some(Instruction::ShiftLeft(x))
    } else if d1 == 9 && d4 == 0 {
        Some(Instruction::SkipIfNotEqualReg(x, y))
    } else if d1 == 0xA {
        Some(Instruction::SetIndex(nnn))
    } else if d1 == 0xB {
        Some(Instruction::JumpOffset(nnn))
    } else if d1 == 0xC {
        Some(Instruction::Random(x, nn))
    } else if d1 == 0xD {
        Some(Instruction::Draw(x, y, d4 as u8))
    } else if d1 == 0xE && nn == 0x9E {
        Some(Instruction::SkipIfKey(x))
    } else if d1 == 0xE && nn == 0xA1 {
        Some(Instruction::SkipIfNotKey(x))
    } else if d1 == 0xF && nn == 0x07 {
        Some(Instruction::GetDelay(x))
    } else if d1 == 0xF && nn == 0x0A {
        Some(Instruction::WaitKey(x))
    } else if d1 == 0xF && nn == 0x15 {
        Some(Instruction::SetDelay(x))
    } else if d1 == 0xF && nn == 0x18 {
        Some(Instruction::SetSound(x))
    } else if d1 == 0xF && nn == 0x1E {
        Some(Instruction::AddIndex(x))
    } else if d1 == 0xF && nn == 0x29 {
        Some(Instruction::FontChar(x))
    } else if d1 == 0xF && nn == 0x33 {
        Some(Instruction::StoreBcd(x))
    } else if d1 == 0xF && nn == 0x55 {
        Some(Instruction::StoreRegs(x))
    } else if d1 == 0xF && nn == 0x65 {
        Some(Instruction::LoadRegs(x))
    } else {
        None
    }
}

impl Instruction {
    /// Register indices and sprite heights fit in a nibble, addresses in twelve bits.
    pub open spec fn wf(self) -> bool {
        match self {
            Instruction::SkipIfEqualImm(x, _) | Instruction::SkipIfNotEqualImm(x, _)
            | Instruction::SetImm(x, _) | Instruction::AddImm(x, _) | Instruction::Random(x, _)
            | Instruction::ShiftRight(x) | Instruction::ShiftLeft(x) | Instruction::SkipIfKey(x)
            | Instruction::SkipIfNotKey(x) | Instruction::GetDelay(x) | Instruction::WaitKey(x)
            | Instruction::SetDelay(x) | Instruction::SetSound(x) | Instruction::AddIndex(x)
            | Instruction::FontChar(x) | Instruction::StoreBcd(x) | Instruction::StoreRegs(x)
            | Instruction::LoadRegs(x) => x < 16,
            Instruction::SkipIfEqualReg(x, y) | Instruction::SkipIfNotEqualReg(x, y)
            | Instruction::Assign(x, y) | Instruction::Or(x, y) | Instruction::And(x, y)
            | Instruction::Xor(x, y) | Instruction::AddReg(x, y) | Instruction::SubReg(x, y)
            | Instruction::SubRev(x, y) => x < 16 && y < 16,
            Instruction::Draw(x, y, n) => x < 16 && y < 16 && n < 16,
            Instruction::Jump(a) | Instruction::Call(a) | Instruction::SetIndex(a)
            | Instruction::JumpOffset(a) => a < 4096,
            _ => true,
        }
    }
}

/// Decodes an instruction word; `None` for a word that encodes no instruction.
pub fn decode(op: u16) -> (r: Option<Instruction>)
    ensures
        r == decode_spec(op),
        r matches Some(ins) ==> ins.wf(),
{
    let d1 = op / 4096;
    let x = ((op / 256) % 16) as u8;
    let y = ((op / 16) % 16) as u8;
    let d4 = op % 16;
    let nn = (op % 256) as u8;
    let nnn = op % 4096;
    if op == 0x0000 {
        Some(Instruction::Nop)
    } else if op == 0x00E0 {
        Some(Instruction::ClearScreen)
    } else if op == 0x00EE {
        Some(Instruction::Return)
    } else if d1 == 1 {
        Some(Instruction::Jump(nnn))
    } else if d1 == 2 {
        Some(Instruction::Call(nnn))
    } else if d1 == 3 {
        Some(Instruction::SkipIfEqualImm(x, nn))
    } else if d1 == 4 {
        Some(Instruction::SkipIfNotEqualImm(x, nn))
    } else if d1 == 5 && d4 == 0 {
        Some(Instruction::SkipIfEqualReg(x, y))
    } else if d1 == 6 {
        Some(Instruction::SetImm(x, nn))
    } else if d1 == 7 {
        Some(Instruction::AddImm(x, nn))
    } else if d1 == 8 && d4 == 0 {
        Some(Instruction::Assign(x, y))
    } else if d1 == 8 && d4 == 1 {
        Some(Instruction::Or(x, y))
    } else if d1 == 8 && d4 == 2 {
        Some(Instruction::And(x, y))
    } else if d1 == 8 && d4 == 3 {
        Some(Instruction::Xor(x, y))
    } else if d1 == 8 && d4 == 4 {
        Some(Instruction::AddReg(x, y))
    } else if d1 == 8 && d4 == 5 {
        Some(Instruction::SubReg(x, y))
    } else if d1 == 8 && d4 == 6 {
        Some(Instruction::ShiftRight(x))
    } else if d1 == 8 && d4 == 7 {
        Some(Instruction::SubRev(x, y))
    } else if d1 == 8 && d4 == 0xE {
        Some(Instruction::ShiftLeft(x))
    } else if d1 == 9 && d4 == 0 {
        Some(Instruction::SkipIfNotEqualReg(x, y))
    } else if d1 == 0xA {
        Some(Instruction::SetIndex(nnn))
    } else if d1 == 0xB {
        Some(Instruction::JumpOffset(nnn))
    } else if d1 == 0xC {
        Some(Instruction::Random(x, nn))
    } else if d1 == 0xD {
        Some(Instruction::Draw(x, y, d4 as u8))
    } else if d1 == 0xE && nn == 0x9E {
        Some(Instruction::SkipIfKey(x))
    } else if d1 == 0xE && nn == 0xA1 {
        Some(Instruction::SkipIfNotKey(x))
    } else if d1 == 0xF && nn == 0x07 {
        Some(Instruction::GetDelay(x))
    } else if d1 == 0xF && nn == 0x0A {
        Some(Instruction::WaitKey(x))
    } else if d1 == 0xF && nn == 0x15 {
        Some(Instruction::SetDelay(x))
    } else if d1 == 0xF && nn == 0x18 {
        Some(Instruction::SetSound(x))
    } else if d1 == 0xF && nn == 0x1E {
        Some(Instruction::AddIndex(x))
    } else if d1 == 0xF && nn == 0x29 {
        Some(Instruction::FontChar(x))
    } else if d1 == 0xF && nn == 0x33 {
        Some(Instruction::StoreBcd(x))
    } else if d1 == 0xF && nn == 0x55 {
        Some(Instruction::StoreRegs(x))
    } else if d1 == 0xF && nn == 0x65 {
        Some(Instruction::LoadRegs(x))
    } else {
        None
    }
}

} // verus!
