use vstd::prelude::*;

verus! {

/// A decoded CHIP-8 instruction: an operation tag plus typed operands (a
/// 12-bit address, an 8-bit immediate, a 4-bit nibble, and up to two 4-bit
/// register indices).
///
/// Decoding is total: every 16-bit opcode maps to exactly one of these
/// variants, with `Unknown` for any nibble pattern outside the table.
#[derive(Clone, Copy, Debug, PartialEq, Eq, Structural)]
pub enum Instruction {
    /// `00E0`: clear the display.
    Cls,
    /// `00EE`: return from a subroutine.
    Ret,
    /// `1nnn`: jump to `nnn`.
    JpAddr(u16),
    /// `2nnn`: call the subroutine at `nnn`.
    CallAddr(u16),
    /// `3xkk`: skip the next instruction if `Vx == kk`.
    SeVxByte(u8, u8),
    /// `4xkk`: skip the next instruction if `Vx != kk`.
    SneVxByte(u8, u8),
    /// `5xy0`: skip the next instruction if `Vx == Vy`.
    SeVxVy(u8, u8),
    /// `6xkk`: set `Vx = kk`.
    LdVxByte(u8, u8),
    /// `7xkk`: set `Vx = Vx + kk` (wrapping, no flag).
    AddVxByte(u8, u8),
    /// `8xy0`: set `Vx = Vy`.
    LdVxVy(u8, u8),
    /// `8xy1`: set `Vx = Vx | Vy`.
    OrVxVy(u8, u8),
    /// `8xy2`: set `Vx = Vx & Vy`.
    AndVxVy(u8, u8),
    /// `8xy3`: set `Vx = Vx ^ Vy`.
    XorVxVy(u8, u8),
    /// `8xy4`: set `Vx = Vx + Vy`, `VF` = carry.
    AddVxVy(u8, u8),
    /// `8xy5`: set `Vx = Vx - Vy`, `VF` = no borrow.
    SubVxVy(u8, u8),
    /// `8xy6`: set `Vx = Vx >> 1`, `VF` = low bit of the original `Vx`.
    ShrVx(u8),
    /// `8xy7`: set `Vx = Vy - Vx`, `VF` = no borrow.
    SubnVxVy(u8, u8),
    /// `8xyE`: set `Vx = Vx << 1`, `VF` = high bit of the original `Vx`.
    ShlVx(u8),
    /// `9xy0`: skip the next instruction if `Vx != Vy`.
    SneVxVy(u8, u8),
    /// `Annn`: set `I = nnn`.
    LdIAddr(u16),
    /// `Bnnn`: jump to `nnn + V0`.
    JpV0Addr(u16),
    /// `Cxkk`: set `Vx` = random byte AND `kk`.
    RndVxByte(u8, u8),
    /// `Dxyn`: draw the `n`-byte sprite at `mem[I..I+n]` at `(Vx, Vy)`,
    /// `VF` = collision.
    DrwVxVyNibble(u8, u8, u8),
    /// `Ex9E`: skip the next instruction if key `Vx` is pressed.
    SkpVx(u8),
    /// `ExA1`: skip the next instruction if key `Vx` is not pressed.
    SkpnVx(u8),
    /// `Fx07`: set `Vx` = delay timer.
    LdVxDt(u8),
    /// `Fx0A`: block until a key press, then set `Vx` = that key.
    LdVxK(u8),
    /// `Fx15`: set delay timer = `Vx`.
    LdDtVx(u8),
    /// `Fx18`: set sound timer = `Vx`.
    LdStVx(u8),
    /// `Fx1E`: set `I = I + Vx` (wrapping).
    AddIVx(u8),
    /// `Fx29`: set `I` = address of the font sprite for digit `Vx`.
    LdFVx(u8),
    /// `Fx33`: store the BCD digits of `Vx` at `mem[I..I+3]`.
    LdBVx(u8),
    /// `Fx55`: store `V0..Vx` into `mem[I..I+x+1]`.
    LdIVx(u8),
    /// `Fx65`: load `V0..Vx` from `mem[I..I+x+1]`.
    LdVxI(u8),
    /// Any nibble pattern outside the table; executes as a no-op that still
    /// advances the program counter.
    Unknown,
}

/// Every operand a decoded instruction carries is within its field's range:
/// register indices are 4-bit, nibbles are 4-bit, addresses are 12-bit.
pub open spec fn operands_wf(ins: Instruction) -> bool {
    match ins {
        Instruction::Cls => true,
        Instruction::Ret => true,
        Instruction::JpAddr(nnn) => nnn < 0x1000,
        Instruction::CallAddr(nnn) => nnn < 0x1000,
        Instruction::SeVxByte(x, _) => x < 16,
        Instruction::SneVxByte(x, _) => x < 16,
        Instruction::SeVxVy(x, y) => x < 16 && y < 16,
        Instruction::LdVxByte(x, _) => x < 16,
        Instruction::AddVxByte(x, _) => x < 16,
        Instruction::LdVxVy(x, y) => x < 16 && y < 16,
        Instruction::OrVxVy(x, y) => x < 16 && y < 16,
        Instruction::AndVxVy(x, y) => x < 16 && y < 16,
        Instruction::XorVxVy(x, y) => x < 16 && y < 16,
        Instruction::AddVxVy(x, y) => x < 16 && y < 16,
        Instruction::SubVxVy(x, y) => x < 16 && y < 16,
        Instruction::ShrVx(x) => x < 16,
        Instruction::SubnVxVy(x, y) => x < 16 && y < 16,
        Instruction::ShlVx(x) => x < 16,
        Instruction::SneVxVy(x, y) => x < 16 && y < 16,
        Instruction::LdIAddr(nnn) => nnn < 0x1000,
        Instruction::JpV0Addr(nnn) => nnn < 0x1000,
        Instruction::RndVxByte(x, _) => x < 16,
        Instruction::DrwVxVyNibble(x, y, n) => x < 16 && y < 16 && n < 16,
        Instruction::SkpVx(x) => x < 16,
        Instruction::SkpnVx(x) => x < 16,
        Instruction::LdVxDt(x) => x < 16,
        Instruction::LdVxK(x) => x < 16,
        Instruction::LdDtVx(x) => x < 16,
        Instruction::LdStVx(x) => x < 16,
        Instruction::AddIVx(x) => x < 16,
        Instruction::LdFVx(x) => x < 16,
        Instruction::LdBVx(x) => x < 16,
        Instruction::LdIVx(x) => x < 16,
        Instruction::LdVxI(x) => x < 16,
        Instruction::Unknown => true,
    }
}

/// What the decoder returns for every 16-bit opcode: the CHIP-8 encoding
/// table, keyed on the high nibble and disambiguated by the low nibble(s).
pub open spec fn spec_decode(op: u16) -> Instruction {
    let a = ((op >> 12) & 0xF) as u8;
    let x = ((op >> 8) & 0xF) as u8;
    let y = ((op >> 4) & 0xF) as u8;
    let d = (op & 0xF) as u8;
    let nnn = op & 0xFFF;
    let kk = (op & 0xFF) as u8;
    match (a, x, y, d) {
        (0x0, 0x0, 0xE, 0x0) => Instruction::Cls,
        (0x0, 0x0, 0xE, 0xE) => Instruction::Ret,
        (0x1, _, _, _) => Instruction::JpAddr(nnn),
        (0x2, _, _, _) => Instruction::CallAddr(nnn),
        (0x3, _, _, _) => Instruction::SeVxByte(x, kk),
        (0x4, _, _, _) => Instruction::SneVxByte(x, kk),
        (0x5, _, _, 0x0) => Instruction::SeVxVy(x, y),
        (0x6, _, _, _) => Instruction::LdVxByte(x, kk),
        (0x7, _, _, _) => Instruction::AddVxByte(x, kk),
        (0x8, _, _, 0x0) => Instruction::LdVxVy(x, y),
        (0x8, _, _, 0x1) => Instruction::OrVxVy(x, y),
        (0x8, _, _, 0x2) => Instruction::AndVxVy(x, y),
        (0x8, _, _, 0x3) => Instruction::XorVxVy(x, y),
        (0x8, _, _, 0x4) => Instruction::AddVxVy(x, y),
        (0x8, _, _, 0x5) => Instruction::SubVxVy(x, y),
        (0x8, _, _, 0x6) => Instruction::ShrVx(x),
        (0x8, _, _, 0x7) => Instruction::SubnVxVy(x, y),
        (0x8, _, _, 0xE) => Instruction::ShlVx(x),
        (0x9, _, _, 0x0) => Instruction::SneVxVy(x, y),
        (0xA, _, _, _) => Instruction::LdIAddr(nnn),
        (0xB, _, _, _) => Instruction::JpV0Addr(nnn),
        (0xC, _, _, _) => Instruction::RndVxByte(x, kk),
        (0xD, _, _, _) => Instruction::DrwVxVyNibble(x, y, d),
        (0xE, _, 0x9, 0xE) => Instruction::SkpVx(x),
        (0xE, _, 0xA, 0x1) => Instruction::SkpnVx(x),
        (0xF, _, 0x0, 0x7) => Instruction::LdVxDt(x),
        (0xF, _, 0x0, 0xA) => Instruction::LdVxK(x),
        (0xF, _, 0x1, 0x5) => Instruction::LdDtVx(x),
        (0xF, _, 0x1, 0x8) => Instruction::LdStVx(x),
        (0xF, _, 0x1, 0xE) => Instruction::AddIVx(x),
        (0xF, _, 0x2, 0x9) => Instruction::LdFVx(x),
        (0xF, _, 0x3, 0x3) => Instruction::LdBVx(x),
        (0xF, _, 0x5, 0x5) => Instruction::LdIVx(x),
        (0xF, _, 0x6, 0x5) => Instruction::LdVxI(x),
        _ => Instruction::Unknown,
    }
}

/// Splits an opcode into its four nibbles and keys the encoding table on
/// them.  Total: any pattern outside the table decodes to `Unknown`.
pub fn decode(op: u16) -> (ins: Instruction)
    ensures
        ins == spec_decode(op),
        operands_wf(ins),
{
    let a: u8 = ((op >> 12) & 0xF) as u8;
    let x: u8 = ((op >> 8) & 0xF) as u8;
    let y: u8 = ((op >> 4) & 0xF) as u8;
    let d: u8 = (op & 0xF) as u8;
    let nnn: u16 = op & 0xFFF;
    let kk: u8 = (op & 0xFF) as u8;
    proof {
        assert(((op >> 8) & 0xF) < 16 && ((op >> 4) & 0xF) < 16 && (op & 0xF) < 16 && (op
            & 0xFFF) < 0x1000) by (bit_vector);
    }
    match (a, x, y, d) {
        (0x0, 0x0, 0xE, 0x0) => Instruction::Cls,
        (0x0, 0x0, 0xE, 0xE) => Instruction::Ret,
        (0x1, _, _, _) => Instruction::JpAddr(nnn),
        (0x2, _, _, _) => Instruction::CallAddr(nnn),
        (0x3, _, _, _) => Instruction::SeVxByte(x, kk),
        (0x4, _, _, _) => Instruction::SneVxByte(x, kk),
        (0x5, _, _, 0x0) => Instruction::SeVxVy(x, y),
        (0x6, _, _, _) => Instruction::LdVxByte(x, kk),
        (0x7, _, _, _) => Instruction::AddVxByte(x, kk),
        (0x8, _, _, 0x0) => Instruction::LdVxVy(x, y),
        (0x8, _, _, 0x1) => Instruction::OrVxVy(x, y),
        (0x8, _, _, 0x2) => Instruction::AndVxVy(x, y),
        (0x8, _, _, 0x3) => Instruction::XorVxVy(x, y),
        (0x8, _, _, 0x4) => Instruction::AddVxVy(x, y),
        (0x8, _, _, 0x5) => Instruction::SubVxVy(x, y),
        (0x8, _, _, 0x6) => Instruction::ShrVx(x),
        (0x8, _, _, 0x7) => Instruction::SubnVxVy(x, y),
        (0x8, _, _, 0xE) => Instruction::ShlVx(x),
        (0x9, _, _, 0x0) => Instruction::SneVxVy(x, y),
        (0xA, _, _, _) => Instruction::LdIAddr(nnn),
        (0xB, _, _, _) => Instruction::JpV0Addr(nnn),
        (0xC, _, _, _) => Instruction::RndVxByte(x, kk),
        (0xD, _, _, _) => Instruction::DrwVxVyNibble(x, y, d),
        (0xE, _, 0x9, 0xE) => Instruction::SkpVx(x),
        (0xE, _, 0xA, 0x1) => Instruction::SkpnVx(x),
        (0xF, _, 0x0, 0x7) => Instruction::LdVxDt(x),
        (0xF, _, 0x0, 0xA) => Instruction::LdVxK(x),
        (0xF, _, 0x1, 0x5) => Instruction::LdDtVx(x),
        (0xF, _, 0x1, 0x8) => Instruction::LdStVx(x),
        (0xF, _, 0x1, 0xE) => Instruction::AddIVx(x),
        (0xF, _, 0x2, 0x9) => Instruction::LdFVx(x),
        (0xF, _, 0x3, 0x3) => Instruction::LdBVx(x),
        (0xF, _, 0x5, 0x5) => Instruction::LdIVx(x),
        (0xF, _, 0x6, 0x5) => Instruction::LdVxI(x),
        _ => Instruction::Unknown,
    }
}

} // verus!
