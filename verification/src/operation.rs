//! The instruction set: one variant per operation, the nibble pattern that
//! selects it, and the decoder.

use vstd::prelude::*;

verus! {

/// An instruction word, viewed as four nibbles from most to least significant.
pub type Opcode = (u8, u8, u8, u8);

/// Each position of an instruction word holds a 4-bit value.
pub open spec fn is_opcode(opcode: Opcode) -> bool {
    opcode.0 < 16 && opcode.1 < 16 && opcode.2 < 16 && opcode.3 < 16
}

/// The operations of the machine. In the comments `x` and `y` are register
/// indices, `kk` a byte, `nnn` an address and `n` a nibble.
#[derive(Clone, Copy, Debug, PartialEq, Eq, Structural)]
pub enum Operation {
    /// `00E0`: clear the screen.
    ClearScreen,
    /// `00EE`: return from a subroutine.
    Return,
    /// `1nnn`: jump to `nnn`.
    Jump,
    /// `2nnn`: call the subroutine at `nnn`.
    Call,
    /// `3xkk`: skip the next instruction if `Vx == kk`.
    SkipEqByte,
    /// `4xkk`: skip the next instruction if `Vx != kk`.
    SkipNeByte,
    /// `5xy0`: skip the next instruction if `Vx == Vy`.
    SkipEqReg,
    /// `6xkk`: set `Vx` to `kk`.
    LoadByte,
    /// `7xkk`: add `kk` to `Vx`, wrapping, without a flag.
    AddByte,
    /// `8xy0`: set `Vx` to `Vy`.
    Move,
    /// `8xy1`: set `Vx` to `Vx | Vy`.
    Or,
    /// `8xy2`: set `Vx` to `Vx & Vy`.
    And,
    /// `8xy3`: set `Vx` to `Vx ^ Vy`.
    Xor,
    /// `8xy4`: add `Vy` to `Vx`; `VF` is the carry.
    AddCarry,
    /// `8xy5`: subtract `Vy` from `Vx`; `VF` is 0 on a borrow and 1 otherwise.
    SubBorrow,
    /// `8xy6`: shift `Vx` right by one; `VF` is the bit shifted out.
    ShiftRight,
    /// `8xy7`: set `Vx` to `Vy - Vx`; `VF` is 0 on a borrow and 1 otherwise.
    SubReverse,
    /// `8xyE`: shift `Vx` left by one; `VF` is the bit shifted out.
    ShiftLeft,
    /// `9xy0`: skip the next instruction if `Vx != Vy`.
    SkipNeReg,
    /// `Annn`: set `I` to `nnn`.
    LoadIndex,
    /// `Bnnn`: jump to `nnn + V0`.
    JumpOffset,
    /// `Cxkk`: set `Vx` to a random byte masked with `kk`.
    Random,
    /// `Dxyn`: draw the `n`-byte sprite at `I` at position `(Vx, Vy)`.
    Draw,
    /// `Ex9E`: skip the next instruction if key `Vx` is down.
    SkipKeyDown,
    /// `ExA1`: skip the next instruction if key `Vx` is up.
    SkipKeyUp,
    /// `Fx07`: set `Vx` to the delay timer.
    ReadDelay,
    /// `Fx0A`: ask for a key press to be stored in `Vx`.
    WaitKey,
    /// `Fx15`: set the delay timer to `Vx`.
    SetDelay,
    /// `Fx18`: set the sound timer to `Vx`.
    SetSound,
    /// `Fx1E`: add `Vx` to `I`.
    AddIndex,
    /// `Fx29`: set `I` to the address of the glyph for digit `Vx`.
    FontGlyph,
    /// `Fx33`: store the three decimal digits of `Vx` at `I`.
    StoreBcd,
    /// `Fx55`: store `V0..=Vx` at `I`.
    StoreRegs,
    /// `Fx65`: load `V0..=Vx` from `I`.
    LoadRegs,
}

impl Operation {
    /// Whether `opcode` has the nibble pattern of this operation. Positions that
    /// a pattern does not mention may hold anything.
    pub open spec fn accepts(self, opcode: Opcode) -> bool {
        match self {
            Operation::ClearScreen => opcode == (0x0u8, 0x0u8, 0xEu8, 0x0u8),
            Operation::Return => opcode == (0x0u8, 0x0u8, 0xEu8, 0xEu8),
            Operation::Jump => opcode.0 == 0x1,
            Operation::Call => opcode.0 == 0x2,
            Operation::SkipEqByte => opcode.0 == 0x3,
            Operation::SkipNeByte => opcode.0 == 0x4,
            Operation::SkipEqReg => opcode.0 == 0x5 && opcode.3 == 0x0,
            Operation::LoadByte => opcode.0 == 0x6,
            Operation::AddByte => opcode.0 == 0x7,
            Operation::Move => opcode.0 == 0x8 && opcode.3 == 0x0,
            Operation::Or => opcode.0 == 0x8 && opcode.3 == 0x1,
            Operation::And => opcode.0 == 0x8 && opcode.3 == 0x2,
            Operation::Xor => opcode.0 == 0x8 && opcode.3 == 0x3,
            Operation::AddCarry => opcode.0 == 0x8 && opcode.3 == 0x4,
            Operation::SubBorrow => opcode.0 == 0x8 && opcode.3 == 0x5,
            Operation::ShiftRight => opcode.0 == 0x8 && opcode.3 == 0x6,
            Operation::SubReverse => opcode.0 == 0x8 && opcode.3 == 0x7,
            Operation::ShiftLeft => opcode.0 == 0x8 && opcode.3 == 0xE,
            Operation::SkipNeReg => opcode.0 == 0x9 && opcode.3 == 0x0,
            Operation::LoadIndex => opcode.0 == 0xA,
            Operation::JumpOffset => opcode.0 == 0xB,
            Operation::Random => opcode.0 == 0xC,
            Operation::Draw => opcode.0 == 0xD,
            Operation::SkipKeyDown => opcode.0 == 0xE && opcode.2 == 0x9 && opcode.3 == 0xE,
            Operation::SkipKeyUp => opcode.0 == 0xE && opcode.2 == 0xA && opcode.3 == 0x1,
            Operation::ReadDelay => opcode.0 == 0xF && opcode.2 == 0x0 && opcode.3 == 0x7,
            Operation::WaitKey => opcode.0 == 0xF && opcode.2 == 0x0 && opcode.3 == 0xA,
            Operation::SetDelay => opcode.0 == 0xF && opcode.2 == 0x1 && opcode.3 == 0x5,
            Operation::SetSound => opcode.0 == 0xF && opcode.2 == 0x1 && opcode.3 == 0x8,
            Operation::AddIndex => opcode.0 == 0xF && opcode.2 == 0x1 && opcode.3 == 0xE,
            Operation::FontGlyph => opcode.0 == 0xF && opcode.2 == 0x2 && opcode.3 == 0x9,
            Operation::StoreBcd => opcode.0 == 0xF && opcode.2 == 0x3 && opcode.3 == 0x3,
            Operation::StoreRegs => opcode.0 == 0xF && opcode.2 == 0x5 && opcode.3 == 0x5,
            Operation::LoadRegs => opcode.0 == 0xF && opcode.2 == 0x6 && opcode.3 == 0x5,
        }
    }

    /// The operations that set the program counter outright: jumps, the call
    /// and the return.
    pub open spec fn is_jump(self) -> bool {
        self is Return || self is Jump || self is Call || self is JumpOffset
    }

    /// The operations that skip the next instruction on a condition.
    pub open spec fn is_skip(self) -> bool {
        self is SkipEqByte || self is SkipNeByte || self is SkipEqReg || self is SkipNeReg
            || self is SkipKeyDown || self is SkipKeyUp
    }

    /// The operations that combine two registers.
    pub open spec fn is_alu(self) -> bool {
        self is Move || self is Or || self is And || self is Xor || self is AddCarry
            || self is SubBorrow || self is ShiftRight || self is SubReverse || self is ShiftLeft
    }

    /// No two patterns overlap: an instruction word selects at most one operation.
    pub proof fn lemma_patterns_disjoint(self, other: Operation, opcode: Opcode)
        requires
            self.accepts(opcode),
            other.accepts(opcode),
        ensures
            self == other,
    {
    }
}

/// The operation that `opcode` selects, if any.
pub open spec fn decode_spec(opcode: Opcode) -> Option<Operation> {
    if exists|op: Operation| op.accepts(opcode) {
        Some(choose|op: Operation| op.accepts(opcode))
    } else {
        None
    }
}

/// Decoding finds an operation exactly when some pattern matches, and then it
/// is the one operation whose pattern matches.
pub proof fn lemma_decode_spec(opcode: Opcode, op: Operation)
    ensures
        decode_spec(opcode) == Some(op) <==> op.accepts(opcode),
        decode_spec(opcode) is None <==> forall|o: Operation| !o.accepts(opcode),
{
    if op.accepts(opcode) {
        let chosen = choose|o: Operation| o.accepts(opcode);
        chosen.lemma_patterns_disjoint(op, opcode);
    }
}

/// Maps an instruction word to its operation, or to `None` where no pattern
/// matches.
pub fn decode(opcode: Opcode) -> (r: Option<Operation>)
    ensures
        r == decode_spec(opcode),
        match r {
            Some(op) => op.accepts(opcode),
            None => forall|op: Operation| !op.accepts(opcode),
        },
{
    let r = match opcode {
        (0x0, 0x0, 0xE, 0x0) => Some(Operation::ClearScreen),
        (0x0, 0x0, 0xE, 0xE) => Some(Operation::Return),
        (0x1, _, _, _) => Some(Operation::Jump),
        (0x2, _, _, _) => Some(Operation::Call),
        (0x3, _, _, _) => Some(Operation::SkipEqByte),
        (0x4, _, _, _) => Some(Operation::SkipNeByte),
        (0x5, _, _, 0x0) => Some(Operation::SkipEqReg),
        (0x6, _, _, _) => Some(Operation::LoadByte),
        (0x7, _, _, _) => Some(Operation::AddByte),
        (0x8, _, _, 0x0) => Some(Operation::Move),
        (0x8, _, _, 0x1) => Some(Operation::Or),
        (0x8, _, _, 0x2) => Some(Operation::And),
        (0x8, _, _, 0x3) => Some(Operation::Xor),
        (0x8, _, _, 0x4) => Some(Operation::AddCarry),
        (0x8, _, _, 0x5) => Some(Operation::SubBorrow),
        (0x8, _, _, 0x6) => Some(Operation::ShiftRight),
        (0x8, _, _, 0x7) => Some(Operation::SubReverse),
        (0x8, _, _, 0xE) => Some(Operation::ShiftLeft),
        (0x9, _, _, 0x0) => Some(Operation::SkipNeReg),
        (0xA, _, _, _) => Some(Operation::LoadIndex),
        (0xB, _, _, _) => Some(Operation::JumpOffset),
        (0xC, _, _, _) => Some(Operation::Random),
        (0xD, _, _, _) => Some(Operation::Draw),
        (0xE, _, 0x9, 0xE) => Some(Operation::SkipKeyDown),
        (0xE, _, 0xA, 0x1) => Some(Operation::SkipKeyUp),
        (0xF, _, 0x0, 0x7) => Some(Operation::ReadDelay),
        (0xF, _, 0x0, 0xA) => Some(Operation::WaitKey),
        (0xF, _, 0x1, 0x5) => Some(Operation::SetDelay),
        (0xF, _, 0x1, 0x8) => Some(Operation::SetSound),
        (0xF, _, 0x1, 0xE) => Some(Operation::AddIndex),
        (0xF, _, 0x2, 0x9) => Some(Operation::FontGlyph),
        (0xF, _, 0x3, 0x3) => Some(Operation::StoreBcd),
        (0xF, _, 0x5, 0x5) => Some(Operation::StoreRegs),
        (0xF, _, 0x6, 0x5) => Some(Operation::LoadRegs),
        _ => None,
    };
    proof {
        match r {
            Some(op) => {
                lemma_decode_spec(opcode, op);
            },
            None => {
                assert forall|o: Operation| !o.accepts(opcode) by {}
                lemma_decode_spec(opcode, Operation::ClearScreen);
            },
        }
    }
    r
}

} // verus!
