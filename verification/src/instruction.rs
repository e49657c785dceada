//! The instruction set and its two-byte big-endian encoding.

use vstd::prelude::*;

verus! {

/// One decoded instruction. Register operands are numbers below 16, addresses
/// are below 4096 and `rows` is below 16: see [`Instruction::well_formed`].
#[derive(Clone, Copy, Debug, PartialEq, Eq, Structural)]
pub enum Instruction {
    /// `00E0`: turn every pixel off.
    ClearScreen,
    /// `00EE`: return from a subroutine.
    Return,
    /// `1NNN`: continue at `addr`.
    Jump { addr: u16 },
    /// `2NNN`: call the subroutine at `addr`. Calls nest without limit.
    Call { addr: u16 },
    /// `3XNN`: skip the next instruction if `V[x] == value`.
    SkipIfEqual { x: u8, value: u8 },
    /// `4XNN`: skip the next instruction if `V[x] != value`.
    SkipIfNotEqual { x: u8, value: u8 },
    /// `5XY0`: skip the next instruction if `V[x] == V[y]`.
    SkipIfRegistersEqual { x: u8, y: u8 },
    /// `6XNN`: `V[x] := value`.
    Load { x: u8, value: u8 },
    /// `7XNN`: `V[x] := V[x] + value` modulo 256, no flag.
    AddImmediate { x: u8, value: u8 },
    /// `8XY0`: `V[x] := V[y]`.
    Move { x: u8, y: u8 },
    /// `8XY1`: `V[x] := V[x] | V[y]`.
    Or { x: u8, y: u8 },
    /// `8XY2`: `V[x] := V[x] & V[y]`.
    And { x: u8, y: u8 },
    /// `8XY3`: `V[x] := V[x] ^ V[y]`.
    Xor { x: u8, y: u8 },
    /// `8XY4`: `V[x] := V[x] + V[y]` modulo 256, `VF` := carry.
    Add { x: u8, y: u8 },
    /// `8XY5`: `V[x] := V[x] - V[y]` modulo 256, `VF` := no borrow.
    Subtract { x: u8, y: u8 },
    /// `8XY6`: `V[x] := V[y] >> 1`, `VF` := the bit shifted out.
    ShiftRight { x: u8, y: u8 },
    /// `8XY7`: `V[x] := V[y] - V[x]` modulo 256, `VF` := no borrow.
    SubtractFrom { x: u8, y: u8 },
    /// `8XYE`: `V[x] := V[y] << 1` modulo 256, `VF` := whether `V[y] > 0x80`.
    /// A `V[y]` of exactly `0x80` loses its top bit without raising the flag.
    ShiftLeft { x: u8, y: u8 },
    /// `9XY0`: skip the next instruction if `V[x] != V[y]`.
    SkipIfRegistersNotEqual { x: u8, y: u8 },
    /// `ANNN`: `I := addr`.
    LoadIndex { addr: u16 },
    /// `DXYN`: draw the `rows`-byte sprite at `I`, `VF` := collision.
    Draw { x: u8, y: u8, rows: u8 },
    /// `FX33`: store the decimal digits of `V[x]` at `I`, `I + 1`, `I + 2`.
    StoreDecimal { x: u8 },
    /// `FX55`: store `V[0]` to `V[x]` at `I` onwards.
    StoreRegisters { x: u8 },
    /// `FX65`: load `V[0]` to `V[x]` from `I` onwards.
    LoadRegisters { x: u8 },
    /// Any other pair of bytes.
    Unknown { first: u8, second: u8 },
}

impl Instruction {
    /// Every operand is within the range its encoding allows.
    pub open spec fn well_formed(self) -> bool {
        match self {
            Instruction::ClearScreen | Instruction::Return => true,
            Instruction::Jump { addr } | Instruction::Call { addr } | Instruction::LoadIndex {
                addr,
            } => addr < 4096,
            Instruction::SkipIfEqual { x, .. }
            | Instruction::SkipIfNotEqual { x, .. }
            | Instruction::Load { x, .. }
            | Instruction::AddImmediate { x, .. }
            | Instruction::StoreDecimal { x }
            | Instruction::StoreRegisters { x }
            | Instruction::LoadRegisters { x } => x < 16,
            Instruction::SkipIfRegistersEqual { x, y }
            | Instruction::SkipIfRegistersNotEqual { x, y }
            | Instruction::Move { x, y }
            | Instruction::Or { x, y }
            | Instruction::And { x, y }
            | Instruction::Xor { x, y }
            | Instruction::Add { x, y }
            | Instruction::Subtract { x, y }
            | Instruction::ShiftRight { x, y }
            | Instruction::SubtractFrom { x, y }
            | Instruction::ShiftLeft { x, y } => x < 16 && y < 16,
            Instruction::Draw { x, y, rows } => x < 16 && y < 16 && rows < 16,
            Instruction::Unknown { first, second } => decode(first, second) == self,
        }
    }
}

/// The instruction that the bytes `first`, `second` encode.
///
/// With `first = 16 * c + x` and `second = 16 * y + n`, the category `c`
/// selects the instruction family, `x` and `y` name registers, `n` is the
/// last nibble, `second` the immediate byte and `256 * x + second` the
/// twelve-bit address.
pub open spec fn decode(first: u8, second: u8) -> Instruction {
    let category = first / 16;
    let x = first % 16;
    let y = second / 16;
    let n = second % 16;
    let addr = (256 * x + second) as u16;
    if category == 0 && addr == 0x0E0 {
        Instruction::ClearScreen
    } else if category == 0 && addr == 0x0EE {
        Instruction::Return
    } else if category == 1 {
        Instruction::Jump { addr }
    } else if category == 2 {
        Instruction::Call { addr }
    } else if category == 3 {
        Instruction::SkipIfEqual { x, value: second }
    } else if category == 4 {
        Instruction::SkipIfNotEqual { x, value: second }
    } else if category == 5 && n == 0 {
        Instruction::SkipIfRegistersEqual { x, y }
    } else if category == 6 {
        Instruction::Load { x, value: second }
    } else if category == 7 {
        Instruction::AddImmediate { x, value: second }
    } else if category == 8 && n == 0 {
        Instruction::Move { x, y }
    } else if category == 8 && n == 1 {
        Instruction::Or { x, y }
    } else if category == 8 && n == 2 {
        Instruction::And { x, y }
    } else if category == 8 && n == 3 {
        Instruction::Xor { x, y }
    } else if category == 8 && n == 4 {
        Instruction::Add { x, y }
    } else if category == 8 && n == 5 {
        Instruction::Subtract { x, y }
    } else if category == 8 && n == 6 {
        Instruction::ShiftRight { x, y }
    } else if category == 8 && n == 7 {
        Instruction::SubtractFrom { x, y }
    } else if category == 8 && n == 0xE {
        Instruction::ShiftLeft { x, y }
    } else if category == 9 && n == 0 {
        Instruction::SkipIfRegistersNotEqual { x, y }
    } else if category == 0xA {
        Instruction::LoadIndex { addr }
    } else if category == 0xD {
        Instruction::Draw { x, y, rows: n }
    } else if category == 0xF && second == 0x33 {
        Instruction::StoreDecimal { x }
    } else if category == 0xF && second == 0x55 {
        Instruction::StoreRegisters { x }
    } else if category == 0xF && second == 0x65 {
        Instruction::LoadRegisters { x }
    } else {
        Instruction::Unknown { first, second }
    }
}

/// Splitting a byte into nibbles by shifting and masking is division and
/// remainder by 16, and joining a nibble with a byte is `256 * x + byte`.
proof fn lemma_nibbles(first: u8, second: u8)
    ensures
        (first & 0xF0) >> 4 == first / 16,
        first & 0xF == first % 16,
        (((first & 0xF) as u16) << 8) | (second as u16) == 256 * (first % 16) + second,
{
    assert((first & 0xF0) >> 4 == first / 16) by (bit_vector);
    assert(first & 0xF == first % 16) by (bit_vector);
    assert((((first & 0xF) as u16) << 8) | (second as u16) == 256 * (first % 16) + second)
        by (bit_vector);
}

impl Instruction {
    /// Decodes the two bytes of an instruction, `first` being the one at the
    /// lower address.
    pub fn from_bytes(first: u8, second: u8) -> (instruction: Instruction)
        ensures
            instruction == decode(first, second),
            instruction.well_formed(),
    {
        proof {
            lemma_nibbles(first, second);
            lemma_nibbles(second, first);
        }
        let category = (first & 0xF0) >> 4;
        let x = first & 0xF;
        let y = (second & 0xF0) >> 4;
        let n = second & 0xF;
        let addr = ((x as u16) << 8) | (second as u16);
        match category {
            0 if addr == 0x0E0 => Instruction::ClearScreen,
            0 if addr == 0x0EE => Instruction::Return,
            1 => Instruction::Jump { addr },
            2 => Instruction::Call { addr },
            3 => Instruction::SkipIfEqual { x, value: second },
            4 => Instruction::SkipIfNotEqual { x, value: second },
            5 if n == 0 => Instruction::SkipIfRegistersEqual { x, y },
            6 => Instruction::Load { x, value: second },
            7 => Instruction::AddImmediate { x, value: second },
            8 if n == 0 => Instruction::Move { x, y },
            8 if n == 1 => Instruction::Or { x, y },
            8 if n == 2 => Instruction::And { x, y },
            8 if n == 3 => Instruction::Xor { x, y },
            8 if n == 4 => Instruction::Add { x, y },
            8 if n == 5 => Instruction::Subtract { x, y },
            8 if n == 6 => Instruction::ShiftRight { x, y },
            8 if n == 7 => Instruction::SubtractFrom { x, y },
            8 if n == 0xE => Instruction::ShiftLeft { x, y },
            9 if n == 0 => Instruction::SkipIfRegistersNotEqual { x, y },
            0xA => Instruction::LoadIndex { addr },
            0xD => Instruction::Draw { x, y, rows: n },
            0xF if second == 0x33 => Instruction::StoreDecimal { x },
            0xF if second == 0x55 => Instruction::StoreRegisters { x },
            0xF if second == 0x65 => Instruction::LoadRegisters { x },
            _ => Instruction::Unknown { first, second },
        }
    }
}

} // verus!
