//! Decoding of a 16-bit instruction word into its four nibbles and into the
//! instruction it stands for.
use vstd::prelude::*;

verus! {

/// The instructions of the machine.
#[derive(Clone, Copy, Debug, PartialEq, Eq, Structural)]
pub enum Instruction {
    /// `0000`: stop.
    Halt,
    /// `8xy4`: add register `y` into register `x` and set the carry flag.
    Add { x: u8, y: u8 },
}

/// The four 4-bit fields of an instruction word, most significant first.
#[derive(Clone, Copy, Debug, PartialEq, Eq, Structural)]
pub struct Nibbles {
    pub c: u8,
    pub x: u8,
    pub y: u8,
    pub d: u8,
}

/// The fields of a word: `c` is bits 15-12, `x` bits 11-8, `y` bits 7-4 and
/// `d` bits 3-0.
pub open spec fn nibbles_of(word: int) -> Nibbles {
    Nibbles {
        c: (word / 4096 % 16) as u8,
        x: (word / 256 % 16) as u8,
        y: (word / 16 % 16) as u8,
        d: (word % 16) as u8,
    }
}

/// The instruction that a word encodes, if it encodes one.
pub open spec fn decode_word(word: int) -> Option<Instruction> {
    let n = nibbles_of(word);
    if n.c == 0 && n.x == 0 && n.y == 0 && n.d == 0 {
        Some(Instruction::Halt)
    } else if n.c == 8 && n.d == 4 {
        Some(Instruction::Add { x: n.x, y: n.y })
    } else {
        None
    }
}

/// Splits an instruction word into its four nibbles.
pub fn nibbles(opcode: u16) -> (n: Nibbles)
    ensures
        n == nibbles_of(opcode as int),
        n.c < 16 && n.x < 16 && n.y < 16 && n.d < 16,
{
    let c: u8 = ((opcode & 0xF000) >> 12) as u8;
    let x: u8 = ((opcode & 0x0F00) >> 8) as u8;
    let y: u8 = ((opcode & 0x00F0) >> 4) as u8;
    let d: u8 = (opcode & 0x000F) as u8;
    assert((opcode & 0xF000) >> 12 == opcode / 4096 % 16) by (bit_vector);
    assert((opcode & 0x0F00) >> 8 == opcode / 256 % 16) by (bit_vector);
    assert((opcode & 0x00F0) >> 4 == opcode / 16 % 16) by (bit_vector);
    assert(opcode & 0x000F == opcode % 16) by (bit_vector);
    Nibbles { c, x, y, d }
}

/// Matches the nibbles of a word against the known instruction patterns.
pub fn decode(opcode: u16) -> (instruction: Option<Instruction>)
    ensures
        instruction == decode_word(opcode as int),
        instruction matches Some(Instruction::Add { x, y }) ==> x < 16 && y < 16,
{
    let n = nibbles(opcode);
    match (n.c, n.x, n.y, n.d) {
        (0, 0, 0, 0) => Some(Instruction::Halt),
        (0x8, _, _, 0x4) => Some(Instruction::Add { x: n.x, y: n.y }),
        _ => None,
    }
}

} // verus!
