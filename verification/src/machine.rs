//! The mathematical model of the machine: its state as sequences and an
//! integer pointer, and the meaning of fetch, add, step and run over it.
use vstd::prelude::*;
use crate::decode::{decode_word, Instruction};

verus! {

/// Number of addressable bytes of memory.
pub const MEMORY_SIZE: usize = 4096;

/// Number of registers.
pub const REGISTER_COUNT: usize = 16;

/// Index of the register that receives the carry of every addition.
pub const FLAG_REGISTER: usize = 15;

/// Why a machine stopped without reaching a halt instruction.
#[derive(Clone, Copy, Debug, PartialEq, Eq, Structural)]
pub enum Fault {
    /// The two bytes of the next instruction do not both lie inside memory.
    /// `address` is the pointer at which the fetch was attempted.
    FetchOutOfBounds { address: usize },
    /// The fetched word matches no known instruction pattern.
    UnrecognizedOpcode { opcode: u16 },
}

/// Whether a machine goes on after a step.
#[derive(Clone, Copy, Debug, PartialEq, Eq, Structural)]
pub enum Status {
    Running,
    Halted,
}

/// The state of a machine as plain mathematical values.
pub struct MachineState {
    pub registers: Seq<u8>,
    pub pointer: nat,
    pub memory: Seq<u8>,
}

/// The big-endian word made of a high and a low byte.
pub open spec fn word_of(high: u8, low: u8) -> int {
    high * 256 + low
}

/// The sum of two register values, reduced modulo 256.
pub open spec fn wrapped_sum(a: u8, b: u8) -> u8 {
    ((a + b) % 256) as u8
}

/// The carry of two register values: 1 if their sum exceeds 255, else 0.
pub open spec fn carry_of(a: u8, b: u8) -> u8 {
    if a + b > 255 {
        1u8
    } else {
        0u8
    }
}

/// The register file after adding register `y` into register `x`: first the
/// wrapped sum is stored in `x`, then the carry in the flag register.
pub open spec fn add_registers(registers: Seq<u8>, x: int, y: int) -> Seq<u8> {
    registers.update(x, wrapped_sum(registers[x], registers[y])).update(
        FLAG_REGISTER as int,
        carry_of(registers[x], registers[y]),
    )
}

impl MachineState {
    /// A state has exactly sixteen registers and 4096 bytes of memory, and
    /// its pointer is an offset that the machine can hold.
    pub open spec fn wf(self) -> bool {
        &&& self.registers.len() == REGISTER_COUNT
        &&& self.memory.len() == MEMORY_SIZE
        &&& self.pointer <= usize::MAX
    }

    /// Both bytes of the instruction at the pointer lie inside memory.
    pub open spec fn fetch_in_bounds(self) -> bool {
        self.pointer + 1 < MEMORY_SIZE
    }

    /// The instruction word at the pointer.
    pub open spec fn opcode(self) -> int
        recommends
            self.wf(),
            self.fetch_in_bounds(),
    {
        word_of(self.memory[self.pointer as int], self.memory[self.pointer as int + 1])
    }

    /// The state with the pointer moved past the instruction just fetched.
    pub open spec fn advance(self) -> MachineState {
        MachineState { pointer: self.pointer + 2, ..self }
    }

    /// The state with register `y` added into register `x`.
    pub open spec fn add_xy(self, x: int, y: int) -> MachineState {
        MachineState { registers: add_registers(self.registers, x, y), ..self }
    }

    /// One cycle of the machine: the state it leaves and how it ends.
    ///
    /// A fetch that is out of bounds leaves the state untouched. Otherwise the
    /// pointer moves past the fetched word before anything else happens: a
    /// halt changes nothing more, an add updates the registers, and any other
    /// word is a fault that carries the word.
    pub open spec fn step(self) -> (MachineState, Result<Status, Fault>) {
        if !self.fetch_in_bounds() {
            (self, Err(Fault::FetchOutOfBounds { address: self.pointer as usize }))
        } else {
            match decode_word(self.opcode()) {
                Some(Instruction::Halt) => (self.advance(), Ok(Status::Halted)),
                Some(Instruction::Add { x, y }) => (
                    self.advance().add_xy(x as int, y as int),
                    Ok(Status::Running),
                ),
                None => (
                    self.advance(),
                    Err(Fault::UnrecognizedOpcode { opcode: self.opcode() as u16 }),
                ),
            }
        }
    }

    /// Cycles repeated until the machine halts or faults.
    pub open spec fn run(self) -> (MachineState, Result<(), Fault>)
        decreases MEMORY_SIZE - self.pointer,
    {
        match self.step() {
            (next, Ok(Status::Running)) => next.run(),
            (next, Ok(Status::Halted)) => (next, Ok(())),
            (next, Err(fault)) => (next, Err(fault)),
        }
    }
}

} // verus!
