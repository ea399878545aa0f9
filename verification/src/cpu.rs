//! The executable machine: its state, the fetch, the add handler, a single
//! cycle and the execution loop.
use vstd::prelude::*;
use crate::decode::{decode, Instruction};
use crate::machine::{
    carry_of, word_of, wrapped_sum, Fault, MachineState, Status, FLAG_REGISTER, MEMORY_SIZE,
};

verus! {

/// A machine: sixteen registers, an instruction pointer and 4096 bytes of
/// memory that hold code and data alike.
pub struct CPU {
    pub registers: [u8; 16],
    pub position_in_memory: usize,
    pub memory: [u8; 4096],
}

impl View for CPU {
    type V = MachineState;

    open spec fn view(&self) -> MachineState {
        MachineState {
            registers: self.registers@,
            pointer: self.position_in_memory as nat,
            memory: self.memory@,
        }
    }
}

impl CPU {
    /// A machine with zeroed registers and memory and the pointer at 0.
    pub fn new() -> (cpu: CPU)
        ensures
            cpu.position_in_memory == 0,
            forall|i: int| 0 <= i < 16 ==> cpu.registers[i] == 0,
            forall|i: int| 0 <= i < 4096 ==> cpu.memory[i] == 0,
    {
        CPU { registers: [0u8; 16], position_in_memory: 0, memory: [0u8; 4096] }
    }

    /// Reads the instruction word at the pointer: the byte at the pointer is
    /// the high byte, the one after it the low byte. Nothing is changed.
    pub fn read_opcode(&self) -> (opcode: u16)
        requires
            self@.fetch_in_bounds(),
        ensures
            opcode == self@.opcode(),
            opcode == word_of(
                self.memory[self.position_in_memory as int],
                self.memory[self.position_in_memory + 1],
            ),
    {
        let p: usize = self.position_in_memory;
        let op_byte1: u16 = self.memory[p] as u16;
        let op_byte2: u16 = self.memory[p + 1] as u16;
        assert(op_byte1 << 8 | op_byte2 == op_byte1 * 256 + op_byte2) by (bit_vector)
            requires
                op_byte1 < 256,
                op_byte2 < 256,
        ;
        op_byte1 << 8 | op_byte2
    }

    /// Adds register `y` into register `x` with wraparound, then overwrites
    /// the flag register with the carry. Where `x` is the flag register the
    /// carry is what remains in it.
    pub fn add_xy(&mut self, x: u8, y: u8)
        requires
            x < 16,
            y < 16,
        ensures
            final(self)@ == old(self)@.add_xy(x as int, y as int),
            final(self).registers[FLAG_REGISTER as int] == carry_of(
                old(self).registers[x as int],
                old(self).registers[y as int],
            ),
            x != FLAG_REGISTER ==> final(self).registers[x as int] == wrapped_sum(
                old(self).registers[x as int],
                old(self).registers[y as int],
            ),
            forall|i: int|
                0 <= i < 16 && i != x && i != FLAG_REGISTER ==> final(self).registers[i] == old(
                    self,
                ).registers[i],
            final(self).memory == old(self).memory,
            final(self).position_in_memory == old(self).position_in_memory,
    {
        let arg1: u8 = self.registers[x as usize];
        let arg2: u8 = self.registers[y as usize];
        let val: u8 = arg1.wrapping_add(arg2);
        let overflow: bool = arg2 > u8::MAX - arg1;
        self.registers[x as usize] = val;
        if overflow {
            self.registers[FLAG_REGISTER] = 1;
        } else {
            self.registers[FLAG_REGISTER] = 0;
        }
    }

    /// Runs one cycle: fetch, move the pointer past the word, decode and
    /// dispatch.
    ///
    /// A fetch that would leave memory is reported with the pointer and
    /// changes nothing. A halt and an unrecognised word change nothing but
    /// the pointer; the latter is reported with the word. Memory is never
    /// written.
    pub fn step(&mut self) -> (outcome: Result<Status, Fault>)
        ensures
            (final(self)@, outcome) == old(self)@.step(),
            final(self).memory == old(self).memory,
            !old(self)@.fetch_in_bounds() ==> *final(self) == *old(self),
            old(self)@.fetch_in_bounds() ==> final(self).position_in_memory == old(
                self,
            ).position_in_memory + 2,
            !(outcome matches Ok(Status::Running)) ==> final(self).registers == old(
                self,
            ).registers,
    {
        if self.position_in_memory >= MEMORY_SIZE - 1 {
            return Err(Fault::FetchOutOfBounds { address: self.position_in_memory });
        }
        let opcode: u16 = self.read_opcode();
        self.position_in_memory += 2;
        match decode(opcode) {
            Some(Instruction::Halt) => Ok(Status::Halted),
            Some(Instruction::Add { x, y }) => {
                self.add_xy(x, y);
                Ok(Status::Running)
            },
            None => Err(Fault::UnrecognizedOpcode { opcode }),
        }
    }

    /// Runs cycles from the current pointer until the machine halts or
    /// faults, and says which.
    ///
    /// `Ok` means that a halt word was reached. The pointer only moves
    /// forward, so the loop ends after at most 2048 cycles.
    pub fn run(&mut self) -> (outcome: Result<(), Fault>)
        ensures
            (final(self)@, outcome) == old(self)@.run(),
            final(self).memory == old(self).memory,
    {
        loop
            invariant
                self@.run() == old(self)@.run(),
                self.memory == old(self).memory,
            decreases MEMORY_SIZE + 2 - self.position_in_memory,
        {
            match self.step() {
                Ok(Status::Running) => {},
                Ok(Status::Halted) => {
                    return Ok(());
                },
                Err(fault) => {
                    return Err(fault);
                },
            }
        }
    }
}

} // verus!
