//! Laws of the machine, stated over its model and proved.
use vstd::prelude::*;
use crate::cpu::CPU;
use crate::machine::{
    add_registers, carry_of, word_of, wrapped_sum, Fault, MachineState, Status, FLAG_REGISTER,
    MEMORY_SIZE, REGISTER_COUNT,
};

verus! {

/// The view of a machine is always well formed, and its pointer is the
/// machine's own.
pub proof fn lemma_view_wf(cpu: CPU)
    ensures
        cpu@.wf(),
        cpu@.pointer == cpu.position_in_memory,
{
}

/// Running is a function of the starting state: two machines that start
/// with the same registers, the same memory and the same pointer end with
/// the same registers, the same pointer and the same halt or fault.
pub proof fn lemma_run_deterministic(a: CPU, b: CPU)
    requires
        a.registers@ == b.registers@,
        a.memory@ == b.memory@,
        a.position_in_memory == b.position_in_memory,
    ensures
        a@.run() == b@.run(),
        a@.step() == b@.step(),
{
    assert(a@ == b@);
}

/// The wrapped sum of two register values is their sum modulo 256, and the
/// carry is 1 exactly when the sum exceeds 255 and 0 otherwise. After an
/// add the flag register holds that carry, whatever `x` and `y` are.
pub proof fn lemma_add_wraps(registers: Seq<u8>, x: int, y: int)
    requires
        registers.len() == REGISTER_COUNT,
        0 <= x < REGISTER_COUNT,
        0 <= y < REGISTER_COUNT,
    ensures
        wrapped_sum(registers[x], registers[y]) == (registers[x] + registers[y]) % 256,
        carry_of(registers[x], registers[y]) == 1 <==> registers[x] + registers[y] > 255,
        carry_of(registers[x], registers[y]) == 0 <==> registers[x] + registers[y] <= 255,
        add_registers(registers, x, y).len() == REGISTER_COUNT,
        add_registers(registers, x, y)[FLAG_REGISTER as int] == carry_of(
            registers[x],
            registers[y],
        ),
        x != FLAG_REGISTER ==> add_registers(registers, x, y)[x] == (registers[x]
            + registers[y]) % 256,
{
}

/// An add leaves every register but `x` and the flag register as it was. In
/// particular operand `y` survives where it is neither `x` nor the flag
/// register, and `x` then holds the wrapped sum unless it is the flag
/// register.
pub proof fn lemma_add_keeps_operand(registers: Seq<u8>, x: int, y: int)
    requires
        registers.len() == REGISTER_COUNT,
        0 <= x < REGISTER_COUNT,
        0 <= y < REGISTER_COUNT,
        x != y,
    ensures
        y != FLAG_REGISTER ==> add_registers(registers, x, y)[y] == registers[y],
        x != FLAG_REGISTER ==> add_registers(registers, x, y)[x] == wrapped_sum(
            registers[x],
            registers[y],
        ),
        forall|i: int|
            0 <= i < REGISTER_COUNT && i != x && i != FLAG_REGISTER ==> add_registers(
                registers,
                x,
                y,
            )[i] == registers[i],
{
}

/// The flag of an earlier add does not survive a later one: after two adds
/// of which the second does not overflow, the flag register holds 0.
pub proof fn lemma_flag_overwritten(registers: Seq<u8>, x1: int, y1: int, x2: int, y2: int)
    requires
        registers.len() == REGISTER_COUNT,
        0 <= x1 < REGISTER_COUNT,
        0 <= y1 < REGISTER_COUNT,
        0 <= x2 < REGISTER_COUNT,
        0 <= y2 < REGISTER_COUNT,
        add_registers(registers, x1, y1)[x2] + add_registers(registers, x1, y1)[y2] <= 255,
    ensures
        add_registers(add_registers(registers, x1, y1), x2, y2)[FLAG_REGISTER as int] == 0,
{
}

/// A halt word stops the machine and changes nothing but the pointer, which
/// has moved past the word: the step reports a halt, and so the run ends
/// there without a fault.
pub proof fn lemma_halt_is_clean(s: MachineState)
    requires
        s.wf(),
        s.fetch_in_bounds(),
        s.opcode() == 0,
    ensures
        s.step() == (s.advance(), Ok::<Status, Fault>(Status::Halted)),
        s.run() == (s.advance(), Ok::<(), Fault>(())),
        s.run().0.registers == s.registers,
        s.run().0.memory == s.memory,
        s.run().0.pointer == s.pointer + 2,
{
}

/// A fetch whose two bytes do not both lie inside memory is a fault that
/// names the pointer; the state is left as it was.
pub proof fn lemma_fetch_out_of_bounds(s: MachineState)
    requires
        s.wf(),
        !s.fetch_in_bounds(),
    ensures
        s.step() == (s, Err::<Status, Fault>(Fault::FetchOutOfBounds { address: s.pointer as usize })),
        s.run() == (s, Err::<(), Fault>(Fault::FetchOutOfBounds { address: s.pointer as usize })),
{
}

/// Neither a step nor a run writes memory, and the register file keeps its
/// size. A run never moves the pointer backwards.
pub proof fn lemma_run_preserves_memory(s: MachineState)
    requires
        s.wf(),
    ensures
        s.step().0.wf(),
        s.step().0.memory == s.memory,
        s.run().0.wf(),
        s.run().0.memory == s.memory,
        s.run().0.pointer >= s.pointer,
    decreases MEMORY_SIZE - s.pointer,
{
    if s.step().1 == Ok::<Status, Fault>(Status::Running) {
        lemma_run_preserves_memory(s.step().0);
    }
}

/// A run ends in one of three ways: at a halt word, at a word that is no
/// instruction, or with the pointer within one byte of the end of memory.
pub proof fn lemma_run_outcome(s: MachineState)
    requires
        s.wf(),
    ensures
        match s.run().1 {
            Ok(()) => s.run().0.pointer >= 2 && s.run().0.pointer <= MEMORY_SIZE,
            Err(Fault::FetchOutOfBounds { address }) => {
                &&& address == s.run().0.pointer
                &&& !s.run().0.fetch_in_bounds()
            },
            Err(Fault::UnrecognizedOpcode { opcode }) => {
                &&& s.run().0.pointer >= 2
                &&& s.run().0.pointer <= MEMORY_SIZE
                &&& opcode == word_of(
                    s.memory[s.run().0.pointer - 2],
                    s.memory[s.run().0.pointer - 1],
                )
                &&& crate::decode::decode_word(opcode as int).is_none()
            },
        },
    decreases MEMORY_SIZE - s.pointer,
{
    if s.step().1 == Ok::<Status, Fault>(Status::Running) {
        lemma_run_preserves_memory(s);
        lemma_run_outcome(s.step().0);
    }
}

} // verus!
