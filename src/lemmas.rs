use vstd::prelude::*;
use crate::error::{ErrorKind, fault};
use crate::instruction::{Instruction, Opcode, decode};
use crate::operand::{Operand, OperandType, operand_index, operand_of_index};
use crate::rsmisc::{
    INSTRUCTION_SIZE, MachineState, add16, fits, ret_step, side_value, step, sub16, traced, uld_step,
    word48,
};

verus! {

/// The instruction that the machine would fetch next.
pub open spec fn fetched(s: MachineState) -> Instruction {
    decode(word48(s.memory, s.ip as int))
}

/// Every combination byte up to 48 is `target * 7 + source` for the indices
/// of the target and source operands that it decodes to.
pub proof fn lemma_combination_byte_round_trip(c: u8)
    requires
        c <= 48,
    ensures
        operand_index(operand_of_index(c as int / 7)) * 7 + operand_index(operand_of_index(c as int % 7))
            == c,
{
}

/// A CALL at `s.ip` to a reachable address `A` where a RET stands, then
/// that RET: execution resumes at the instruction after the CALL, and the
/// call stack is as it was before the CALL.
#[verifier::rlimit(40)]
pub proof fn lemma_call_then_return(s: MachineState, print: bool)
    requires
        s.wf(),
        fits(s.ip, INSTRUCTION_SIZE as int),
        fetched(s).op_code == Opcode::CALL,
        side_value(s, fetched(s), OperandType::TARGET) is Ok,
        fits(side_value(s, fetched(s), OperandType::TARGET)->Ok_0, INSTRUCTION_SIZE as int),
        decode(word48(s.memory, side_value(s, fetched(s), OperandType::TARGET)->Ok_0 as int)).op_code
            == Opcode::RET,
    ensures
        ({
            let (s1, r1) = step(s, print);
            let (s2, r2) = step(s1, print);
            &&& r1 == Ok::<bool, crate::error::RsmiscError>(true)
            &&& s1.ip == side_value(s, fetched(s), OperandType::TARGET)->Ok_0
            &&& s1.call_stack.len() == s.call_stack.len() + 1
            &&& r2 == Ok::<bool, crate::error::RsmiscError>(true)
            &&& s2.ip == add16(s.ip, INSTRUCTION_SIZE)
            &&& s2.call_stack == s.call_stack
        }),
{
    let i = fetched(s);
    let t = traced(s, i, print);
    assert(side_value(t, i, OperandType::TARGET) == side_value(s, i, OperandType::TARGET));
    let (s1, r1) = step(s, print);
    let a = side_value(s, i, OperandType::TARGET)->Ok_0;
    assert(s1.ip == add16(sub16(a, INSTRUCTION_SIZE), INSTRUCTION_SIZE));
    assert(s1.memory == s.memory);
    assert(s1.call_stack == s.call_stack.push(add16(s.ip, INSTRUCTION_SIZE)));
    let (s2, r2) = step(s1, print);
    assert(s2.call_stack =~= s.call_stack);
}

/// ULD on an empty evaluation stack is a stack underflow that leaves the
/// registers as they were; RET on an empty call stack is a call-stack fault
/// that leaves `ip` as it was.
pub proof fn lemma_empty_stacks(s: MachineState, i: Instruction)
    ensures
        s.stack.len() == 0 ==> uld_step(s, i).1 == Err::<bool, crate::error::RsmiscError>(
            fault(ErrorKind::StackUnderflow, s.ip),
        ) && uld_step(s, i).0.registers == s.registers,
        s.call_stack.len() == 0 ==> ret_step(s).1 == Err::<bool, crate::error::RsmiscError>(
            fault(ErrorKind::CallStackEmpty, s.ip),
        ) && ret_step(s).0.ip == s.ip,
{
}

/// The same over a whole step: the fault comes back and neither the
/// registers (for ULD) nor `ip` (for RET) change.
pub proof fn lemma_empty_stacks_step(s: MachineState, print: bool)
    requires
        s.wf(),
        fits(s.ip, INSTRUCTION_SIZE as int),
    ensures
        fetched(s).op_code == Opcode::ULD && s.stack.len() == 0 ==> step(s, print).1 == Err::<
            bool,
            crate::error::RsmiscError,
        >(fault(ErrorKind::StackUnderflow, s.ip)) && step(s, print).0.registers == s.registers,
        fetched(s).op_code == Opcode::RET && s.call_stack.len() == 0 ==> step(s, print).1 == Err::<
            bool,
            crate::error::RsmiscError,
        >(fault(ErrorKind::CallStackEmpty, s.ip)) && step(s, print).0.ip == s.ip,
{
}

/// `BZ R1, #A`: when R1 is zero the next fetch is at `A`; otherwise it is
/// at the instruction that follows.
pub proof fn lemma_branch_if_zero(s: MachineState, print: bool)
    requires
        s.wf(),
        fits(s.ip, INSTRUCTION_SIZE as int),
        fetched(s).op_code == Opcode::BZ,
        fetched(s).target == Operand::R1,
        fetched(s).source == Operand::CT,
    ensures
        step(s, print).1 == Ok::<bool, crate::error::RsmiscError>(true),
        s.registers[0] == 0 ==> step(s, print).0.ip == fetched(s).source_imm,
        s.registers[0] != 0 ==> step(s, print).0.ip == add16(s.ip, INSTRUCTION_SIZE),
{
    let i = fetched(s);
    assert(add16(sub16(i.source_imm, INSTRUCTION_SIZE), INSTRUCTION_SIZE) == i.source_imm);
}

} // verus!
