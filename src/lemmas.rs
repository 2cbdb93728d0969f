use vstd::prelude::*;
use crate::ram::{RAM_SIZE, mem_read, mem_write};
use crate::spu::{MachineState, Opcode, fetched, is_alu, next_address, opcode_of, operand_of, run, step};

verus! {

/// After any arithmetic or logic instruction the zero flag tells whether the
/// new value of X is zero; such an instruction costs one cycle beyond its fetch.
pub proof fn lemma_alu_zero_flag(s: MachineState)
    requires
        is_alu(opcode_of(fetched(s))),
    ensures
        step(s).state.zero == (step(s).state.x == 0),
        step(s).extra == 1,
        !step(s).halted,
{
}

/// A jump sets the program counter to its operand, whatever the flags hold,
/// and changes nothing else.
pub proof fn lemma_jump(s: MachineState)
    requires
        opcode_of(fetched(s)) == Opcode::Jmp,
    ensures
        step(s).state == (MachineState { pc: operand_of(fetched(s)), ..s }),
        step(s).extra == 1,
        !step(s).halted,
{
}

/// A jump on carry goes to its operand exactly when the carry flag is set,
/// else on to the next word; it costs the same either way.
pub proof fn lemma_jump_if_carry(s: MachineState)
    requires
        opcode_of(fetched(s)) == Opcode::Jic,
    ensures
        s.carry ==> step(s).state == (MachineState { pc: operand_of(fetched(s)), ..s }),
        !s.carry ==> step(s).state == (MachineState { pc: next_address(s.pc), ..s }),
        step(s).extra == 1,
        !step(s).halted,
{
}

/// A jump on zero goes to its operand exactly when the zero flag is set,
/// else on to the next word; it costs the same either way.
pub proof fn lemma_jump_if_zero(s: MachineState)
    requires
        opcode_of(fetched(s)) == Opcode::Jiz,
    ensures
        s.zero ==> step(s).state == (MachineState { pc: operand_of(fetched(s)), ..s }),
        !s.zero ==> step(s).state == (MachineState { pc: next_address(s.pc), ..s }),
        step(s).extra == 1,
        !step(s).halted,
{
}

/// The memory instructions first set register P to their operand, then access
/// the data store at the new P.
pub proof fn lemma_memory_access_through_p(s: MachineState)
    requires
        opcode_of(fetched(s)) == Opcode::Stx || opcode_of(fetched(s)) == Opcode::Sty
            || opcode_of(fetched(s)) == Opcode::LdxA || opcode_of(fetched(s)) == Opcode::LdyA,
    ensures
        step(s).state.p == operand_of(fetched(s)),
        opcode_of(fetched(s)) == Opcode::Stx ==> step(s).state.ram == mem_write(
            s.ram,
            step(s).state.p as int,
            s.x,
        ),
        opcode_of(fetched(s)) == Opcode::Sty ==> step(s).state.ram == mem_write(
            s.ram,
            step(s).state.p as int,
            s.y,
        ),
        opcode_of(fetched(s)) == Opcode::LdxA ==> step(s).state.x == mem_read(
            s.ram,
            step(s).state.p as int,
        ),
        opcode_of(fetched(s)) == Opcode::LdyA ==> step(s).state.y == mem_read(
            s.ram,
            step(s).state.p as int,
        ),
        step(s).extra == 4,
{
}

/// A run that meets the halt instruction stops right after it: the halt costs
/// only its fetch, moves the program counter past itself and changes nothing
/// else, and the count is what was counted before plus that one cycle.
pub proof fn lemma_halt_stops_run(s: MachineState, cycles: int, limit: int)
    requires
        opcode_of(fetched(s)) == Opcode::Hlt,
        cycles < limit,
    ensures
        run(s, cycles, limit) == (MachineState { pc: next_address(s.pc), ..s }, cycles + 1),
{
}

/// Before the budget is reached, a run that does not halt at once is the first
/// instruction followed by the run from the state after it, with its cost
/// counted.
pub proof fn lemma_run_unfolds(s: MachineState, cycles: int, limit: int)
    requires
        cycles < limit,
        !step(s).halted,
    ensures
        run(s, cycles, limit) == run(step(s).state, cycles + 1 + step(s).extra, limit),
{
}

/// In a data store, an address at or past its size reads as zero, and a write
/// there leaves every word as it was, so reading back after it is as if it had
/// never happened.
pub proof fn lemma_out_of_range_access(mem: Seq<u16>, index: int, value: u16)
    requires
        mem.len() == RAM_SIZE,
        index >= RAM_SIZE,
    ensures
        mem_read(mem, index) == 0,
        mem_write(mem, index, value) == mem,
        forall|i: int| mem_read(mem_write(mem, index, value), i) == mem_read(mem, i),
{
}

/// A store instruction whose operand lies past the data store changes nothing
/// but register P and the program counter; a load from there yields zero.
pub proof fn lemma_out_of_range_instruction(s: MachineState)
    requires
        s.ram.len() == RAM_SIZE,
        operand_of(fetched(s)) >= RAM_SIZE,
    ensures
        opcode_of(fetched(s)) == Opcode::Stx || opcode_of(fetched(s)) == Opcode::Sty
            ==> step(s).state == (MachineState {
            pc: next_address(s.pc),
            p: operand_of(fetched(s)),
            ..s
        }),
        opcode_of(fetched(s)) == Opcode::LdxA ==> step(s).state.x == 0,
        opcode_of(fetched(s)) == Opcode::LdyA ==> step(s).state.y == 0,
{
}

} // verus!
