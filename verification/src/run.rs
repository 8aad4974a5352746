//! Running against a cycle budget.
//!
//! The contracts of `Cpu::try_execute` and `Cpu::execute` are stated against
//! `run`.

use vstd::prelude::*;
use crate::decode::Instruction;
use crate::laws::{about_to_execute, lemma_break_exhausts_budget, lemma_step_cost};
use crate::semantics::{MAX_INSTRUCTION_CYCLES, Machine, step};

verus! {

/// The machine after a run: instructions are executed one after another
/// while the budget is positive. The run stops early, with budget left, in
/// front of an opcode that is not an instruction.
pub open spec fn run(m: Machine) -> Machine
    decreases m.budget_left(),
    via run_terminates
{
    if m.cycles <= 0 || !m.can_step() {
        m
    } else {
        run(step(m))
    }
}

#[via_fn]
proof fn run_terminates(m: Machine) {
    if m.can_step() {
        lemma_step_cost(m);
    }
}

/// Whether a run uses up its budget, which is to say that it never comes
/// upon an opcode that is not an instruction.
pub open spec fn runs_to_completion(m: Machine) -> bool {
    run(m).cycles <= 0
}

/// A machine without budget does not run.
pub proof fn lemma_run_without_budget(m: Machine)
    requires
        m.cycles <= 0,
    ensures
        run(m) == m,
{
}

/// A machine in front of a byte that is not an instruction does not run,
/// and if it has budget, the budget stays unused.
pub proof fn lemma_run_stops_at_unimplemented_opcode(m: Machine)
    requires
        !m.can_step(),
    ensures
        run(m) == m,
        m.cycles > 0 ==> !runs_to_completion(m),
{
}

/// A run is its first instruction followed by the run of what is left.
pub proof fn lemma_run_unfolds(m: Machine)
    requires
        m.cycles > 0,
        m.can_step(),
    ensures
        run(m) == run(step(m)),
        runs_to_completion(m) == runs_to_completion(step(m)),
{
}

/// BRK ends the run at once, with the break flag set.
pub proof fn lemma_break_ends_run(m: Machine, instr: Instruction)
    requires
        m.cycles > 0,
        about_to_execute(m, instr),
        instr.mnemonic is Brk,
    ensures
        run(m) == step(m),
        runs_to_completion(m),
        run(m).cpu.status.break_command,
{
    lemma_break_exhausts_budget(m, instr);
    lemma_run_without_budget(step(m));
}

/// A run never leaves more budget than it was given, and it overdraws the
/// budget by less than one instruction: the budget is checked between
/// instructions only, so the last one is allowed to finish.
pub proof fn lemma_run_overdraws_by_less_than_an_instruction(m: Machine)
    requires
        m.cycles > 0,
    ensures
        -MAX_INSTRUCTION_CYCLES < run(m).cycles <= m.cycles,
    decreases m.budget_left(),
{
    if m.can_step() {
        lemma_step_cost(m);
        if step(m).cycles > 0 {
            lemma_run_overdraws_by_less_than_an_instruction(step(m));
        } else {
            lemma_run_without_budget(step(m));
        }
    }
}

} // verus!
