//! General properties of the machine's transition semantics, proved once and
//! for all over the mathematical model: halting is absorbing, a zero register
//! survives `Decrement` unchanged, `Increment` wraps at the top of the `u64`
//! range, runs compose and account for their budgets exactly, and
//! construction truncates or pads as stated.

use vstd::prelude::*;

use crate::machine::empty_state;
use crate::machine::loaded_state;
use crate::machine::run_state;
use crate::machine::run_steps;
use crate::machine::step_state;
use crate::machine::Instruction;
use crate::machine::State;
use crate::machine::PROG_CAPACITY;
use crate::machine::REG_COUNT;

verus! {

/// Halting is absorbing: once the current instruction is `Halt`, any number
/// of further transitions changes nothing, and a run of any budget executes
/// zero steps.
pub proof fn lemma_halt_absorbing(s: State, n: nat)
    requires
        s.halted(),
    ensures
        run_state(s, n) == s,
        run_steps(s, n) == 0,
    decreases n,
{
    if n > 0 {
        lemma_halt_absorbing(s, (n - 1) as nat);
    }
}

/// An empty machine is halted from the start: a run with any budget executes
/// zero transitions, changes nothing, and leaves every register at 0.
pub proof fn lemma_immediate_halt(n: nat)
    ensures
        empty_state().halted(),
        run_steps(empty_state(), n) == 0,
        run_state(empty_state(), n) == empty_state(),
        forall|r: int| 0 <= r < REG_COUNT ==> empty_state().regs[r] == 0,
{
    lemma_halt_absorbing(empty_state(), n);
}

/// Decrement floor: a `Decrement` transition read while its register holds 0
/// takes the else branch and changes no register at all — in particular the
/// register stays at 0, so repeating the transition never drives it below 0.
pub proof fn lemma_decrement_floor(s: State, reg: u8, then_pc: u16, else_pc: u16)
    requires
        s.wf(),
        s.current() == Instruction::Decrement(reg, then_pc, else_pc),
        s.regs[reg as int] == 0,
    ensures
        step_state(s).regs == s.regs,
        step_state(s).instrs == s.instrs,
        step_state(s).pc == else_pc,
{
}

/// Increment wraparound: an `Increment` transition read while its register
/// holds `u64::MAX` leaves that register at 0, and no other register changes.
pub proof fn lemma_increment_wraparound(s: State, reg: u8, target: u16)
    requires
        s.wf(),
        s.current() == Instruction::Increment(reg, target),
        s.regs[reg as int] == u64::MAX,
    ensures
        step_state(s).regs[reg as int] == 0,
        step_state(s).pc == target,
        step_state(s).instrs == s.instrs,
        forall|r: int| 0 <= r < REG_COUNT && r != reg ==> step_state(s).regs[r] == s.regs[r],
{
}

/// Runs compose: `a + b` transitions from `s` reach the same state as `b`
/// transitions from the state `a` transitions reach. This is what makes a
/// second `run` call resume exactly where the first stopped.
pub proof fn lemma_run_state_split(s: State, a: nat, b: nat)
    ensures
        run_state(s, a + b) == run_state(run_state(s, a), b),
    decreases b,
{
    if b > 0 {
        lemma_run_state_split(s, a, (b - 1) as nat);
        assert(a + b - 1 == a + (b - 1) as nat);
    }
}

/// Shifting a run by one leading transition.
pub proof fn lemma_run_state_shift(s: State, n: nat)
    ensures
        run_state(step_state(s), n) == run_state(s, n + 1),
{
    lemma_run_state_split(s, 1, n);
    assert(run_state(s, 0) == s);
    assert(run_state(s, 1) == step_state(s));
}

/// Run budget accounting: if the machine first reaches `Halt` after exactly
/// `k` transitions from `s`, then a run with budget `n` executes `k` steps
/// when `n >= k` (ending halted, by `lemma_run_state_split` and the halt
/// condition) and exactly `n` steps when `n < k`.
pub proof fn lemma_run_budget(s: State, k: nat, n: nat)
    requires
        run_state(s, k).halted(),
        forall|j: nat| j < k ==> !(#[trigger] run_state(s, j)).halted(),
    ensures
        run_steps(s, n) == if k <= n {
            k
        } else {
            n
        },
        k <= n ==> run_state(s, run_steps(s, n)).halted(),
        k > n ==> !run_state(s, run_steps(s, n)).halted(),
    decreases n,
{
    if s.halted() {
        assert(run_state(s, 0) == s);
        assert(k == 0);
        lemma_halt_absorbing(s, n);
    } else {
        assert(run_state(s, 0) == s);
        assert(k > 0);
        if n > 0 {
            let s1 = step_state(s);
            lemma_run_state_shift(s, (k - 1) as nat);
            assert(run_state(s1, (k - 1) as nat).halted());
            assert forall|j: nat| j < (k - 1) as nat implies !(#[trigger] run_state(
                s1,
                j,
            )).halted() by {
                lemma_run_state_shift(s, j);
                assert(run_state(s1, j) == run_state(s, j + 1));
            };
            lemma_run_budget(s1, (k - 1) as nat, (n - 1) as nat);
        }
    }
}

/// Resumed runs sum their counts: if a run with budget `a` exhausted it
/// (executed all `a` transitions), a further run with budget `b` from the
/// state it left executes exactly what a single run with budget `a + b`
/// would have executed beyond the first `a` transitions.
pub proof fn lemma_run_resumes(s: State, a: nat, b: nat)
    requires
        run_steps(s, a) == a,
    ensures
        run_steps(s, a + b) == a + run_steps(run_state(s, a), b),
    decreases a,
{
    if a > 0 {
        let s1 = step_state(s);
        assert(run_steps(s1, (a - 1) as nat) == (a - 1) as nat);
        lemma_run_resumes(s1, (a - 1) as nat, b);
        lemma_run_state_shift(s, (a - 1) as nat);
        assert(a + b - 1 == (a - 1) as nat + b);
    } else {
        assert(run_state(s, 0) == s);
    }
}

/// Construction pads: every slot at or beyond the supplied code's length
/// holds `Halt`.
pub proof fn lemma_construction_padding(code: Seq<Instruction>, i: int)
    requires
        code.len() <= i < PROG_CAPACITY,
    ensures
        loaded_state(code).instrs[i] is Halt,
{
}

/// Construction truncates: code longer than the capacity yields exactly the
/// machine state its first `PROG_CAPACITY` instructions yield, so the excess
/// can never influence execution.
pub proof fn lemma_construction_truncation(code: Seq<Instruction>)
    requires
        code.len() >= PROG_CAPACITY,
    ensures
        loaded_state(code) == loaded_state(code.take(PROG_CAPACITY as int)),
{
    assert(loaded_state(code).instrs =~= loaded_state(
        code.take(PROG_CAPACITY as int),
    ).instrs);
    assert(loaded_state(code) =~= loaded_state(code.take(PROG_CAPACITY as int)));
}

} // verus!
