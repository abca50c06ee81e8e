//! The counter machine itself: the instruction set, the mathematical model
//! of a machine state, and the executable `Program` with its step and run
//! operations.

use vstd::prelude::*;

verus! {

/// Number of registers in the bank; a `u8` index covers it exactly.
pub const REG_COUNT: usize = 256;

/// Number of instruction slots; a `u16` program counter covers it exactly.
pub const PROG_CAPACITY: usize = 65536;

/// One instruction of the counter machine.
///
/// `Increment(reg, target)` bumps register `reg` (wrapping on overflow) and
/// jumps to `target`. `Decrement(reg, then_pc, else_pc)` decrements `reg` and
/// jumps to `then_pc` when `reg` is non-zero, and otherwise leaves `reg` at 0
/// and jumps to `else_pc`. `Purged` marks a dead slot that execution must
/// never reach.
#[derive(Debug, Clone, Copy, PartialEq, Eq, Structural)]
pub enum Instruction {
    Halt,
    Increment(u8, u16),
    Decrement(u8, u16, u16),
    Purged,
}

/// The mathematical state of a machine: the register bank, the program, and
/// the program counter.
#[verifier::ext_equal]
pub ghost struct State {
    pub regs: Seq<u64>,
    pub instrs: Seq<Instruction>,
    pub pc: u16,
}

impl State {
    /// Both banks have their fixed sizes, so every `u8` register index and
    /// every `u16` program counter is in range by construction.
    pub open spec fn wf(self) -> bool {
        &&& self.regs.len() == REG_COUNT
        &&& self.instrs.len() == PROG_CAPACITY
    }

    /// The instruction the program counter points at.
    pub open spec fn current(self) -> Instruction {
        self.instrs[self.pc as int]
    }

    /// The machine is halted exactly when the current instruction is `Halt`.
    pub open spec fn halted(self) -> bool {
        self.current() is Halt
    }

    /// The machine sits on a purged slot: the one fatal condition.
    pub open spec fn on_purged(self) -> bool {
        self.current() is Purged
    }
}

/// Increment with 64-bit wraparound: the successor of `u64::MAX` is 0.
pub open spec fn wrap_inc(v: u64) -> u64 {
    if v == u64::MAX {
        0
    } else {
        (v + 1) as u64
    }
}

/// One transition of the machine. `Halt` (and, vacuously, `Purged`, which
/// execution never reaches) leaves the state unchanged; the other
/// instructions update one register and the program counter.
pub open spec fn step_state(s: State) -> State {
    match s.current() {
        Instruction::Halt => s,
        Instruction::Increment(reg, target) => State {
            regs: s.regs.update(reg as int, wrap_inc(s.regs[reg as int])),
            instrs: s.instrs,
            pc: target,
        },
        Instruction::Decrement(reg, then_pc, else_pc) => {
            if s.regs[reg as int] > 0 {
                State {
                    regs: s.regs.update(reg as int, (s.regs[reg as int] - 1) as u64),
                    instrs: s.instrs,
                    pc: then_pc,
                }
            } else {
                State { regs: s.regs, instrs: s.instrs, pc: else_pc }
            }
        },
        Instruction::Purged => s,
    }
}

/// The state after `n` transitions.
pub open spec fn run_state(s: State, n: nat) -> State
    decreases n,
{
    if n == 0 {
        s
    } else {
        step_state(run_state(s, (n - 1) as nat))
    }
}

/// How many transitions a run with the given budget executes: it stops at the
/// first `Halt`, or when the budget is exhausted, whichever comes first.
pub open spec fn run_steps(s: State, budget: nat) -> nat
    decreases budget,
{
    if budget == 0 || s.halted() {
        0
    } else {
        1 + run_steps(step_state(s), (budget - 1) as nat)
    }
}

/// No purged slot is reached within `budget` transitions, so a run with that
/// budget never meets the fatal condition.
pub open spec fn purge_free(s: State, budget: nat) -> bool {
    forall|k: nat| k < budget ==> !(#[trigger] run_state(s, k)).on_purged()
}

/// All registers zero.
pub open spec fn initial_regs() -> Seq<u64> {
    Seq::new(REG_COUNT as nat, |i: int| 0u64)
}

/// The state of a machine built empty: every slot `Halt`, every register 0,
/// program counter 0.
pub open spec fn empty_state() -> State {
    State {
        regs: initial_regs(),
        instrs: Seq::new(PROG_CAPACITY as nat, |i: int| Instruction::Halt),
        pc: 0,
    }
}

/// The state of a machine built from a supplied instruction sequence: the
/// sequence is copied positionally, truncated at the capacity, and the
/// remaining slots keep `Halt`.
pub open spec fn loaded_state(code: Seq<Instruction>) -> State {
    State {
        regs: initial_regs(),
        instrs: Seq::new(
            PROG_CAPACITY as nat,
            |i: int|
                if i < code.len() {
                    code[i]
                } else {
                    Instruction::Halt
                },
        ),
        pc: 0,
    }
}

/// A counter machine instance: its register bank, its program, and its
/// program counter. The banks always hold exactly `REG_COUNT` and
/// `PROG_CAPACITY` entries.
pub struct Program {
    registers: Vec<u64>,
    instructions: Vec<Instruction>,
    ptr: u16,
}

impl View for Program {
    type V = State;

    closed spec fn view(&self) -> State {
        State { regs: self.registers@, instrs: self.instructions@, pc: self.ptr }
    }
}

impl Program {
    /// The banks have their fixed sizes.
    pub open spec fn wf(&self) -> bool {
        self@.wf()
    }

    /// A machine with all slots `Halt`, all registers 0, program counter 0.
    pub fn empty() -> (p: Program)
        ensures
            p.wf(),
            p@ == empty_state(),
    {
        let mut registers: Vec<u64> = Vec::new();
        while registers.len() < REG_COUNT
            invariant
                registers@.len() <= REG_COUNT,
                forall|i: int| 0 <= i < registers@.len() ==> registers@[i] == 0,
            decreases REG_COUNT - registers@.len(),
        {
            registers.push(0);
        }
        let mut instructions: Vec<Instruction> = Vec::new();
        while instructions.len() < PROG_CAPACITY
            invariant
                instructions@.len() <= PROG_CAPACITY,
                forall|i: int| 0 <= i < instructions@.len() ==> instructions@[i] is Halt,
            decreases PROG_CAPACITY - instructions@.len(),
        {
            instructions.push(Instruction::Halt);
        }
        let p = Program { registers, instructions, ptr: 0 };
        proof {
            assert(p@.regs =~= empty_state().regs);
            assert(p@.instrs =~= empty_state().instrs);
            assert(p@ =~= empty_state());
        }
        p
    }

    /// A machine loaded from `code`: slot `i` holds `code[i]` for each `i`
    /// below both the code length and the capacity; the remaining slots keep
    /// `Halt`, and an over-long sequence is silently truncated. Registers and
    /// program counter start at 0.
    pub fn new(code: Vec<Instruction>) -> (p: Program)
        ensures
            p.wf(),
            p@ == loaded_state(code@),
    {
        let mut p = Program::empty();
        let mut i: usize = 0;
        while i < code.len() && i < PROG_CAPACITY
            invariant
                p.wf(),
                i <= code@.len(),
                i <= PROG_CAPACITY,
                p@.pc == 0,
                p@.regs == initial_regs(),
                forall|j: int| 0 <= j < i ==> p@.instrs[j] == code@[j],
                forall|j: int| i <= j < PROG_CAPACITY ==> p@.instrs[j] is Halt,
            decreases code@.len() - i,
        {
            p.instructions.set(i, code[i]);
            i = i + 1;
        }
        proof {
            assert(p@.instrs =~= loaded_state(code@).instrs);
            assert(p@ =~= loaded_state(code@));
        }
        p
    }

    /// Overwrite the register at `reg`; every `u8` index is in range, so the
    /// operation is total. Nothing else changes.
    pub fn set_register(&mut self, reg: u8, value: u64)
        requires
            old(self).wf(),
        ensures
            final(self).wf(),
            final(self)@.regs == old(self)@.regs.update(reg as int, value),
            final(self)@.instrs == old(self)@.instrs,
            final(self)@.pc == old(self)@.pc,
    {
        self.registers.set(reg as usize, value);
    }

    /// Read the register at `reg`; every `u8` index is in range, so the
    /// operation is total.
    pub fn get_register(&self, reg: u8) -> (value: u64)
        requires
            self.wf(),
        ensures
            value == self@.regs[reg as int],
    {
        self.registers[reg as usize]
    }

    /// Execute exactly one transition, as `step_state` describes: `Halt` is a
    /// no-op, `Increment` bumps its register with wraparound and jumps,
    /// `Decrement` decrements and branches, or branches without decrementing
    /// when its register is 0. A purged slot is the fatal condition and is
    /// excluded by the precondition.
    pub fn step(&mut self)
        requires
            old(self).wf(),
            !old(self)@.on_purged(),
        ensures
            final(self).wf(),
            final(self)@ == step_state(old(self)@),
    {
        match self.instructions[self.ptr as usize] {
            Instruction::Halt => {},
            Instruction::Increment(reg, target) => {
                let v: u64 = self.registers[reg as usize];
                let bumped: u64 = if v == u64::MAX {
                    0
                } else {
                    v + 1
                };
                self.registers.set(reg as usize, bumped);
                self.ptr = target;
            },
            Instruction::Decrement(reg, then_pc, else_pc) => {
                let v: u64 = self.registers[reg as usize];
                if v > 0 {
                    self.registers.set(reg as usize, v - 1);
                    self.ptr = then_pc;
                } else {
                    self.ptr = else_pc;
                }
            },
            Instruction::Purged => {
                // Unreachable: the precondition rules a purged slot out.
            },
        }
    }

    /// Execute up to `max_steps` transitions. Before each transition, if the
    /// machine is halted, stop and return the number of transitions already
    /// executed (0 if it was halted on entry); if the budget runs out first,
    /// return exactly `max_steps`. State persists, so a later call resumes
    /// where this one stopped. The precondition rules out reaching a purged
    /// slot within the budget, the one fatal condition.
    pub fn run(&mut self, max_steps: u64) -> (count: u64)
        requires
            old(self).wf(),
            purge_free(old(self)@, max_steps as nat),
        ensures
            final(self).wf(),
            count <= max_steps,
            count as nat == run_steps(old(self)@, max_steps as nat),
            final(self)@ == run_state(old(self)@, count as nat),
            count < max_steps ==> final(self)@.halted(),
            forall|k: nat| k < count ==> !(#[trigger] run_state(old(self)@, k)).halted(),
    {
        let ghost s0 = self@;
        let mut count: u64 = 0;
        while count < max_steps
            invariant
                s0 == old(self)@,
                self.wf(),
                count <= max_steps,
                self@ == run_state(s0, count as nat),
                run_steps(s0, max_steps as nat) == count + run_steps(
                    self@,
                    (max_steps - count) as nat,
                ),
                forall|k: nat| k < count ==> !(#[trigger] run_state(s0, k)).halted(),
                purge_free(s0, max_steps as nat),
            decreases max_steps - count,
        {
            let is_halt: bool = match self.instructions[self.ptr as usize] {
                Instruction::Halt => true,
                _ => false,
            };
            if is_halt {
                proof {
                    assert(run_steps(self@, (max_steps - count) as nat) == 0);
                }
                return count;
            }
            proof {
                assert(!(run_state(s0, count as nat)).on_purged());
            }
            self.step();
            count = count + 1;
        }
        count
    }
}

} // verus!
