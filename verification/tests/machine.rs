use counter_machine::Instruction;
use counter_machine::Program;

#[test]
fn halt() {
    let mut prog = Program::empty();
    assert_eq!(prog.run(u64::MAX), 0);
}

#[test]
fn substract() {
    // $0 = $0 - $1
    let mut prog = Program::new(vec![
        // Move $1 to a placeholder location.
        Instruction::Decrement(1, 1, 2), // 0
        Instruction::Increment(2, 0),    // 1
        // Move placeholder back to $1 while decreasing $0
        Instruction::Decrement(2, 3, 5), // 2
        Instruction::Increment(1, 4),    // 3
        Instruction::Decrement(0, 2, 2), // 4
        Instruction::Halt,               // 5
    ]);

    prog.set_register(0, 98);
    prog.set_register(1, 81);

    assert_eq!(prog.run(u64::MAX), 407);
    assert_eq!(prog.get_register(0), 17);
    assert_eq!(prog.get_register(1), 81);
}

#[test]
fn add() {
    // $0 = $0 + $1
    let mut prog = Program::new(vec![
        // Move $1 to a placeholder location.
        Instruction::Decrement(1, 1, 2), // 0
        Instruction::Increment(2, 0),    // 1
        // Move placeholder back to $1 while also increasing $0
        Instruction::Decrement(2, 3, 5), // 2
        Instruction::Increment(1, 4),    // 3
        Instruction::Increment(0, 2),    // 4
        Instruction::Halt,               // 5
    ]);

    prog.set_register(0, 98);
    prog.set_register(1, 81);

    assert_eq!(prog.run(u64::MAX), 407);
    assert_eq!(prog.get_register(0), 179);
    assert_eq!(prog.get_register(1), 81);
}

#[test]
fn multiply() {
    // $0 = $0 * $1
    let mut prog = Program::new(vec![
        // Move $1 to a placeholder location ($2).
        Instruction::Decrement(1, 1, 2), // 0
        Instruction::Increment(2, 0),    // 1
        // Move $0 to a placeholder location ($3)
        Instruction::Decrement(0, 3, 4), // 2
        Instruction::Increment(3, 2),    // 3
        // Move $2 back into $1
        // At each step, take turns either moving $3 to $0 and $4
        // or moving $4 to $0 and $3.
        Instruction::Decrement(2, 5, 14), // 4
        Instruction::Increment(1, 6),     // 5
        // Move $3 into $0 and $4
        Instruction::Decrement(3, 7, 9), // 6
        Instruction::Increment(0, 8),    // 7
        Instruction::Increment(4, 6),    // 8
        // Decrement $2
        Instruction::Decrement(2, 10, 14), // 9
        Instruction::Increment(1, 11),     // 10
        // Move $4 into $0 and $3
        Instruction::Decrement(4, 12, 4), // 11
        Instruction::Increment(0, 13),    // 12
        Instruction::Increment(3, 11),    // 13
        Instruction::Halt,                // 14
    ]);

    prog.set_register(0, 98);
    prog.set_register(1, 81);
    assert_eq!(prog.run(100000), 24418);
    assert_eq!(prog.get_register(0), 7938);
    assert_eq!(prog.get_register(1), 81);
}

#[test]
fn empty_machine_registers_stay_zero() {
    let mut prog = Program::empty();
    assert_eq!(prog.run(5), 0);
    assert_eq!(prog.run(1), 0);
    assert_eq!(prog.get_register(0), 0);
    assert_eq!(prog.get_register(128), 0);
    assert_eq!(prog.get_register(255), 0);
}

#[test]
fn set_and_get_register() {
    let mut prog = Program::empty();
    prog.set_register(5, 42);
    assert_eq!(prog.get_register(5), 42);
    prog.set_register(5, 7);
    assert_eq!(prog.get_register(5), 7);
    prog.set_register(255, u64::MAX);
    assert_eq!(prog.get_register(255), u64::MAX);
    assert_eq!(prog.get_register(4), 0);
    assert_eq!(prog.get_register(6), 0);
}

#[test]
fn increment_wraps_at_max() {
    let mut prog = Program::new(vec![Instruction::Increment(0, 1)]);
    prog.set_register(0, u64::MAX);
    assert_eq!(prog.run(10), 1);
    assert_eq!(prog.get_register(0), 0);
}

#[test]
fn step_increments_and_jumps() {
    let mut prog = Program::new(vec![Instruction::Increment(7, 3)]);
    prog.step();
    assert_eq!(prog.get_register(7), 1);
    // The jump target holds the padded `Halt`, so a run stops at once.
    assert_eq!(prog.run(5), 0);
}

#[test]
fn step_on_halt_changes_nothing() {
    let mut prog = Program::empty();
    prog.set_register(0, 9);
    prog.step();
    prog.step();
    assert_eq!(prog.get_register(0), 9);
    assert_eq!(prog.run(3), 0);
}

#[test]
fn decrement_on_zero_takes_else_branch() {
    let mut prog = Program::new(vec![Instruction::Decrement(0, 0, 1)]);
    assert_eq!(prog.run(10), 1);
    assert_eq!(prog.get_register(0), 0);
}

#[test]
fn decrement_on_zero_never_underflows() {
    // The else branch loops back, so every transition re-reads the zero
    // register; the budget is the only thing that stops the run.
    let mut prog = Program::new(vec![Instruction::Decrement(0, 1, 0)]);
    assert_eq!(prog.run(1000), 1000);
    assert_eq!(prog.get_register(0), 0);
}

#[test]
fn run_with_zero_budget_does_nothing() {
    let mut prog = Program::new(vec![Instruction::Increment(0, 1)]);
    assert_eq!(prog.run(0), 0);
    assert_eq!(prog.get_register(0), 0);
    assert_eq!(prog.run(10), 1);
    assert_eq!(prog.get_register(0), 1);
}

#[test]
fn run_budgets_resume_and_sum() {
    let mut prog = Program::new(vec![
        Instruction::Decrement(1, 1, 2),
        Instruction::Increment(2, 0),
        Instruction::Decrement(2, 3, 5),
        Instruction::Increment(1, 4),
        Instruction::Decrement(0, 2, 2),
        Instruction::Halt,
    ]);

    prog.set_register(0, 98);
    prog.set_register(1, 81);

    // The program halts after 407 transitions; split the budget three ways
    // and check the counts sum to exactly that.
    assert_eq!(prog.run(100), 100);
    assert_eq!(prog.run(200), 200);
    assert_eq!(prog.run(u64::MAX), 107);
    assert_eq!(prog.get_register(0), 17);
    assert_eq!(prog.get_register(1), 81);
    // Already halted: a further run executes nothing.
    assert_eq!(prog.run(50), 0);
}

#[test]
fn construction_pads_with_halt() {
    // One instruction supplied: slot 1 onward keeps `Halt`, so the run stops
    // right after the single increment.
    let mut prog = Program::new(vec![Instruction::Increment(0, 1)]);
    assert_eq!(prog.run(10), 1);
    assert_eq!(prog.get_register(0), 1);
}

#[test]
fn construction_truncates_excess() {
    // 65,537 instructions supplied: the one past the capacity would bump
    // register 1, but it is discarded, so behaviour matches the first 65,536.
    let mut code = vec![Instruction::Increment(0, 1)];
    while code.len() < 65536 {
        code.push(Instruction::Halt);
    }
    code.push(Instruction::Increment(1, 0));
    assert_eq!(code.len(), 65537);

    let mut prog = Program::new(code);
    assert_eq!(prog.run(10), 1);
    assert_eq!(prog.get_register(0), 1);
    assert_eq!(prog.get_register(1), 0);
}

#[test]
fn new_of_empty_sequence_matches_empty() {
    let mut from_new = Program::new(vec![]);
    let mut from_empty = Program::empty();
    assert_eq!(from_new.run(3), 0);
    assert_eq!(from_empty.run(3), 0);
    assert_eq!(from_new.get_register(0), from_empty.get_register(0));
}
