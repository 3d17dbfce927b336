use bf_interpreter::instruction::parse;
use bf_interpreter::vm::BFVM;
use bf_interpreter::vm::VmError;
use bf_interpreter::vm::MEMSIZE;

#[test]
fn fresh_engine_is_zeroed() {
    let vm = BFVM::new(parse(""), false);
    assert!(vm.is_finished());
    for i in 0..MEMSIZE {
        assert_eq!(vm.memory_at(i), 0);
    }
    assert!(vm.output().is_empty());
}

#[test]
fn loop_correctness_sum_of_ten() {
    let program = parse("++++++++++[[>+>+<<-]>>[<<+>>-]<<-]");
    let mut vm = BFVM::new(program, false);
    let finished = vm.run(Vec::new(), 1_000_000).unwrap();
    assert!(finished);
    assert_eq!(vm.memory_at(1), 55);
    assert_eq!(vm.memory_at(0), 0);
}

#[test]
fn output_scenario() {
    let mut vm = BFVM::new(parse("++."), false);
    let finished = vm.run(Vec::new(), 1_000_000).unwrap();
    assert!(finished);
    assert_eq!(vm.output().as_slice(), &[2]);
}

#[test]
fn input_byte_lands_in_cell() {
    let mut vm = BFVM::new(parse(",."), false);
    let finished = vm.run(vec![65], 1_000_000).unwrap();
    assert!(finished);
    assert_eq!(vm.output().as_slice(), &[65]);
}

#[test]
fn input_exhaustion_is_fatal() {
    let mut vm = BFVM::new(parse(","), false);
    assert_eq!(vm.run(Vec::new(), 1_000_000), Err(VmError::InputExhausted));
    assert!(!vm.is_finished());
}

#[test]
fn unmatched_begin_is_unbalanced() {
    let mut vm = BFVM::new(parse("["), false);
    assert_eq!(vm.run(Vec::new(), 1_000_000), Err(VmError::UnbalancedBracket));
    assert_eq!(vm.program_pos(), 0);
}

#[test]
fn unmatched_end_is_unbalanced() {
    let mut vm = BFVM::new(parse("+]"), false);
    assert_eq!(vm.run(Vec::new(), 1_000_000), Err(VmError::UnbalancedBracket));
    assert_eq!(vm.program_pos(), 1);
}

#[test]
fn move_left_at_first_cell_is_out_of_bounds() {
    let mut vm = BFVM::new(parse("<"), false);
    assert_eq!(vm.run(Vec::new(), 1_000_000), Err(VmError::OutOfBounds));
    assert_eq!(vm.program_pos(), 0);
}

#[test]
fn move_right_at_last_cell_is_out_of_bounds() {
    let walk_off_the_tape = ">".repeat(MEMSIZE);
    let mut vm = BFVM::new(parse(&walk_off_the_tape), false);
    assert_eq!(vm.run(Vec::new(), 1_000_000), Err(VmError::OutOfBounds));
    assert_eq!(vm.program_pos(), MEMSIZE - 1);
}

#[test]
fn cells_wrap_modulo_256() {
    let mut vm = BFVM::new(parse("-"), false);
    vm.run(Vec::new(), 1_000_000).unwrap();
    assert_eq!(vm.memory_at(0), 255);

    let two_hundred_fifty_six_increments = "+".repeat(256);
    let mut vm = BFVM::new(parse(&two_hundred_fifty_six_increments), false);
    vm.run(Vec::new(), 1_000_000).unwrap();
    assert_eq!(vm.memory_at(0), 0);
}

#[test]
fn input_can_be_fed_piecewise() {
    let mut vm = BFVM::new(parse(",.,."), false);
    let mut fed: u8 = 0;
    while !vm.is_finished() {
        match vm.issue() {
            Ok(()) => {}
            Err(VmError::InputExhausted) => {
                fed += 1;
                vm.set_input(vec![64 + fed]);
            }
            Err(error) => panic!("unexpected failure: {:?}", error),
        }
    }
    assert_eq!(vm.output().as_slice(), &[65, 66]);
}

#[test]
fn begin_scan_lands_deterministically() {
    let mut first = BFVM::new(parse("[+]"), false);
    let mut second = BFVM::new(parse("[+]"), false);
    first.issue().unwrap();
    second.issue().unwrap();
    assert_eq!(first.program_pos(), 3);
    assert_eq!(second.program_pos(), 3);
}

#[test]
fn nested_loop_is_skipped_whole() {
    let mut vm = BFVM::new(parse("[[-]+]"), false);
    let finished = vm.run(Vec::new(), 1_000_000).unwrap();
    assert!(finished);
    assert_eq!(vm.program_pos(), 6);
    assert_eq!(vm.memory_at(0), 0);
}

#[test]
fn step_budget_can_run_out() {
    let mut vm = BFVM::new(parse("+++"), false);
    let finished = vm.run(Vec::new(), 2).unwrap();
    assert!(!finished);
    assert_eq!(vm.program_pos(), 2);
    let finished = vm.run(Vec::new(), 1_000_000).unwrap();
    assert!(finished);
    assert_eq!(vm.memory_at(0), 3);
}

#[test]
fn show_renders_the_tape() {
    let vm = BFVM::new(parse("+"), true);
    let line = String::from_utf8(vm.show()).unwrap();
    let mut expected = String::from("  0:+  0@");
    for _ in 1..MEMSIZE {
        expected.push_str("  0 ");
    }
    expected.push('\n');
    assert_eq!(line, expected);
}

#[test]
fn show_marks_the_active_cell() {
    let mut vm = BFVM::new(parse("++>+++<[-]"), false);
    // Execute "++>+++" and stop with the cursor on cell 1.
    vm.run(Vec::new(), 6).unwrap();
    let line = String::from_utf8(vm.show()).unwrap();
    let mut expected = String::from("  6:<  2   3@");
    for _ in 2..MEMSIZE {
        expected.push_str("  0 ");
    }
    expected.push('\n');
    assert_eq!(line, expected);
}
