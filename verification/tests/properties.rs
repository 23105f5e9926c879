use bf_interpreter::interpreter::{BfInterpreter, RunOutcome, RunStatus};
use bf_interpreter::machine::BfError;

const STEPS: u64 = 1_000_000;

fn chars(s: &str) -> Vec<char> {
    s.chars().collect()
}

fn run(interpreter: &mut BfInterpreter, program: &str, input: &[u8]) -> RunOutcome {
    interpreter.execute(&chars(program), &input.to_vec(), STEPS)
}

#[test]
fn plus_256_times_returns_to_zero() {
    let mut interpreter = BfInterpreter::new();
    let outcome = run(&mut interpreter, &"+".repeat(256), &[]);
    assert_eq!(outcome.status, RunStatus::Done);
    assert_eq!(interpreter.tape[0], 0);
}

#[test]
fn plus_257_times_yields_one() {
    let mut interpreter = BfInterpreter::new();
    let outcome = run(&mut interpreter, &"+".repeat(257), &[]);
    assert_eq!(outcome.status, RunStatus::Done);
    assert_eq!(interpreter.tape[0], 1);
}

#[test]
fn minus_once_at_zero_yields_255() {
    let mut interpreter = BfInterpreter::new();
    let outcome = run(&mut interpreter, "-", &[]);
    assert_eq!(outcome.status, RunStatus::Done);
    assert_eq!(interpreter.tape[0], 255);
}

#[test]
fn reset_restores_fresh_state() {
    let mut interpreter = BfInterpreter::new();
    let outcome = run(&mut interpreter, "++>+++>++++", &[]);
    assert_eq!(outcome.status, RunStatus::Done);
    assert_ne!(interpreter.tape[1], 0);
    interpreter.reset();
    assert!(interpreter.tape.iter().all(|&cell| cell == 0));
    assert_eq!(interpreter.pointer, 0);
}

#[test]
fn forward_skip_on_zero_cell() {
    let mut interpreter = BfInterpreter::new();
    let outcome = run(&mut interpreter, "[+-]", &[]);
    assert_eq!(outcome.status, RunStatus::Done);
    assert_eq!(interpreter.tape[0], 0);
    assert_eq!(interpreter.pointer, 0);
    assert!(outcome.output.is_empty());
}

#[test]
fn bounded_loop_drains_cell() {
    let mut interpreter = BfInterpreter::new();
    interpreter.tape[0] = 3;
    let outcome = run(&mut interpreter, "+[-]", &[]);
    assert_eq!(outcome.status, RunStatus::Done);
    assert_eq!(interpreter.tape[0], 0);
}

#[test]
fn unbounded_loop_runs_out_of_steps() {
    let mut interpreter = BfInterpreter::new();
    interpreter.tape[0] = 1;
    let outcome = interpreter.execute(&chars("[+-]"), &Vec::new(), 10_000);
    assert_eq!(outcome.status, RunStatus::OutOfSteps);
}

#[test]
fn input_byte_is_echoed() {
    let mut interpreter = BfInterpreter::new();
    let outcome = run(&mut interpreter, ",.", &[0x41]);
    assert_eq!(outcome.status, RunStatus::Done);
    assert_eq!(outcome.output, vec![0x41]);
    assert_eq!(interpreter.tape[0], 65);
}

#[test]
fn pointer_round_trip() {
    let mut interpreter = BfInterpreter::new();
    let outcome = run(&mut interpreter, ">+<", &[]);
    assert_eq!(outcome.status, RunStatus::Done);
    assert_eq!(interpreter.pointer, 0);
    assert_eq!(interpreter.tape[1], 1);
    assert_eq!(interpreter.tape[0], 0);
}

#[test]
fn comments_do_not_touch_the_tape() {
    let mut interpreter = BfInterpreter::new();
    let outcome = run(&mut interpreter, "a+b+c", &[]);
    assert_eq!(outcome.status, RunStatus::Done);
    assert_eq!(interpreter.tape[0], 2);
    assert_eq!(interpreter.pointer, 0);
}

#[test]
fn comments_match_plain_program() {
    let mut commented = BfInterpreter::new();
    let with_comments = run(&mut commented, "A>B+C<D", &[]);
    let mut plain = BfInterpreter::new();
    let without = run(&mut plain, ">+<", &[]);
    assert_eq!(with_comments.status, RunStatus::Done);
    assert_eq!(without.status, RunStatus::Done);
    assert_eq!(commented.pointer, plain.pointer);
    assert!(commented.tape.iter().zip(plain.tape.iter()).all(|(a, b)| a == b));
}

#[test]
fn comments_do_not_affect_bracket_depth() {
    let mut interpreter = BfInterpreter::new();
    interpreter.tape[0] = 2;
    let outcome = run(&mut interpreter, "[x-y]", &[]);
    assert_eq!(outcome.status, RunStatus::Done);
    assert_eq!(interpreter.tape[0], 0);
}

#[test]
fn read_without_input_is_fatal() {
    let mut interpreter = BfInterpreter::new();
    let outcome = run(&mut interpreter, ",", &[]);
    assert_eq!(outcome.status, RunStatus::Fault(BfError::InputReadFailure));
}

#[test]
fn pointer_underflow_faults_at_next_access() {
    let mut interpreter = BfInterpreter::new();
    let outcome = run(&mut interpreter, "<+", &[]);
    assert_eq!(outcome.status, RunStatus::Fault(BfError::OutOfBounds));
    assert_eq!(interpreter.pointer, usize::MAX);
}

#[test]
fn pointer_past_tape_end_faults() {
    let mut interpreter = BfInterpreter::new();
    let program = format!("{}{}", ">".repeat(30000), "+");
    let outcome = run(&mut interpreter, &program, &[]);
    assert_eq!(outcome.status, RunStatus::Fault(BfError::OutOfBounds));
}

#[test]
fn output_is_kept_up_to_a_fault() {
    let mut interpreter = BfInterpreter::new();
    let outcome = run(&mut interpreter, ".,", &[]);
    assert_eq!(outcome.status, RunStatus::Fault(BfError::InputReadFailure));
    assert_eq!(outcome.output, vec![0]);
}

#[test]
fn state_persists_across_calls() {
    let mut interpreter = BfInterpreter::new();
    let first = run(&mut interpreter, "+", &[]);
    let second = run(&mut interpreter, "+", &[]);
    assert_eq!(first.status, RunStatus::Done);
    assert_eq!(second.status, RunStatus::Done);
    assert_eq!(interpreter.tape[0], 2);
}

#[test]
fn unmatched_open_bracket_is_a_no_op() {
    let mut interpreter = BfInterpreter::new();
    let outcome = run(&mut interpreter, "[+", &[]);
    assert_eq!(outcome.status, RunStatus::Done);
    assert_eq!(interpreter.tape[0], 1);
}

#[test]
fn unmatched_close_bracket_is_a_no_op() {
    let mut interpreter = BfInterpreter::new();
    interpreter.tape[0] = 1;
    let outcome = run(&mut interpreter, "]+", &[]);
    assert_eq!(outcome.status, RunStatus::Done);
    assert_eq!(interpreter.tape[0], 2);
}

#[test]
fn output_writes_raw_high_bytes() {
    let mut interpreter = BfInterpreter::new();
    interpreter.tape[0] = 200;
    let outcome = run(&mut interpreter, ".", &[]);
    assert_eq!(outcome.status, RunStatus::Done);
    assert_eq!(outcome.output, vec![200]);
}
