//! The executable interpreter, verified against the machine model.

use vstd::prelude::*;

use crate::machine::{
    dec_cell, inc_cell, left_of, right_of, run_bounded, scan_bwd, scan_fwd, step, BfError, Config,
    Phase, TAPE_SIZE,
};

verus! {

/// How a call to [`BfInterpreter::execute`] came to an end.
#[derive(Clone, Copy, Debug, PartialEq, Eq)]
pub enum RunStatus {
    /// The program counter ran past the end of the program.
    Done,
    /// A fatal condition aborted the program.
    Fault(BfError),
    /// The step budget was exhausted while the program was still running.
    OutOfSteps,
}

/// What a call to [`BfInterpreter::execute`] produced.
#[derive(Debug)]
pub struct RunOutcome {
    /// Every byte written by `.` instructions, in order.
    pub output: Vec<u8>,
    /// How the run ended.
    pub status: RunStatus,
}

/// The interpreter: a fixed tape of `TAPE_SIZE` byte cells and a data
/// pointer into it.  Both persist across calls to `execute` and are only
/// cleared by [`BfInterpreter::reset`].
pub struct BfInterpreter {
    /// The memory tape.
    pub tape: [u8; TAPE_SIZE],
    /// The data pointer.
    pub pointer: usize,
}

/// The model configuration that a run starts from: the interpreter's tape
/// and pointer, with the program counter, input position and output at
/// their initial values.
pub open spec fn start_config(m: BfInterpreter) -> Config {
    Config {
        tape: m.tape@,
        ptr: m.pointer as nat,
        pc: 0,
        in_pos: 0,
        out: Seq::<u8>::empty(),
        phase: Phase::Running,
    }
}

/// The run status that reports a terminal phase of the model.
pub open spec fn status_of(p: Phase) -> RunStatus {
    match p {
        Phase::Running => RunStatus::OutOfSteps,
        Phase::Halted => RunStatus::Done,
        Phase::Failed(e) => RunStatus::Fault(e),
    }
}

impl BfInterpreter {
    /// A fresh interpreter: every cell zero, pointer at 0.
    pub fn new() -> (r: Self)
        ensures
            r.pointer == 0,
            forall|i: int| 0 <= i < TAPE_SIZE ==> r.tape@[i] == 0,
    {
        BfInterpreter { tape: [0; TAPE_SIZE], pointer: 0 }
    }

    /// Zeroes every tape cell and puts the pointer back at 0.
    pub fn reset(&mut self)
        ensures
            final(self).pointer == 0,
            forall|i: int| 0 <= i < TAPE_SIZE ==> final(self).tape@[i] == 0,
    {
        self.tape = [0; TAPE_SIZE];
        self.pointer = 0;
    }

    /// Handles `>`: moves the pointer one cell right.  The move itself is
    /// unguarded and wraps around the `usize` range; only a later cell
    /// access checks the pointer against the tape bounds.
    pub fn move_right(&mut self)
        ensures
            final(self).pointer as nat == right_of(old(self).pointer as nat),
            final(self).tape == old(self).tape,
    {
        self.pointer = self.pointer.wrapping_add(1);
    }

    /// Handles `<`: moves the pointer one cell left.  At 0 the pointer
    /// wraps to the top of the `usize` range, so the next cell access is
    /// out of bounds rather than the move itself failing.
    pub fn move_left(&mut self)
        ensures
            final(self).pointer as nat == left_of(old(self).pointer as nat),
            final(self).tape == old(self).tape,
    {
        self.pointer = self.pointer.wrapping_sub(1);
    }

    /// Handles `+`: adds one to the current cell, wrapping modulo 256.
    pub fn increment(&mut self)
        requires
            old(self).pointer < TAPE_SIZE,
        ensures
            final(self).tape@ == old(self).tape@.update(
                old(self).pointer as int,
                inc_cell(old(self).tape@[old(self).pointer as int]),
            ),
            final(self).pointer == old(self).pointer,
    {
        let v = self.tape[self.pointer];
        self.tape[self.pointer] = v.wrapping_add(1);
    }

    /// Handles `-`: subtracts one from the current cell, wrapping modulo
    /// 256.
    pub fn decrement(&mut self)
        requires
            old(self).pointer < TAPE_SIZE,
        ensures
            final(self).tape@ == old(self).tape@.update(
                old(self).pointer as int,
                dec_cell(old(self).tape@[old(self).pointer as int]),
            ),
            final(self).pointer == old(self).pointer,
    {
        let v = self.tape[self.pointer];
        self.tape[self.pointer] = v.wrapping_sub(1);
    }

    /// Runs `program` against the current tape and pointer (they are not
    /// reset first).  `,` instructions consume successive bytes of
    /// `input`; `.` instructions append to the returned output.  At most
    /// `max_steps` instructions are executed; the outcome says whether the
    /// program finished, hit a fatal condition, or ran out of steps.
    ///
    /// A taken `[` or `]` without a matching bracket acts as a no-op:
    /// execution continues at the following instruction rather than
    /// stopping with an error.
    ///
    /// The result is exactly what the machine model computes: the final
    /// tape, pointer, output and status all equal those of
    /// [`run_bounded`] from the starting configuration.
    #[verifier::loop_isolation(false)]
    pub fn execute(&mut self, program: &Vec<char>, input: &Vec<u8>, max_steps: u64) -> (r:
        RunOutcome)
        ensures
            ({
                let end = run_bounded(
                    program@,
                    input@,
                    start_config(*old(self)),
                    max_steps as nat,
                );
                &&& final(self).tape@ == end.tape
                &&& final(self).pointer as nat == end.ptr
                &&& r.output@ == end.out
                &&& r.status == status_of(end.phase)
            }),
    {
        let ghost end = run_bounded(program@, input@, start_config(*old(self)), max_steps as nat);
        let program_len = program.len();
        let mut pc: usize = 0;
        let mut in_pos: usize = 0;
        let mut out: Vec<u8> = Vec::new();
        let mut steps: u64 = 0;

        while steps < max_steps
            invariant
                pc <= program_len,
                in_pos <= input.len(),
                steps <= max_steps,
                end == run_bounded(
                    program@,
                    input@,
                    Config {
                        tape: self.tape@,
                        ptr: self.pointer as nat,
                        pc: pc as nat,
                        in_pos: in_pos as nat,
                        out: out@,
                        phase: Phase::Running,
                    },
                    (max_steps - steps) as nat,
                ),
            decreases max_steps - steps,
        {
            let ghost cur = Config {
                tape: self.tape@,
                ptr: self.pointer as nat,
                pc: pc as nat,
                in_pos: in_pos as nat,
                out: out@,
                phase: Phase::Running,
            };
            proof {
                assert(run_bounded(program@, input@, cur, (max_steps - steps) as nat)
                    == run_bounded(
                    program@,
                    input@,
                    step(program@, input@, cur),
                    (max_steps - steps - 1) as nat,
                ));
            }
            if pc >= program_len {
                return RunOutcome { output: out, status: RunStatus::Done };
            }
            let ch = program[pc];
            if ch == '>' {
                self.move_right();
                pc = pc + 1;
            } else if ch == '<' {
                self.move_left();
                pc = pc + 1;
            } else if ch == '+' {
                if self.pointer >= TAPE_SIZE {
                    return RunOutcome {
                        output: out,
                        status: RunStatus::Fault(BfError::OutOfBounds),
                    };
                }
                self.increment();
                pc = pc + 1;
            } else if ch == '-' {
                if self.pointer >= TAPE_SIZE {
                    return RunOutcome {
                        output: out,
                        status: RunStatus::Fault(BfError::OutOfBounds),
                    };
                }
                self.decrement();
                pc = pc + 1;
            } else if ch == '.' {
                if self.pointer >= TAPE_SIZE {
                    return RunOutcome {
                        output: out,
                        status: RunStatus::Fault(BfError::OutOfBounds),
                    };
                }
                out.push(self.tape[self.pointer]);
                pc = pc + 1;
            } else if ch == ',' {
                if in_pos >= input.len() {
                    return RunOutcome {
                        output: out,
                        status: RunStatus::Fault(BfError::InputReadFailure),
                    };
                }
                if self.pointer >= TAPE_SIZE {
                    return RunOutcome {
                        output: out,
                        status: RunStatus::Fault(BfError::OutOfBounds),
                    };
                }
                self.tape[self.pointer] = input[in_pos];
                in_pos = in_pos + 1;
                pc = pc + 1;
            } else if ch == '[' {
                if self.pointer >= TAPE_SIZE {
                    return RunOutcome {
                        output: out,
                        status: RunStatus::Fault(BfError::OutOfBounds),
                    };
                }
                if self.tape[self.pointer] == 0 {
                    match find_forward(program, pc) {
                        Some(j) => pc = j,
                        None => pc = pc + 1,
                    }
                } else {
                    pc = pc + 1;
                }
            } else if ch == ']' {
                if self.pointer >= TAPE_SIZE {
                    return RunOutcome {
                        output: out,
                        status: RunStatus::Fault(BfError::OutOfBounds),
                    };
                }
                if self.tape[self.pointer] != 0 {
                    if pc == 0 {
                        pc = 1;
                    } else {
                        match find_backward(program, pc) {
                            Some(j) => pc = j,
                            None => pc = pc + 1,
                        }
                    }
                } else {
                    pc = pc + 1;
                }
            } else {
                pc = pc + 1;
            }
            steps = steps + 1;
        }
        RunOutcome { output: out, status: RunStatus::OutOfSteps }
    }

    /// The forward match for the `[` at `start`: the position one past the
    /// matching `]`, or `start` itself when the scan runs off the end of
    /// the program without a match.
    pub fn jump_forward(&self, start: usize, program: &Vec<char>) -> (r: usize)
        requires
            start < program@.len(),
        ensures
            r as nat == match scan_fwd(program@, start as nat + 1, 1) {
                Some(j) => j,
                None => start as nat,
            },
    {
        match find_forward(program, start) {
            Some(j) => j,
            None => start,
        }
    }

    /// The backward match for the `]` at `start`: the position one past
    /// the matching `[`, or `start` itself when the scan reaches the start
    /// of the program without a match.
    pub fn jump_backward(&self, start: usize, program: &Vec<char>) -> (r: usize)
        requires
            start < program@.len(),
        ensures
            r as nat == if start == 0 {
                0
            } else {
                match scan_bwd(program@, start as nat, 1) {
                    Some(j) => j,
                    None => start as nat,
                }
            },
    {
        if start == 0 {
            return 0;
        }
        match find_backward(program, start) {
            Some(j) => j,
            None => start,
        }
    }
}

/// The rightward depth-counting scan, as executable code: the exact result
/// of [`scan_fwd`] from the position after the `[` at `start`.
fn find_forward(program: &Vec<char>, start: usize) -> (r: Option<usize>)
    requires
        start < program@.len(),
    ensures
        r matches Some(j) ==> scan_fwd(program@, start as nat + 1, 1) == Some(j as nat),
        r matches Some(j) ==> start < j <= program@.len(),
        r is None ==> scan_fwd(program@, start as nat + 1, 1) is None,
{
    let n = program.len();
    let mut i: usize = start + 1;
    let mut depth: usize = 1;
    while i < n
        invariant
            n == program@.len(),
            start < i <= program@.len(),
            1 <= depth <= i - start,
            scan_fwd(program@, start as nat + 1, 1) == scan_fwd(program@, i as nat, depth as int),
        decreases program@.len() - i,
    {
        let ch = program[i];
        let next: usize = if ch == '[' {
            depth + 1
        } else if ch == ']' {
            depth - 1
        } else {
            depth
        };
        if next == 0 {
            return Some(i + 1);
        }
        depth = next;
        i = i + 1;
    }
    None
}

/// The leftward depth-counting scan, as executable code: the exact result
/// of [`scan_bwd`] from the `]` at `start`.
fn find_backward(program: &Vec<char>, start: usize) -> (r: Option<usize>)
    requires
        0 < start < program@.len(),
    ensures
        r matches Some(j) ==> scan_bwd(program@, start as nat, 1) == Some(j as nat),
        r matches Some(j) ==> 0 < j <= start,
        r is None ==> scan_bwd(program@, start as nat, 1) is None,
{
    let n = program.len();
    let mut i: usize = start;
    let mut depth: usize = 1;
    while i > 0
        invariant
            0 <= i <= start,
            1 <= depth <= 1 + start - i,
            n == program@.len(),
            start < n,
            scan_bwd(program@, start as nat, 1) == scan_bwd(program@, i as nat, depth as int),
        decreases i,
    {
        i = i - 1;
        let ch = program[i];
        if ch == '[' {
            if depth == 1 {
                return Some(i + 1);
            }
            depth = depth - 1;
        } else if ch == ']' {
            depth = depth + 1;
        }
    }
    None
}

} // verus!
