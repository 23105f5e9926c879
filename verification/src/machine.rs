//! The mathematical model of the Brainfuck machine.
//!
//! A machine configuration holds the tape, the data pointer, the program
//! counter, the position of the next unread input byte, the output produced
//! so far, and a phase saying whether the machine is still running.  The
//! function [`step`] gives the configuration after executing one
//! instruction; [`run_bounded`] iterates it with a fuel bound.  The
//! executable interpreter is specified and verified against these
//! functions.

use vstd::prelude::*;

verus! {

/// Number of byte cells on the memory tape.
pub const TAPE_SIZE: usize = 30000;

/// The fatal conditions that abort a running program.
#[derive(Clone, Copy, Debug, PartialEq, Eq)]
pub enum BfError {
    /// A cell access found the data pointer at or beyond the end of the tape.
    OutOfBounds,
    /// A `,` instruction found no byte left on the input source.
    InputReadFailure,
}

/// Whether a machine configuration is mid-run, finished, or stopped on a
/// fatal condition.
#[derive(Clone, Copy, Debug, PartialEq, Eq)]
pub enum Phase {
    /// The program counter has not yet left the program.
    Running,
    /// The program counter moved past the end of the program.
    Halted,
    /// A fatal condition was hit; the configuration is frozen at that point.
    Failed(BfError),
}

/// One machine configuration of the model.
#[verifier::ext_equal]
pub struct Config {
    /// The memory tape; always `TAPE_SIZE` cells long.
    pub tape: Seq<u8>,
    /// The data pointer.  It is not bounded by the tape length: moves wrap
    /// around the `usize` range and only a cell access checks it.
    pub ptr: nat,
    /// The program counter, an index into the program.
    pub pc: nat,
    /// How many input bytes have been consumed.
    pub in_pos: nat,
    /// The bytes written by `.` instructions so far.
    pub out: Seq<u8>,
    /// Whether this configuration is terminal.
    pub phase: Phase,
}

/// A cell incremented by `+`, wrapping modulo 256.
pub open spec fn inc_cell(v: u8) -> u8 {
    if v == 255 {
        0
    } else {
        (v + 1) as u8
    }
}

/// A cell decremented by `-`, wrapping modulo 256.
pub open spec fn dec_cell(v: u8) -> u8 {
    if v == 0 {
        255
    } else {
        (v - 1) as u8
    }
}

/// The data pointer after `>`: unguarded, so it wraps as a `usize` does.
pub open spec fn right_of(p: nat) -> nat {
    if p == usize::MAX as nat {
        0
    } else {
        p + 1
    }
}

/// The data pointer after `<`: unguarded, so at 0 it wraps to the top of
/// the `usize` range, and the next cell access is then out of bounds.
pub open spec fn left_of(p: nat) -> nat {
    if p == 0 {
        usize::MAX as nat
    } else {
        (p - 1) as nat
    }
}

/// The eight instruction characters; every other character is a comment.
pub open spec fn is_command(c: char) -> bool {
    c == '>' || c == '<' || c == '+' || c == '-' || c == '.' || c == ',' || c == '[' || c == ']'
}

/// Rightward depth-counting scan for the `]` matching a `[`.
///
/// Starting at position `i` with the given nesting depth, returns the
/// position one past the `]` at which the depth returns to zero, or `None`
/// if the scan runs off the end of the program.
pub open spec fn scan_fwd(prog: Seq<char>, i: nat, depth: int) -> Option<nat>
    decreases prog.len() - i,
{
    if i >= prog.len() {
        None
    } else {
        let next = if prog[i as int] == '[' {
            depth + 1
        } else if prog[i as int] == ']' {
            depth - 1
        } else {
            depth
        };
        if next == 0 {
            Some((i + 1) as nat)
        } else {
            scan_fwd(prog, (i + 1) as nat, next)
        }
    }
}

/// Leftward depth-counting scan for the `[` matching a `]`.
///
/// Examines positions below `i` moving left; returns the position one past
/// the `[` at which the depth comes back to one, or `None` if the scan
/// reaches the start of the program without finding it.
pub open spec fn scan_bwd(prog: Seq<char>, i: nat, depth: int) -> Option<nat>
    decreases i,
{
    if i == 0 {
        None
    } else {
        let j = (i - 1) as nat;
        if prog[j as int] == '[' {
            if depth == 1 {
                Some((j + 1) as nat)
            } else {
                scan_bwd(prog, j, depth - 1)
            }
        } else if prog[j as int] == ']' {
            scan_bwd(prog, j, depth + 1)
        } else {
            scan_bwd(prog, j, depth)
        }
    }
}

/// Where the program counter goes when a `[` at `start` is taken.
///
/// On a successful match the counter resumes one past the matching `]`.
/// An unmatched `[` is treated as a no-op: the counter moves to the next
/// instruction.
pub open spec fn fwd_jump(prog: Seq<char>, start: nat) -> nat {
    match scan_fwd(prog, start + 1, 1) {
        Some(j) => j,
        None => start + 1,
    }
}

/// Where the program counter goes when a `]` at `start` is taken.
///
/// On a successful match the counter resumes one past the matching `[`.
/// An unmatched `]` is treated as a no-op: the counter moves to the next
/// instruction.
pub open spec fn bwd_jump(prog: Seq<char>, start: nat) -> nat {
    if start == 0 {
        1
    } else {
        match scan_bwd(prog, start, 1) {
            Some(j) => j,
            None => start + 1,
        }
    }
}

/// The configuration after executing one instruction of `prog` with input
/// source `input`.  A terminal configuration steps to itself.
pub open spec fn step(prog: Seq<char>, input: Seq<u8>, c: Config) -> Config {
    if c.phase != Phase::Running {
        c
    } else if c.pc >= prog.len() {
        Config { phase: Phase::Halted, ..c }
    } else {
        let ch = prog[c.pc as int];
        if ch == '>' {
            Config { ptr: right_of(c.ptr), pc: c.pc + 1, ..c }
        } else if ch == '<' {
            Config { ptr: left_of(c.ptr), pc: c.pc + 1, ..c }
        } else if ch == '+' {
            if c.ptr < TAPE_SIZE {
                Config {
                    tape: c.tape.update(c.ptr as int, inc_cell(c.tape[c.ptr as int])),
                    pc: c.pc + 1,
                    ..c
                }
            } else {
                Config { phase: Phase::Failed(BfError::OutOfBounds), ..c }
            }
        } else if ch == '-' {
            if c.ptr < TAPE_SIZE {
                Config {
                    tape: c.tape.update(c.ptr as int, dec_cell(c.tape[c.ptr as int])),
                    pc: c.pc + 1,
                    ..c
                }
            } else {
                Config { phase: Phase::Failed(BfError::OutOfBounds), ..c }
            }
        } else if ch == '.' {
            if c.ptr < TAPE_SIZE {
                Config { out: c.out.push(c.tape[c.ptr as int]), pc: c.pc + 1, ..c }
            } else {
                Config { phase: Phase::Failed(BfError::OutOfBounds), ..c }
            }
        } else if ch == ',' {
            if c.in_pos >= input.len() {
                Config { phase: Phase::Failed(BfError::InputReadFailure), ..c }
            } else if c.ptr < TAPE_SIZE {
                Config {
                    tape: c.tape.update(c.ptr as int, input[c.in_pos as int]),
                    in_pos: c.in_pos + 1,
                    pc: c.pc + 1,
                    ..c
                }
            } else {
                Config { phase: Phase::Failed(BfError::OutOfBounds), ..c }
            }
        } else if ch == '[' {
            if c.ptr < TAPE_SIZE {
                if c.tape[c.ptr as int] == 0 {
                    Config { pc: fwd_jump(prog, c.pc), ..c }
                } else {
                    Config { pc: c.pc + 1, ..c }
                }
            } else {
                Config { phase: Phase::Failed(BfError::OutOfBounds), ..c }
            }
        } else if ch == ']' {
            if c.ptr < TAPE_SIZE {
                if c.tape[c.ptr as int] != 0 {
                    Config { pc: bwd_jump(prog, c.pc), ..c }
                } else {
                    Config { pc: c.pc + 1, ..c }
                }
            } else {
                Config { phase: Phase::Failed(BfError::OutOfBounds), ..c }
            }
        } else {
            Config { pc: c.pc + 1, ..c }
        }
    }
}

/// The configuration reached from `c` after at most `fuel` instructions,
/// stopping early at a terminal configuration.
pub open spec fn run_bounded(prog: Seq<char>, input: Seq<u8>, c: Config, fuel: nat) -> Config
    decreases fuel,
{
    if fuel == 0 || c.phase != Phase::Running {
        c
    } else {
        run_bounded(prog, input, step(prog, input, c), (fuel - 1) as nat)
    }
}

} // verus!
