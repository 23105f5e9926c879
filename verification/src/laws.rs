//! General laws of the machine model, stated and proved once for all
//! programs, inputs and configurations.

use vstd::prelude::*;

use vstd::arithmetic::div_mod::{
    lemma_fundamental_div_mod, lemma_fundamental_div_mod_converse_mod,
};

use crate::machine::{
    inc_cell, is_command, run_bounded, scan_bwd, scan_fwd, step, Config, Phase, TAPE_SIZE,
};

verus! {

/// A terminal configuration never moves again: a halt and a fatal
/// condition are both final, however much fuel is left.
pub proof fn lemma_terminal_is_fixed(prog: Seq<char>, input: Seq<u8>, c: Config, fuel: nat)
    requires
        c.phase != Phase::Running,
    ensures
        run_bounded(prog, input, c, fuel) == c,
{
}

/// Law: a `-` instruction on a cell at zero wraps it to 255.
pub proof fn lemma_minus_wraps(prog: Seq<char>, input: Seq<u8>, c: Config)
    requires
        c.phase == Phase::Running,
        c.tape.len() == TAPE_SIZE,
        c.pc < prog.len(),
        prog[c.pc as int] == '-',
        c.ptr < TAPE_SIZE,
        c.tape[c.ptr as int] == 0,
    ensures
        step(prog, input, c).tape[c.ptr as int] == 255,
{
}

/// The program consisting of `n` `+` instructions and nothing else.
pub open spec fn plusses(n: nat) -> Seq<char> {
    Seq::new(n, |i: int| '+')
}

/// A cell incremented `k` times in a row.
pub open spec fn inc_n(v: u8, k: nat) -> u8
    decreases k,
{
    if k == 0 {
        v
    } else {
        inc_cell(inc_n(v, (k - 1) as nat))
    }
}

/// Running a machine for `a + b` steps is running it for `a` steps and
/// then for `b` more.
pub proof fn lemma_run_bounded_split(
    prog: Seq<char>,
    input: Seq<u8>,
    c: Config,
    a: nat,
    b: nat,
)
    ensures
        run_bounded(prog, input, c, a + b) == run_bounded(
            prog,
            input,
            run_bounded(prog, input, c, a),
            b,
        ),
    decreases a,
{
    if a > 0 && c.phase == Phase::Running {
        lemma_run_bounded_split(prog, input, step(prog, input, c), (a - 1) as nat, b);
    }
}

/// Incrementing once and then `k` times is incrementing `k + 1` times.
proof fn lemma_inc_n_shift(v: u8, k: nat)
    ensures
        inc_n(inc_cell(v), k) == inc_n(v, k + 1),
    decreases k,
{
    reveal_with_fuel(inc_n, 2);
    if k > 0 {
        lemma_inc_n_shift(v, (k - 1) as nat);
    }
}

/// Adding one more to a sum taken modulo 256 steps the remainder
/// cyclically.
proof fn lemma_mod256_step(a: int)
    requires
        a >= 0,
    ensures
        (a + 1) % 256 == if a % 256 == 255 {
            0int
        } else {
            a % 256 + 1
        },
{
    let q = a / 256;
    let r = a % 256;
    lemma_fundamental_div_mod(a, 256);
    if r == 255 {
        lemma_fundamental_div_mod_converse_mod(a + 1, 256, q + 1, 0);
    } else {
        lemma_fundamental_div_mod_converse_mod(a + 1, 256, q, r + 1);
    }
}

/// `k` single increments amount to adding `k` modulo 256.
proof fn lemma_inc_n_mod(v: u8, k: nat)
    ensures
        inc_n(v, k) == ((v + k) % 256) as u8,
    decreases k,
{
    if k == 0 {
        assert((v as int) % 256 == v as int);
    } else {
        lemma_inc_n_mod(v, (k - 1) as nat);
        lemma_mod256_step(v + k - 1);
    }
}

/// Each of the first `k` instructions of a pure-`+` program increments
/// the current cell once and moves the program counter right.
proof fn lemma_plus_steps(input: Seq<u8>, c: Config, n: nat, k: nat)
    requires
        c.phase == Phase::Running,
        c.tape.len() == TAPE_SIZE,
        c.ptr < TAPE_SIZE,
        c.pc + k <= n,
    ensures
        run_bounded(plusses(n), input, c, k) == (Config {
            tape: c.tape.update(c.ptr as int, inc_n(c.tape[c.ptr as int], k)),
            pc: c.pc + k,
            ..c
        }),
    decreases k,
{
    let prog = plusses(n);
    let t0 = c.tape[c.ptr as int];
    if k == 0 {
        assert(c.tape.update(c.ptr as int, t0) =~= c.tape);
        assert(Config { tape: c.tape.update(c.ptr as int, inc_n(t0, 0)), pc: c.pc + 0, ..c }
            =~= c);
    } else {
        let c1 = step(prog, input, c);
        assert(prog[c.pc as int] == '+');
        assert(c1 == Config {
            tape: c.tape.update(c.ptr as int, inc_cell(t0)),
            pc: c.pc + 1,
            ..c
        });
        lemma_plus_steps(input, c1, n, (k - 1) as nat);
        lemma_inc_n_shift(t0, (k - 1) as nat);
        assert(c1.tape.update(c1.ptr as int, inc_n(t0, k)) =~= c.tape.update(
            c.ptr as int,
            inc_n(t0, k),
        ));
        assert(run_bounded(prog, input, c, k) == run_bounded(prog, input, c1, (k - 1) as nat));
    }
}

/// Law: a program of `n` `+` instructions and nothing else halts after
/// all of them, having added `n` to the current cell modulo 256 and
/// changed nothing else.
pub proof fn lemma_plus_run_wraps(input: Seq<u8>, c: Config, n: nat)
    requires
        c.phase == Phase::Running,
        c.tape.len() == TAPE_SIZE,
        c.pc == 0,
        c.ptr < TAPE_SIZE,
    ensures
        run_bounded(plusses(n), input, c, n + 1) == (Config {
            tape: c.tape.update(
                c.ptr as int,
                (((c.tape[c.ptr as int] + n) % 256) as u8),
            ),
            pc: n,
            phase: Phase::Halted,
            ..c
        }),
{
    let prog = plusses(n);
    lemma_plus_steps(input, c, n, n);
    let cn = run_bounded(prog, input, c, n);
    lemma_run_bounded_split(prog, input, c, n, 1);
    reveal_with_fuel(run_bounded, 2);
    assert(run_bounded(prog, input, cn, 1) == step(prog, input, cn));
    lemma_inc_n_mod(c.tape[c.ptr as int], n);
}

/// Law: 256 consecutive `+` instructions return a cell that started at
/// zero to zero, and 257 of them leave it at one.
pub proof fn lemma_plus_cycle(input: Seq<u8>, c: Config)
    requires
        c.phase == Phase::Running,
        c.tape.len() == TAPE_SIZE,
        c.pc == 0,
        c.ptr < TAPE_SIZE,
        c.tape[c.ptr as int] == 0,
    ensures
        run_bounded(plusses(256), input, c, 257).phase == Phase::Halted,
        run_bounded(plusses(256), input, c, 257).tape[c.ptr as int] == 0,
        run_bounded(plusses(257), input, c, 258).phase == Phase::Halted,
        run_bounded(plusses(257), input, c, 258).tape[c.ptr as int] == 1,
{
    lemma_plus_run_wraps(input, c, 256);
    lemma_plus_run_wraps(input, c, 257);
}

/// Law: a non-command character is inert.  Executing it changes no tape
/// cell, does not move the data pointer, consumes no input and produces
/// no output; it only advances the program counter by one.
pub proof fn lemma_comment_is_inert(prog: Seq<char>, input: Seq<u8>, c: Config)
    requires
        c.phase == Phase::Running,
        c.pc < prog.len(),
        !is_command(prog[c.pc as int]),
    ensures
        step(prog, input, c) == (Config { pc: c.pc + 1, ..c }),
{
}

/// A run of non-command characters ahead of the program counter is
/// executed without touching anything but the program counter itself.
proof fn lemma_comment_steps(prog: Seq<char>, input: Seq<u8>, c: Config, k: nat)
    requires
        c.phase == Phase::Running,
        c.pc + k <= prog.len(),
        forall|i: int| c.pc <= i < c.pc + k ==> !is_command(#[trigger] prog[i]),
    ensures
        run_bounded(prog, input, c, k) == (Config { pc: c.pc + k, ..c }),
    decreases k,
{
    if k == 0 {
        assert(Config { pc: c.pc + 0, ..c } =~= c);
    } else {
        lemma_comment_is_inert(prog, input, c);
        let c1 = step(prog, input, c);
        lemma_comment_steps(prog, input, c1, (k - 1) as nat);
    }
}

/// Law: a program made of non-command characters alone halts at its end
/// with the tape, the pointer, the input position and the output exactly
/// as they were.
pub proof fn lemma_comment_program_is_inert(prog: Seq<char>, input: Seq<u8>, c: Config)
    requires
        c.phase == Phase::Running,
        c.pc == 0,
        forall|i: int| 0 <= i < prog.len() ==> !is_command(#[trigger] prog[i]),
    ensures
        run_bounded(prog, input, c, prog.len() + 1) == (Config {
            pc: prog.len(),
            phase: Phase::Halted,
            ..c
        }),
{
    lemma_comment_steps(prog, input, c, prog.len());
    let cn = run_bounded(prog, input, c, prog.len());
    lemma_run_bounded_split(prog, input, c, prog.len(), 1);
    reveal_with_fuel(run_bounded, 2);
    assert(run_bounded(prog, input, cn, 1) == step(prog, input, cn));
}

/// Law: a non-command character does not affect the depth counting of the
/// rightward bracket scan; the scan passes over it unchanged.
pub proof fn lemma_comment_in_scan_fwd(prog: Seq<char>, i: nat, depth: int)
    requires
        i < prog.len(),
        !is_command(prog[i as int]),
        depth != 0,
    ensures
        scan_fwd(prog, i, depth) == scan_fwd(prog, i + 1, depth),
{
}

/// Law: a non-command character does not affect the depth counting of the
/// leftward bracket scan; the scan passes over it unchanged.
pub proof fn lemma_comment_in_scan_bwd(prog: Seq<char>, j: nat, depth: int)
    requires
        j < prog.len(),
        !is_command(prog[j as int]),
    ensures
        scan_bwd(prog, j + 1, depth) == scan_bwd(prog, j, depth),
{
}

} // verus!
