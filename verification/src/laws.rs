//! What holds of every run.

use crate::game::completed;
use crate::model::{fetch_value, first_beyond, leave_loops, run, step, Env, Machine};
use crate::outcome::{ArithOp, Fault, Outcome};
use crate::word::{lemma_literal_spells_word, literal_operand, whole_count};
use vstd::prelude::*;

verus! {

/// Leaving `count` loops closes that many of the innermost loops, or all of
/// them where fewer are open, and touches no other register but the
/// instruction pointer.
pub proof fn lemma_leave_closes_loops(exits: Seq<usize>, m: Machine, count: nat)
    ensures
        leave_loops(exits, m, count).loops == m.loops.take(
            if count <= m.loops.len() {
                m.loops.len() - count
            } else {
                0
            },
        ),
        leave_loops(exits, m, count) == (Machine {
            pointer: leave_loops(exits, m, count).pointer,
            loops: leave_loops(exits, m, count).loops,
            ..m
        }),
    decreases count,
{
    if count > 0 && m.loops.len() > 0 {
        let inner = Machine {
            loops: m.loops.drop_last(),
            pointer: first_beyond(exits, m.pointer, 0),
            ..m
        };
        lemma_leave_closes_loops(exits, inner, (count - 1) as nat);
        assert(leave_loops(exits, m, count).loops =~= m.loops.take(
            if count <= m.loops.len() {
                m.loops.len() - count
            } else {
                0
            },
        ));
    } else {
        assert(m.loops =~= m.loops.take(m.loops.len() as int));
    }
}

/// The local slots and the data array are of fixed size: no step adds a
/// slot or takes one away.
pub proof fn lemma_step_keeps_sizes(env: Env, m: Machine)
    ensures
        step(env, m).0.locals.len() == m.locals.len(),
        step(env, m).0.data.len() == m.data.len(),
{
    reveal(step);
    if m.pointer < env.code.len() && env.code[m.pointer as int] == 5 {
        match fetch_value(env.code, m, (m.pointer + 1) as usize) {
            Ok((times, end)) => {
                lemma_leave_closes_loops(
                    env.exits,
                    Machine { pointer: end, ..m },
                    whole_count(times) as nat,
                );
            },
            Err(_) => {},
        }
    }
}

/// The local slots and the data array are of fixed size: no run adds a slot
/// or takes one away.
pub proof fn lemma_run_keeps_sizes(env: Env, m: Machine, fuel: nat)
    ensures
        run(env, m, fuel).0.locals.len() == m.locals.len(),
        run(env, m, fuel).0.data.len() == m.data.len(),
    decreases fuel,
{
    if fuel > 0 {
        lemma_step_keeps_sizes(env, m);
        if step(env, m).1 is None {
            lemma_run_keeps_sizes(env, step(env, m).0, (fuel - 1) as nat);
        }
    }
}

/// A run that reaches the end of its function leaves the context reset: no
/// loop is open, and the instruction pointer is at the start.
pub proof fn lemma_finished_is_reset(env: Env, m: Machine, fuel: nat)
    requires
        run(env, m, fuel).1 == Outcome::Finished,
    ensures
        run(env, m, fuel).0.pointer == 0,
        run(env, m, fuel).0.loops.len() == 0,
    decreases fuel,
{
    if fuel > 0 {
        if step(env, m).1 is None {
            lemma_finished_is_reset(env, step(env, m).0, (fuel - 1) as nat);
        } else {
            reveal(step);
        }
    }
}

/// An instruction that faults changes nothing.
pub proof fn lemma_fault_changes_nothing(env: Env, m: Machine)
    requires
        step(env, m).1 matches Some(Outcome::Fault(_)),
    ensures
        step(env, m).0 == m,
{
    reveal(step);
}

/// A run that faults stops in front of the instruction at fault: the next
/// run faults at once, in the same way.
pub proof fn lemma_fault_is_final(env: Env, m: Machine, fuel: nat, more: nat)
    requires
        run(env, m, fuel).1 is Fault,
        more > 0,
    ensures
        run(env, run(env, m, fuel).0, more) == run(env, m, fuel),
    decreases fuel,
{
    if fuel > 0 {
        if step(env, m).1 is None {
            lemma_fault_is_final(env, step(env, m).0, (fuel - 1) as nat, more);
        } else {
            lemma_fault_changes_nothing(env, m);
        }
    }
}

/// A yield keeps everything but the instruction pointer, which it moves
/// behind itself: the machine that the next run resumes is the one that a
/// no-op in the place of the yield would have left.
pub proof fn lemma_yield_keeps_state(env: Env, m: Machine)
    requires
        m.pointer < env.code.len(),
        env.code[m.pointer as int] == 2,
    ensures
        step(env, m) == (Machine { pointer: (m.pointer + 1) as usize, ..m }, Some(Outcome::Yielded)),
        step(Env { code: env.code.update(m.pointer as int, 4), ..env }, m) == (
            step(env, m).0,
            None::<Outcome>,
        ),
{
    reveal(step);
}

/// No step stops for want of fuel: only a run does.
pub proof fn lemma_step_has_fuel(env: Env, m: Machine)
    ensures
        step(env, m).1 != Some(Outcome::OutOfFuel),
{
    reveal(step);
}

/// A run that stops for want of fuel loses nothing: a second run from
/// where it stopped ends as one run with the fuel of both would have.
pub proof fn lemma_run_resumes(env: Env, m: Machine, first: nat, second: nat)
    requires
        run(env, m, first).1 == Outcome::OutOfFuel,
    ensures
        run(env, run(env, m, first).0, second) == run(env, m, first + second),
    decreases first,
{
    if first > 0 {
        if step(env, m).1 is None {
            lemma_run_resumes(env, step(env, m).0, (first - 1) as nat, second);
        } else {
            lemma_step_has_fuel(env, m);
        }
    }
}

/// With a loop open, opcode 0 takes the instruction pointer back to the
/// start of the innermost loop and changes nothing else: the loop stays
/// open.
pub proof fn lemma_repeat_returns_to_mark(env: Env, m: Machine)
    requires
        m.pointer < env.code.len(),
        env.code[m.pointer as int] == 0,
        m.loops.len() > 0,
    ensures
        step(env, m) == (Machine { pointer: m.loops.last(), ..m }, None::<Outcome>),
{
    reveal(step);
}

/// Opcode 1 opens a loop that starts behind it.
pub proof fn lemma_mark_opens_loop(env: Env, m: Machine)
    requires
        m.pointer < env.code.len(),
        env.code[m.pointer as int] == 1,
    ensures
        step(env, m) == (
            Machine {
                loops: m.loops.push((m.pointer + 1) as usize),
                pointer: (m.pointer + 1) as usize,
                ..m
            },
            None::<Outcome>,
        ),
{
    reveal(step);
}

/// A loop whose body is made of no-ops never ends: from anywhere in the
/// body, whatever the fuel, the run stops only for want of fuel, still
/// inside the body and with the same loops open.
pub proof fn lemma_idle_loop_never_stops(env: Env, m: Machine, end: usize, fuel: nat)
    requires
        m.loops.len() > 0,
        m.loops.last() <= m.pointer <= end < env.code.len(),
        env.code[end as int] == 0,
        forall|i: int| m.loops.last() <= i < end ==> env.code[i] == 4,
    ensures
        run(env, m, fuel).1 == Outcome::OutOfFuel,
        run(env, m, fuel).0.loops == m.loops,
        m.loops.last() <= run(env, m, fuel).0.pointer <= end,
        run(env, m, fuel).0 == (Machine { pointer: run(env, m, fuel).0.pointer, ..m }),
    decreases fuel,
{
    if fuel > 0 {
        assert(step(env, m) == (
            Machine {
                pointer: if m.pointer == end {
                    m.loops.last()
                } else {
                    (m.pointer + 1) as usize
                },
                ..m
            },
            None::<Outcome>,
        )) by {
            reveal(step);
        }
        lemma_idle_loop_never_stops(env, step(env, m).0, end, (fuel - 1) as nat);
    }
}

/// The exit that leaving a loop jumps to is the first in the list that
/// lies beyond the instruction pointer; where none does, the pointer stays.
pub proof fn lemma_first_beyond(exits: Seq<usize>, pointer: usize, from: int)
    requires
        0 <= from,
    ensures
        first_beyond(exits, pointer, from) == pointer <==> forall|i: int|
            from <= i < exits.len() ==> exits[i] <= pointer,
        first_beyond(exits, pointer, from) != pointer ==> exists|i: int|
            from <= i < exits.len() && exits[i] == first_beyond(exits, pointer, from)
                && exits[i] > pointer && forall|j: int| from <= j < i ==> exits[j] <= pointer,
    decreases exits.len() - from,
{
    if from < exits.len() {
        if exits[from] > pointer {
            assert(from <= from < exits.len() && exits[from] == first_beyond(
                exits,
                pointer,
                from,
            ) && forall|j: int| from <= j < from ==> exits[j] <= pointer);
        } else {
            lemma_first_beyond(exits, pointer, from + 1);
            if first_beyond(exits, pointer, from) != pointer {
                let i = choose|i: int|
                    from + 1 <= i < exits.len() && exits[i] == first_beyond(
                        exits,
                        pointer,
                        from + 1,
                    ) && exits[i] > pointer && forall|j: int|
                        from + 1 <= j < i ==> exits[j] <= pointer;
                assert(from <= i < exits.len() && exits[i] == first_beyond(exits, pointer, from)
                    && exits[i] > pointer && forall|j: int| from <= j < i ==> exits[j] <= pointer);
            }
        }
    }
}

/// Arithmetic consumes exactly one value.  On a calculation stack that ends
/// in `a`, `b` the opcode for `op` stops the run and asks for `a op b`
/// without touching the stack; completing it with the result `r` leaves the
/// stack one value shorter, with `r` in the place of `a`.
pub proof fn lemma_arithmetic_consumes_one(
    env: Env,
    m: Machine,
    below: Seq<u32>,
    a: u32,
    b: u32,
    r: u32,
)
    requires
        m.pointer < env.code.len(),
        21 <= env.code[m.pointer as int] <= 23,
        m.calc == below.push(a).push(b),
    ensures
        step(env, m) == (
            Machine { pointer: (m.pointer + 1) as usize, ..m },
            Some(
                Outcome::Arithmetic(
                    if env.code[m.pointer as int] == 21 {
                        ArithOp::Add
                    } else if env.code[m.pointer as int] == 22 {
                        ArithOp::Sub
                    } else {
                        ArithOp::Mul
                    },
                    a,
                    b,
                ),
            ),
        ),
        completed(step(env, m).0.calc, r) == below.push(r),
{
    reveal(step);
    assert(completed(m.calc, r) =~= below.push(r));
}

/// A store to the data array puts the top of the calculation stack into
/// the slot that the index names, takes it off the stack and touches
/// nothing else but the instruction pointer, which it moves behind the
/// instruction.
pub proof fn lemma_store_to_data(env: Env, m: Machine)
    requires
        m.pointer + 3 <= env.code.len() <= usize::MAX,
        env.code[m.pointer as int] == 20,
        env.code[m.pointer + 1] == 2,
        env.code[m.pointer + 2] < m.data.len(),
        m.calc.len() > 0,
    ensures
        step(env, m) == (
            Machine {
                data: m.data.update(env.code[m.pointer + 2] as int, m.calc.last()),
                calc: m.calc.drop_last(),
                pointer: (m.pointer + 3) as usize,
                ..m
            },
            None::<Outcome>,
        ),
        step(env, m).0.data[env.code[m.pointer + 2] as int] == m.calc.last(),
        step(env, m).0.calc.len() == m.calc.len() - 1,
{
    reveal(step);
}

/// A literal operand reads back as the value it was written from, bit for
/// bit, whatever the value and whatever the machine.
pub proof fn lemma_literal_round_trip(code: Seq<u8>, m: Machine, at: usize, bits: u32)
    requires
        at + 5 <= code.len(),
        code.subrange(at as int, at + 5) == literal_operand(bits),
    ensures
        fetch_value(code, m, at) == Ok::<(u32, usize), Fault>((bits, (at + 5) as usize)),
{
    lemma_literal_spells_word(bits);
    let operand = code.subrange(at as int, at + 5);
    assert(code[at as int] == operand[0]);
    assert(code[at + 1] == operand[1]);
    assert(code[at + 2] == operand[2]);
    assert(code[at + 3] == operand[3]);
    assert(code[at + 4] == operand[4]);
}

/// Loops open and close by loop control alone: an instruction that is
/// none of opcodes 0, 1 and 5 leaves the open loops as they are.
pub proof fn lemma_loops_change_by_loop_control(env: Env, m: Machine)
    requires
        m.pointer < env.code.len(),
        env.code[m.pointer as int] != 0,
        env.code[m.pointer as int] != 1,
        env.code[m.pointer as int] != 5,
    ensures
        step(env, m).0.loops == m.loops,
{
    reveal(step);
}

/// A step queues at most one command and takes none back.
pub proof fn lemma_step_appends_commands(env: Env, m: Machine)
    ensures
        m.commands.len() <= step(env, m).0.commands.len() <= m.commands.len() + 1,
        step(env, m).0.commands.take(m.commands.len() as int) == m.commands,
{
    reveal(step);
    if m.pointer < env.code.len() && env.code[m.pointer as int] == 5 {
        match fetch_value(env.code, m, (m.pointer + 1) as usize) {
            Ok((times, end)) => {
                lemma_leave_closes_loops(
                    env.exits,
                    Machine { pointer: end, ..m },
                    whole_count(times) as nat,
                );
            },
            Err(_) => {},
        }
    }
    assert(step(env, m).0.commands.take(m.commands.len() as int) =~= m.commands);
}

/// The command queue only grows: what was queued before a run is still
/// at the front of the queue after it, in the same order.
pub proof fn lemma_run_appends_commands(env: Env, m: Machine, fuel: nat)
    ensures
        m.commands.len() <= run(env, m, fuel).0.commands.len(),
        run(env, m, fuel).0.commands.take(m.commands.len() as int) == m.commands,
    decreases fuel,
{
    if fuel > 0 {
        lemma_step_appends_commands(env, m);
        let next = step(env, m).0;
        if step(env, m).1 is None {
            lemma_run_appends_commands(env, next, (fuel - 1) as nat);
            let end = run(env, m, fuel).0.commands;
            assert(end.take(m.commands.len() as int) =~= end.take(next.commands.len() as int).take(
                m.commands.len() as int,
            ));
        }
    } else {
        assert(m.commands.take(m.commands.len() as int) =~= m.commands);
    }
}

} // verus!
