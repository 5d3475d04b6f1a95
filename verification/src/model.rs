//! What the machine does, as mathematics.
//!
//! A run is a function from what the machine can read (an [`Env`]) and what
//! it can change (a [`Machine`]) to the changed machine and the reason for
//! which the run stopped.  The executable interpreter is proved to compute
//! exactly this function.

use crate::game::{collide_arity, collide_shape, CollideType, Command, Translation};
use crate::outcome::{ArithOp, Fault, FaultKind, Outcome};
use crate::word::{be_word, whole_count};
use vstd::prelude::*;
use vstd::utf8::{decode_utf8, valid_utf8};

verus! {

/// What a run reads and never changes.
#[verifier::ext_equal]
pub struct Env {
    /// The instruction stream of the function.
    pub code: Seq<u8>,
    /// The function's loop exits, in the order in which they are searched.
    pub exits: Seq<usize>,
    /// The number of arguments of each loaded script, if a registry is there.
    pub scripts: Option<Map<Seq<char>, u8>>,
}

/// What a run can change.
#[verifier::ext_equal]
pub struct Machine {
    /// The offset of the next instruction.
    pub pointer: usize,
    /// The offsets at which the open loops start, innermost last.
    pub loops: Seq<usize>,
    /// The function's local slots.
    pub locals: Seq<u32>,
    /// The script's data array.
    pub data: Seq<u32>,
    /// The calculation stack, top last.
    pub calc: Seq<u32>,
    /// The commands queued so far, oldest first.
    pub commands: Seq<Command>,
    /// Where the calling entity is.
    pub caller: Option<Translation>,
    /// Where the player is.
    pub player: Option<Translation>,
}

impl Machine {
    /// The machine with its function's context reset: no open loop, and the
    /// instruction pointer at the start.
    pub open spec fn reset(self) -> Machine {
        Machine { pointer: 0, loops: Seq::empty(), ..self }
    }
}

/// A fault of a kind at an offset.
pub open spec fn fault(kind: FaultKind, offset: int) -> Fault {
    Fault { kind, offset: offset as usize }
}

/// One coordinate of a position: x for axis 0, y for axis 1, z otherwise.
pub open spec fn coordinate(t: Translation, axis: int) -> u32 {
    if axis == 0 {
        t.x
    } else if axis == 1 {
        t.y
    } else {
        t.z
    }
}

/// A position with one coordinate replaced.
pub open spec fn with_coordinate(t: Translation, axis: int, value: u32) -> Translation {
    if axis == 0 {
        Translation { x: value, ..t }
    } else if axis == 1 {
        Translation { y: value, ..t }
    } else {
        Translation { z: value, ..t }
    }
}

/// The engine field of an index: 0 to 2 are the caller's x, y and z, 3 to 5
/// the player's.
pub open spec fn field(m: Machine, index: u8) -> Result<u32, FaultKind> {
    if index < 3 {
        match m.caller {
            Some(t) => Ok(coordinate(t, index as int)),
            None => Err(FaultKind::NoCallerPosition),
        }
    } else if index < 6 {
        match m.player {
            Some(t) => Ok(coordinate(t, index - 3)),
            None => Err(FaultKind::NoPlayerPosition),
        }
    } else {
        Err(FaultKind::UnknownField(index))
    }
}

/// The value operand at `at`, and the offset behind it.
///
/// A source tag selects the form: 0 is a literal of four bytes, 1 an engine
/// field, 2 a slot of the data array, 3 a local slot; the last three take one
/// index byte.
pub open spec fn fetch_value(code: Seq<u8>, m: Machine, at: usize) -> Result<(u32, usize), Fault> {
    if at >= code.len() {
        Err(fault(FaultKind::Truncated, at as int))
    } else {
        let tag = code[at as int];
        if tag == 0 {
            if at + 5 > code.len() {
                Err(fault(FaultKind::Truncated, at as int))
            } else {
                Ok(
                    (
                        be_word(code[at + 1], code[at + 2], code[at + 3], code[at + 4]),
                        (at + 5) as usize,
                    ),
                )
            }
        } else if tag <= 3 {
            if at + 2 > code.len() {
                Err(fault(FaultKind::Truncated, at as int))
            } else {
                let index = code[at + 1];
                let next = (at + 2) as usize;
                if tag == 1 {
                    match field(m, index) {
                        Ok(v) => Ok((v, next)),
                        Err(kind) => Err(fault(kind, at + 1)),
                    }
                } else if tag == 2 {
                    if index < m.data.len() {
                        Ok((m.data[index as int], next))
                    } else {
                        Err(fault(FaultKind::DataIndex(index), at + 1))
                    }
                } else {
                    if index < m.locals.len() {
                        Ok((m.locals[index as int], next))
                    } else {
                        Err(fault(FaultKind::LocalIndex(index), at + 1))
                    }
                }
            }
        } else {
            Err(fault(FaultKind::UnknownSource(tag), at as int))
        }
    }
}

/// The first `count` value operands from `at` on, and the offset behind
/// them; the fault of the first that has one.
pub open spec fn fetch_values(code: Seq<u8>, m: Machine, at: usize, count: nat) -> Result<
    (Seq<u32>, usize),
    Fault,
>
    decreases count,
{
    if count == 0 {
        Ok((Seq::empty(), at))
    } else {
        match fetch_values(code, m, at, (count - 1) as nat) {
            Err(f) => Err(f),
            Ok((values, mid)) => match fetch_value(code, m, mid) {
                Err(f) => Err(f),
                Ok((v, next)) => Ok((values.push(v), next)),
            },
        }
    }
}

/// The name at `at`, and the offset behind it: a length of two bytes, most
/// significant first, then that many bytes of UTF-8.
pub open spec fn fetch_name(code: Seq<u8>, at: usize) -> Result<(Seq<char>, usize), Fault> {
    if at + 2 > code.len() {
        Err(fault(FaultKind::Truncated, at as int))
    } else {
        let length = code[at as int] as int * 0x100 + code[at + 1] as int;
        if at + 2 + length > code.len() {
            Err(fault(FaultKind::Truncated, at as int))
        } else {
            let bytes = code.subrange(at + 2, at + 2 + length);
            if valid_utf8(bytes) {
                Ok((decode_utf8(bytes), (at + 2 + length) as usize))
            } else {
                Err(fault(FaultKind::InvalidName, at as int))
            }
        }
    }
}

/// The collision shape at `at`, and the offset behind it: a tag byte, then
/// as many value operands as the tag calls for.
pub open spec fn fetch_collide(code: Seq<u8>, m: Machine, at: usize) -> Result<
    (CollideType, usize),
    Fault,
> {
    if at >= code.len() {
        Err(fault(FaultKind::Truncated, at as int))
    } else {
        let tag = code[at as int];
        match collide_arity(tag) {
            None => Err(fault(FaultKind::UnknownCollision(tag), at as int)),
            Some(arity) => match fetch_values(code, m, (at + 1) as usize, arity) {
                Err(f) => Err(f),
                Ok((args, next)) => Ok((collide_shape(tag, args)->Some_0, next)),
            },
        }
    }
}

/// The script that drives a spawned entity, at `at`, and the offset behind
/// it: the script's name, then as many value operands as the registry says
/// that the script takes arguments.
pub open spec fn fetch_script(env: Env, m: Machine, at: usize) -> Result<
    (Seq<char>, Seq<u32>, usize),
    Fault,
> {
    match fetch_name(env.code, at) {
        Err(f) => Err(f),
        Ok((ai, next)) => match env.scripts {
            None => Err(fault(FaultKind::NoRegistry, at as int)),
            Some(counts) => if counts.contains_key(ai) {
                match fetch_values(env.code, m, next, counts[ai] as nat) {
                    Err(f) => Err(f),
                    Ok((args, end)) => Ok((ai, args, end)),
                }
            } else {
                Err(fault(FaultKind::UnknownScript, at as int))
            },
        },
    }
}

/// The operands of a summon from `at` on, and the offset behind them: the
/// entity's name, `placement` value operands, its collision shape and the
/// script that drives it.
pub open spec fn fetch_summon(env: Env, m: Machine, at: usize, placement: nat) -> Result<
    (Seq<char>, Seq<u32>, CollideType, Seq<char>, Seq<u32>, usize),
    Fault,
> {
    match fetch_name(env.code, at) {
        Err(f) => Err(f),
        Ok((name, a1)) => match fetch_values(env.code, m, a1, placement) {
            Err(f) => Err(f),
            Ok((place, a2)) => match fetch_collide(env.code, m, a2) {
                Err(f) => Err(f),
                Ok((collide, a3)) => match fetch_script(env, m, a3) {
                    Err(f) => Err(f),
                    Ok((ai, args, end)) => Ok((name, place, collide, ai, args, end)),
                },
            },
        },
    }
}

/// The machine after `value` went to the destination operand at `at`, with
/// the instruction pointer behind the operand.
///
/// A destination is a tag byte and an index byte: tag 1 is an engine field,
/// 2 a slot of the data array, 3 a local slot.
pub open spec fn store_value(code: Seq<u8>, m: Machine, at: usize, value: u32) -> Result<
    Machine,
    Fault,
> {
    if at + 2 > code.len() {
        Err(fault(FaultKind::Truncated, at as int))
    } else {
        let tag = code[at as int];
        let index = code[at + 1];
        let next = (at + 2) as usize;
        if tag == 1 {
            if index < 3 {
                match m.caller {
                    Some(t) => Ok(
                        Machine {
                            caller: Some(with_coordinate(t, index as int, value)),
                            pointer: next,
                            ..m
                        },
                    ),
                    None => Err(fault(FaultKind::NoCallerPosition, at + 1)),
                }
            } else if index < 6 {
                match m.player {
                    Some(t) => Ok(
                        Machine {
                            player: Some(with_coordinate(t, index - 3, value)),
                            pointer: next,
                            ..m
                        },
                    ),
                    None => Err(fault(FaultKind::NoPlayerPosition, at + 1)),
                }
            } else {
                Err(fault(FaultKind::UnknownField(index), at + 1))
            }
        } else if tag == 2 {
            if index < m.data.len() {
                Ok(Machine { data: m.data.update(index as int, value), pointer: next, ..m })
            } else {
                Err(fault(FaultKind::DataIndex(index), at + 1))
            }
        } else if tag == 3 {
            if index < m.locals.len() {
                Ok(Machine { locals: m.locals.update(index as int, value), pointer: next, ..m })
            } else {
                Err(fault(FaultKind::LocalIndex(index), at + 1))
            }
        } else {
            Err(fault(FaultKind::UnknownDestination(tag), at as int))
        }
    }
}

/// The first of `exits[from..]` that lies beyond `pointer`; `pointer` itself
/// where none does.
pub open spec fn first_beyond(exits: Seq<usize>, pointer: usize, from: int) -> usize
    decreases exits.len() - from,
{
    if from < 0 || from >= exits.len() {
        pointer
    } else if exits[from] > pointer {
        exits[from]
    } else {
        first_beyond(exits, pointer, from + 1)
    }
}

/// The machine after it left up to `count` loops: each time the innermost
/// open loop is closed and the instruction pointer moves to the first exit
/// beyond it, until `count` loops are left or none is open.
pub open spec fn leave_loops(exits: Seq<usize>, m: Machine, count: nat) -> Machine
    decreases count,
{
    if count == 0 || m.loops.len() == 0 {
        m
    } else {
        leave_loops(
            exits,
            Machine {
                loops: m.loops.drop_last(),
                pointer: first_beyond(exits, m.pointer, 0),
                ..m
            },
            (count - 1) as nat,
        )
    }
}

/// A step that faults: the machine is as it was.
pub open spec fn stop(m: Machine, f: Fault) -> (Machine, Option<Outcome>) {
    (m, Some(Outcome::Fault(f)))
}

/// Opcode 0: back to the start of the innermost open loop, which stays
/// open; with no loop open, the function is at its end.
pub open spec fn op_repeat(m: Machine) -> (Machine, Option<Outcome>) {
    if m.loops.len() > 0 {
        (Machine { pointer: m.loops.last(), ..m }, None)
    } else {
        (m.reset(), Some(Outcome::Finished))
    }
}

/// Opcode 1: a loop opens behind the opcode.
pub open spec fn op_mark(m: Machine, next: usize) -> (Machine, Option<Outcome>) {
    (Machine { loops: m.loops.push(next), pointer: next, ..m }, None)
}

/// Opcode 3: the value operand goes onto the calculation stack.
pub open spec fn op_push(env: Env, m: Machine, next: usize) -> (Machine, Option<Outcome>) {
    match fetch_value(env.code, m, next) {
        Err(f) => stop(m, f),
        Ok((v, end)) => (Machine { calc: m.calc.push(v), pointer: end, ..m }, None),
    }
}

/// Opcode 5: the value operand says how many loops to leave.
pub open spec fn op_leave(env: Env, m: Machine, next: usize) -> (Machine, Option<Outcome>) {
    match fetch_value(env.code, m, next) {
        Err(f) => stop(m, f),
        Ok((times, end)) => (
            leave_loops(env.exits, Machine { pointer: end, ..m }, whole_count(times) as nat),
            None,
        ),
    }
}

/// Opcode 10: a move by the value operand is queued.
pub open spec fn op_move_up(env: Env, m: Machine, next: usize) -> (Machine, Option<Outcome>) {
    match fetch_value(env.code, m, next) {
        Err(f) => stop(m, f),
        Ok((v, end)) => (
            Machine { commands: m.commands.push(Command::MoveUp(v)), pointer: end, ..m },
            None,
        ),
    }
}

/// Opcode 11: an enemy is queued, placed by x, y and its hit points.
pub open spec fn op_summon_enemy(env: Env, m: Machine, next: usize) -> (Machine, Option<Outcome>) {
    match fetch_summon(env, m, next, 3) {
        Err(f) => stop(m, f),
        Ok((name, place, collide, ai, args, end)) => (
            Machine {
                commands: m.commands.push(
                    Command::SummonEnemy {
                        name,
                        x: place[0],
                        y: place[1],
                        hp: place[2],
                        collide,
                        ai,
                        args,
                    },
                ),
                pointer: end,
                ..m
            },
            None,
        ),
    }
}

/// Opcode 12: a bullet is queued, placed by x, y, z and its angle.
pub open spec fn op_summon_bullet(env: Env, m: Machine, next: usize) -> (Machine, Option<Outcome>) {
    match fetch_summon(env, m, next, 4) {
        Err(f) => stop(m, f),
        Ok((name, place, collide, ai, args, end)) => (
            Machine {
                commands: m.commands.push(
                    Command::SummonBullet {
                        name,
                        x: place[0],
                        y: place[1],
                        z: place[2],
                        angle: place[3],
                        collide,
                        ai,
                        args,
                    },
                ),
                pointer: end,
                ..m
            },
            None,
        ),
    }
}

/// Opcode 20: the top of the calculation stack leaves it for the
/// destination operand.
pub open spec fn op_store(env: Env, m: Machine, next: usize) -> (Machine, Option<Outcome>) {
    if m.calc.len() == 0 {
        stop(m, fault(FaultKind::StackUnderflow, m.pointer as int))
    } else {
        match store_value(env.code, m, next, m.calc.last()) {
            Err(f) => stop(m, f),
            Ok(stored) => (Machine { calc: m.calc.drop_last(), ..stored }, None),
        }
    }
}

/// Opcodes 21 to 23: the run stops and asks for the arithmetic on the top
/// two values of the calculation stack.
pub open spec fn op_arithmetic(m: Machine, next: usize, op: ArithOp) -> (Machine, Option<Outcome>) {
    if m.calc.len() < 2 {
        stop(m, fault(FaultKind::StackUnderflow, m.pointer as int))
    } else {
        (
            Machine { pointer: next, ..m },
            Some(Outcome::Arithmetic(op, m.calc[m.calc.len() - 2], m.calc.last())),
        )
    }
}

/// One turn of the fetch-decode-execute loop: the machine after it, and the
/// reason for which the run stops there, if it does.
#[verifier::opaque]
pub open spec fn step(env: Env, m: Machine) -> (Machine, Option<Outcome>) {
    if m.pointer >= env.code.len() {
        (m.reset(), Some(Outcome::Finished))
    } else {
        let opcode = env.code[m.pointer as int];
        let next = (m.pointer + 1) as usize;
        if opcode == 0 {
            op_repeat(m)
        } else if opcode == 1 {
            op_mark(m, next)
        } else if opcode == 2 {
            (Machine { pointer: next, ..m }, Some(Outcome::Yielded))
        } else if opcode == 3 {
            op_push(env, m, next)
        } else if opcode == 4 {
            (Machine { pointer: next, ..m }, None)
        } else if opcode == 5 {
            op_leave(env, m, next)
        } else if opcode == 10 {
            op_move_up(env, m, next)
        } else if opcode == 11 {
            op_summon_enemy(env, m, next)
        } else if opcode == 12 {
            op_summon_bullet(env, m, next)
        } else if opcode == 20 {
            op_store(env, m, next)
        } else if opcode == 21 {
            op_arithmetic(m, next, ArithOp::Add)
        } else if opcode == 22 {
            op_arithmetic(m, next, ArithOp::Sub)
        } else if opcode == 23 {
            op_arithmetic(m, next, ArithOp::Mul)
        } else {
            stop(m, fault(FaultKind::UnknownOpcode(opcode), m.pointer as int))
        }
    }
}

/// A run of at most `fuel` steps: the machine after it, and the reason for
/// which it stopped.
pub open spec fn run(env: Env, m: Machine, fuel: nat) -> (Machine, Outcome)
    decreases fuel,
{
    if fuel == 0 {
        (m, Outcome::OutOfFuel)
    } else {
        match step(env, m) {
            (after, Some(outcome)) => (after, outcome),
            (after, None) => run(env, after, (fuel - 1) as nat),
        }
    }
}

} // verus!
