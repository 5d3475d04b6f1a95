//! The interpreter.

use crate::game::{
    commands_view, CollideType, ScriptGameCommand, ScriptGameData, TempGameContext, Translation,
};
use crate::model::{
    fetch_collide, fetch_name, fetch_script, fetch_summon, fetch_value, fetch_values, field,
    first_beyond, leave_loops, op_arithmetic, op_store, run, step, store_value, with_coordinate,
    Env, Machine,
};
use crate::outcome::{ArithOp, Fault, FaultKind, Outcome};
use crate::registry::FunctionDesc;
use crate::word::{exit_count, word_from_be};
use vstd::prelude::*;
use vstd::slice::{slice_subrange, slice_to_vec};
use vstd::utf8::{decode_utf8, valid_utf8};

verus! {

/// The state of one function of one script instance, kept between runs.
#[derive(Debug)]
pub struct FunctionContext {
    /// The local slots; as many as the function declares, for good.
    pub var_stack: Vec<u32>,
    /// The offsets at which the open loops start, innermost last.
    pub loop_start: Vec<usize>,
    /// The offset of the next instruction.
    pub pointer: usize,
}

/// A context as a mathematical value.
#[verifier::ext_equal]
pub struct ContextState {
    pub locals: Seq<u32>,
    pub loops: Seq<usize>,
    pub pointer: usize,
}

impl View for FunctionContext {
    type V = ContextState;

    open spec fn view(&self) -> ContextState {
        ContextState { locals: self.var_stack@, loops: self.loop_start@, pointer: self.pointer }
    }
}

/// The context of a function that has not run yet: `max_stack` local slots
/// that hold zero, no open loop, and the instruction pointer at the start.
pub open spec fn fresh_context(max_stack: nat) -> ContextState {
    ContextState { locals: Seq::new(max_stack, |i: int| 0u32), loops: Seq::empty(), pointer: 0 }
}

/// The machine that a function runs on: its own context, its script's data
/// array, the shared state and what the caller lends.
pub open spec fn machine_of(
    context: ContextState,
    data: Seq<u32>,
    game: ScriptGameData,
    temp: TempGameContext,
) -> Machine {
    Machine {
        pointer: context.pointer,
        loops: context.loops,
        locals: context.locals,
        data,
        calc: game.calc_stack@,
        commands: commands_view(game.submit_command@),
        caller: temp.tran,
        player: game.player_tran,
    }
}

/// What a function reads when it runs.
pub open spec fn env_of(function: FunctionDesc, game: ScriptGameData) -> Env {
    Env {
        code: function.code@,
        exits: function.loop_exit@,
        scripts: match game.script_manager {
            Some(manager) => Some(manager.counts()),
            None => None,
        },
    }
}

/// The context that a machine leaves behind.
pub open spec fn context_of(m: Machine) -> ContextState {
    ContextState { locals: m.locals, loops: m.loops, pointer: m.pointer }
}

impl FunctionContext {
    /// A context at the start of its function, with `max_stack` local slots
    /// that hold zero.
    pub fn new(max_stack: usize) -> (context: Self)
        ensures
            context@ == fresh_context(max_stack as nat),
    {
        let mut var_stack: Vec<u32> = Vec::new();
        while var_stack.len() < max_stack
            invariant
                var_stack.len() <= max_stack,
                forall|i: int| 0 <= i < var_stack.len() ==> var_stack[i] == 0,
            decreases max_stack - var_stack.len(),
        {
            var_stack.push(0);
        }
        assert(var_stack@ =~= fresh_context(max_stack as nat).locals);
        FunctionContext { var_stack, loop_start: Vec::with_capacity(2), pointer: 0 }
    }

    /// Closes every loop and goes back to the start.  The local slots keep
    /// their values.
    pub fn reset(&mut self)
        ensures
            final(self)@ == (ContextState { loops: Seq::empty(), pointer: 0, ..old(self)@ }),
    {
        self.loop_start.clear();
        self.pointer = 0;
    }
}

/// Decodes bytes as UTF-8 text by `String::from_utf8`: the text is there
/// exactly when the bytes are valid UTF-8, and it is what they decode to.
#[verifier::external_body]
fn string_from_utf8(bytes: Vec<u8>) -> (text: Option<String>)
    ensures
        text is Some <==> valid_utf8(bytes@),
        text matches Some(s) ==> s@ == decode_utf8(bytes@),
{
    match String::from_utf8(bytes) {
        Ok(text) => Some(text),
        Err(_) => None,
    }
}

/// One function of a script, bound to the registers that it runs on.
pub struct FunctionRunner<'a, 'b> {
    /// The script's data array.
    pub data: &'a mut Vec<u32>,
    /// The function.
    pub desc: &'a FunctionDesc,
    /// The state shared with the simulation.
    pub game: &'a mut ScriptGameData<'b>,
    /// The function's own state.
    pub context: &'a mut FunctionContext,
    /// What the caller lends to this run.
    pub temp: &'a mut TempGameContext,
}

impl<'a, 'b> FunctionRunner<'a, 'b> {
    /// What this runner can change.
    pub open spec fn machine(&self) -> Machine {
        machine_of(self.context@, self.data@, *self.game, *self.temp)
    }

    /// What this runner reads.
    pub open spec fn env(&self) -> Env {
        env_of(*self.desc, *self.game)
    }

    /// Reads the engine field of an index.
    pub fn get_field(&self, index: u8) -> (r: Result<u32, FaultKind>)
        ensures
            r == field(self.machine(), index),
    {
        if index < 3 {
            match self.temp.tran {
                Some(t) => Ok(
                    if index == 0 {
                        t.x
                    } else if index == 1 {
                        t.y
                    } else {
                        t.z
                    },
                ),
                None => Err(FaultKind::NoCallerPosition),
            }
        } else if index < 6 {
            match self.game.player_tran {
                Some(t) => Ok(
                    if index == 3 {
                        t.x
                    } else if index == 4 {
                        t.y
                    } else {
                        t.z
                    },
                ),
                None => Err(FaultKind::NoPlayerPosition),
            }
        } else {
            Err(FaultKind::UnknownField(index))
        }
    }

    /// Reads the value operand at `at`; returns it with the offset behind it.
    pub fn get_f32(&self, at: usize) -> (r: Result<(u32, usize), Fault>)
        ensures
            r == fetch_value(self.env().code, self.machine(), at),
    {
        let len = self.desc.code.len();
        if at >= len {
            return Err(Fault { kind: FaultKind::Truncated, offset: at });
        }
        let tag = self.desc.code[at];
        if tag == 0 {
            if len - at < 5 {
                Err(Fault { kind: FaultKind::Truncated, offset: at })
            } else {
                let bits = word_from_be(
                    self.desc.code[at + 1],
                    self.desc.code[at + 2],
                    self.desc.code[at + 3],
                    self.desc.code[at + 4],
                );
                Ok((bits, at + 5))
            }
        } else if tag <= 3 {
            if len - at < 2 {
                Err(Fault { kind: FaultKind::Truncated, offset: at })
            } else {
                let index = self.desc.code[at + 1];
                if tag == 1 {
                    match self.get_field(index) {
                        Ok(v) => Ok((v, at + 2)),
                        Err(kind) => Err(Fault { kind, offset: at + 1 }),
                    }
                } else if tag == 2 {
                    if (index as usize) < self.data.len() {
                        Ok((self.data[index as usize], at + 2))
                    } else {
                        Err(Fault { kind: FaultKind::DataIndex(index), offset: at + 1 })
                    }
                } else {
                    if (index as usize) < self.context.var_stack.len() {
                        Ok((self.context.var_stack[index as usize], at + 2))
                    } else {
                        Err(Fault { kind: FaultKind::LocalIndex(index), offset: at + 1 })
                    }
                }
            }
        } else {
            Err(Fault { kind: FaultKind::UnknownSource(tag), offset: at })
        }
    }

    /// Reads `count` value operands from `at` on; returns them with the
    /// offset behind them.
    pub fn get_values(&self, at: usize, count: usize) -> (r: Result<(Vec<u32>, usize), Fault>)
        ensures
            match r {
                Ok((values, next)) => fetch_values(self.env().code, self.machine(), at, count as nat)
                    == Ok::<(Seq<u32>, usize), Fault>((values@, next)),
                Err(f) => fetch_values(self.env().code, self.machine(), at, count as nat) == Err::<
                    (Seq<u32>, usize),
                    Fault,
                >(f),
            },
    {
        let mut values: Vec<u32> = Vec::new();
        let mut cursor: usize = at;
        let mut done: usize = 0;
        while done < count
            invariant
                done <= count,
                fetch_values(self.env().code, self.machine(), at, done as nat) == Ok::<
                    (Seq<u32>, usize),
                    Fault,
                >((values@, cursor)),
            decreases count - done,
        {
            match self.get_f32(cursor) {
                Ok((v, next)) => {
                    values.push(v);
                    cursor = next;
                    done = done + 1;
                },
                Err(f) => {
                    proof {
                        lemma_fetch_values_fault(
                            self.env().code,
                            self.machine(),
                            at,
                            (done + 1) as nat,
                            count as nat,
                        );
                    }
                    return Err(f);
                },
            }
        }
        Ok((values, cursor))
    }

    /// Reads the name at `at`; returns it with the offset behind it.
    pub fn get_str(&self, at: usize) -> (r: Result<(String, usize), Fault>)
        ensures
            match r {
                Ok((name, next)) => fetch_name(self.env().code, at) == Ok::<(Seq<char>, usize), Fault>(
                    (name@, next),
                ),
                Err(f) => fetch_name(self.env().code, at) == Err::<(Seq<char>, usize), Fault>(f),
            },
    {
        let len = self.desc.code.len();
        if at > len || len - at < 2 {
            return Err(Fault { kind: FaultKind::Truncated, offset: at });
        }
        let length: usize = (self.desc.code[at] as usize) * 0x100 + (self.desc.code[at + 1] as usize);
        if len - at - 2 < length {
            return Err(Fault { kind: FaultKind::Truncated, offset: at });
        }
        let bytes = slice_to_vec(slice_subrange(self.desc.code.as_slice(), at + 2, at + 2 + length));
        match string_from_utf8(bytes) {
            Some(name) => Ok((name, at + 2 + length)),
            None => Err(Fault { kind: FaultKind::InvalidName, offset: at }),
        }
    }

    /// Reads the collision shape at `at`; returns it with the offset behind
    /// it.
    pub fn get_collide(&self, at: usize) -> (r: Result<(CollideType, usize), Fault>)
        ensures
            r == fetch_collide(self.env().code, self.machine(), at),
    {
        if at >= self.desc.code.len() {
            return Err(Fault { kind: FaultKind::Truncated, offset: at });
        }
        let tag = self.desc.code[at];
        match CollideType::get_arg_count(tag) {
            None => Err(Fault { kind: FaultKind::UnknownCollision(tag), offset: at }),
            Some(arity) => match self.get_values(at + 1, arity) {
                Err(f) => Err(f),
                Ok((args, next)) => match CollideType::from_parts(tag, &args) {
                    Some(shape) => Ok((shape, next)),
                    None => {
                        proof {
                            lemma_fetch_values_len(
                                self.env().code,
                                self.machine(),
                                (at + 1) as usize,
                                arity as nat,
                            );
                        }
                        Err(Fault { kind: FaultKind::UnknownCollision(tag), offset: at })
                    },
                },
            },
        }
    }

    /// Reads, at `at`, the script that drives a spawned entity: its name and
    /// its arguments; returns them with the offset behind them.
    pub fn get_script(&self, at: usize) -> (r: Result<(String, Vec<u32>, usize), Fault>)
        ensures
            match r {
                Ok((ai, args, next)) => fetch_script(self.env(), self.machine(), at) == Ok::<
                    (Seq<char>, Seq<u32>, usize),
                    Fault,
                >((ai@, args@, next)),
                Err(f) => fetch_script(self.env(), self.machine(), at) == Err::<
                    (Seq<char>, Seq<u32>, usize),
                    Fault,
                >(f),
            },
    {
        match self.get_str(at) {
            Err(f) => Err(f),
            Ok((ai, next)) => match self.game.script_manager {
                None => Err(Fault { kind: FaultKind::NoRegistry, offset: at }),
                Some(manager) => match manager.get_script_data_count(&ai) {
                    None => Err(Fault { kind: FaultKind::UnknownScript, offset: at }),
                    Some(count) => match self.get_values(next, count as usize) {
                        Err(f) => Err(f),
                        Ok((args, end)) => Ok((ai, args, end)),
                    },
                },
            },
        }
    }

    /// Reads the operands of a summon from `at` on: the entity's name,
    /// `placement` values, its collision shape and the script that drives
    /// it; returns them with the offset behind them.
    pub fn get_summon(&self, at: usize, placement: usize) -> (r: Result<
        (String, Vec<u32>, CollideType, String, Vec<u32>, usize),
        Fault,
    >)
        ensures
            match r {
                Ok((name, place, collide, ai, args, next)) => fetch_summon(
                    self.env(),
                    self.machine(),
                    at,
                    placement as nat,
                ) == Ok::<(Seq<char>, Seq<u32>, CollideType, Seq<char>, Seq<u32>, usize), Fault>(
                    (name@, place@, collide, ai@, args@, next),
                ),
                Err(f) => fetch_summon(self.env(), self.machine(), at, placement as nat) == Err::<
                    (Seq<char>, Seq<u32>, CollideType, Seq<char>, Seq<u32>, usize),
                    Fault,
                >(f),
            },
            r matches Ok((_, place, _, _, _, _)) ==> place@.len() == placement,
    {
        match self.get_str(at) {
            Err(f) => Err(f),
            Ok((name, a1)) => match self.get_values(a1, placement) {
                Err(f) => Err(f),
                Ok((place, a2)) => match self.get_collide(a2) {
                    Err(f) => Err(f),
                    Ok((collide, a3)) => match self.get_script(a3) {
                        Err(f) => Err(f),
                        Ok((ai, args, end)) => {
                            proof {
                                lemma_fetch_values_len(
                                    self.env().code,
                                    self.machine(),
                                    a1,
                                    placement as nat,
                                );
                            }
                            Ok((name, place, collide, ai, args, end))
                        },
                    },
                },
            },
        }
    }

    /// Writes `value` to the destination operand at `at` and moves the
    /// instruction pointer behind the operand.  A fault changes nothing.
    pub fn store_f32(&mut self, at: usize, value: u32) -> (r: Result<(), Fault>)
        ensures
            match store_value(old(self).env().code, old(self).machine(), at, value) {
                Ok(after) => r is Ok && final(self).machine() == after,
                Err(f) => r == Err::<(), Fault>(f) && final(self).machine() == old(self).machine(),
            },
            final(self).game.script_manager == old(self).game.script_manager,
            final(self).desc == old(self).desc,
            *final(final(self).data) == *final(old(self).data),
            *final(final(self).game) == *final(old(self).game),
            *final(final(self).context) == *final(old(self).context),
            *final(final(self).temp) == *final(old(self).temp),
    {
        let len = self.desc.code.len();
        if at > len || len - at < 2 {
            return Err(Fault { kind: FaultKind::Truncated, offset: at });
        }
        let tag = self.desc.code[at];
        let index = self.desc.code[at + 1];
        if tag == 1 {
            if index < 3 {
                match self.temp.tran {
                    Some(t) => {
                        self.temp.tran = Some(with_axis(t, index, value));
                    },
                    None => {
                        return Err(Fault { kind: FaultKind::NoCallerPosition, offset: at + 1 });
                    },
                }
            } else if index < 6 {
                match self.game.player_tran {
                    Some(t) => {
                        self.game.player_tran = Some(with_axis(t, index - 3, value));
                    },
                    None => {
                        return Err(Fault { kind: FaultKind::NoPlayerPosition, offset: at + 1 });
                    },
                }
            } else {
                return Err(Fault { kind: FaultKind::UnknownField(index), offset: at + 1 });
            }
        } else if tag == 2 {
            if (index as usize) < self.data.len() {
                self.data[index as usize] = value;
            } else {
                return Err(Fault { kind: FaultKind::DataIndex(index), offset: at + 1 });
            }
        } else if tag == 3 {
            if (index as usize) < self.context.var_stack.len() {
                self.context.var_stack[index as usize] = value;
            } else {
                return Err(Fault { kind: FaultKind::LocalIndex(index), offset: at + 1 });
            }
        } else {
            return Err(Fault { kind: FaultKind::UnknownDestination(tag), offset: at });
        }
        self.context.pointer = at + 2;
        Ok(())
    }

    /// The first loop exit beyond the instruction pointer; the instruction
    /// pointer itself where there is none.
    pub fn next_exit(&self) -> (target: usize)
        ensures
            target == first_beyond(self.env().exits, self.machine().pointer, 0),
    {
        let pointer = self.context.pointer;
        let mut i: usize = 0;
        while i < self.desc.loop_exit.len()
            invariant
                i <= self.desc.loop_exit.len(),
                pointer == self.context.pointer,
                first_beyond(self.desc.loop_exit@, pointer, i as int) == first_beyond(
                    self.desc.loop_exit@,
                    pointer,
                    0,
                ),
            decreases self.desc.loop_exit.len() - i,
        {
            if self.desc.loop_exit[i] > pointer {
                return self.desc.loop_exit[i];
            }
            i = i + 1;
        }
        pointer
    }

    /// Leaves up to `count` loops.
    pub fn leave(&mut self, count: u32)
        ensures
            final(self).machine() == leave_loops(
                old(self).env().exits,
                old(self).machine(),
                count as nat,
            ),
            final(self).game.script_manager == old(self).game.script_manager,
            final(self).desc == old(self).desc,
            *final(final(self).data) == *final(old(self).data),
            *final(final(self).game) == *final(old(self).game),
            *final(final(self).context) == *final(old(self).context),
            *final(final(self).temp) == *final(old(self).temp),
    {
        let mut left: u32 = count;
        while left > 0 && self.context.loop_start.len() > 0
            invariant
                leave_loops(self.env().exits, self.machine(), left as nat) == leave_loops(
                    old(self).env().exits,
                    old(self).machine(),
                    count as nat,
                ),
                self.game.script_manager == old(self).game.script_manager,
                self.desc == old(self).desc,
                *final(self.data) == *final(old(self).data),
                *final(self.game) == *final(old(self).game),
                *final(self.context) == *final(old(self).context),
                *final(self.temp) == *final(old(self).temp),
            decreases left,
        {
            let target = self.next_exit();
            self.context.loop_start.pop();
            self.context.pointer = target;
            left = left - 1;
        }
    }

    /// Queues a command and moves the instruction pointer to `end`.
    pub fn submit(&mut self, command: ScriptGameCommand, end: usize)
        ensures
            final(self).machine() == (Machine {
                commands: old(self).machine().commands.push(command@),
                pointer: end,
                ..old(self).machine()
            }),
            final(self).game.script_manager == old(self).game.script_manager,
            final(self).desc == old(self).desc,
            *final(final(self).data) == *final(old(self).data),
            *final(final(self).game) == *final(old(self).game),
            *final(final(self).context) == *final(old(self).context),
            *final(final(self).temp) == *final(old(self).temp),
    {
        self.game.submit_command.push(command);
        self.context.pointer = end;
        assert(commands_view(self.game.submit_command@) =~= commands_view(
            old(self).game.submit_command@,
        ).push(command@));
    }

    /// Stops for the arithmetic `op` on the top two values of the
    /// calculation stack, with the instruction pointer at `next`.
    pub fn arithmetic(&mut self, next: usize, op: ArithOp) -> (stop: Outcome)
        ensures
            (final(self).machine(), Some(stop)) == op_arithmetic(old(self).machine(), next, op),
            final(self).game.script_manager == old(self).game.script_manager,
            final(self).desc == old(self).desc,
            *final(final(self).data) == *final(old(self).data),
            *final(final(self).game) == *final(old(self).game),
            *final(final(self).context) == *final(old(self).context),
            *final(final(self).temp) == *final(old(self).temp),
    {
        let depth = self.game.calc_stack.len();
        if depth < 2 {
            Outcome::Fault(Fault { kind: FaultKind::StackUnderflow, offset: self.context.pointer })
        } else {
            self.context.pointer = next;
            Outcome::Arithmetic(op, self.game.calc_stack[depth - 2], self.game.calc_stack[depth - 1])
        }
    }

    /// Takes the top of the calculation stack to the destination operand at
    /// `next`.
    pub fn store(&mut self, next: usize) -> (stop: Option<Outcome>)
        ensures
            (final(self).machine(), stop) == op_store(old(self).env(), old(self).machine(), next),
            final(self).game.script_manager == old(self).game.script_manager,
            final(self).desc == old(self).desc,
            *final(final(self).data) == *final(old(self).data),
            *final(final(self).game) == *final(old(self).game),
            *final(final(self).context) == *final(old(self).context),
            *final(final(self).temp) == *final(old(self).temp),
    {
        let depth = self.game.calc_stack.len();
        if depth == 0 {
            return Some(
                Outcome::Fault(
                    Fault { kind: FaultKind::StackUnderflow, offset: self.context.pointer },
                ),
            );
        }
        let value = self.game.calc_stack[depth - 1];
        match self.store_f32(next, value) {
            Err(f) => Some(Outcome::Fault(f)),
            Ok(()) => {
                self.game.calc_stack.pop();
                None
            },
        }
    }

    /// Takes one turn of the fetch-decode-execute loop.  Returns why the run
    /// stops here, if it does.
    pub fn step(&mut self) -> (stop: Option<Outcome>)
        ensures
            (final(self).machine(), stop) == step(old(self).env(), old(self).machine()),
            final(self).game.script_manager == old(self).game.script_manager,
            final(self).desc == old(self).desc,
            *final(final(self).data) == *final(old(self).data),
            *final(final(self).game) == *final(old(self).game),
            *final(final(self).context) == *final(old(self).context),
            *final(final(self).temp) == *final(old(self).temp),
    {
        proof {
            reveal(step);
        }
        let pointer = self.context.pointer;
        if pointer >= self.desc.code.len() {
            self.context.reset();
            return Some(Outcome::Finished);
        }
        let opcode = self.desc.code[pointer];
        let next = pointer + 1;
        match opcode {
            0 => {
                let depth = self.context.loop_start.len();
                if depth > 0 {
                    self.context.pointer = self.context.loop_start[depth - 1];
                    None
                } else {
                    self.context.reset();
                    Some(Outcome::Finished)
                }
            },
            1 => {
                self.context.loop_start.push(next);
                self.context.pointer = next;
                None
            },
            2 => {
                self.context.pointer = next;
                Some(Outcome::Yielded)
            },
            3 => match self.get_f32(next) {
                Err(f) => Some(Outcome::Fault(f)),
                Ok((v, end)) => {
                    self.game.calc_stack.push(v);
                    self.context.pointer = end;
                    None
                },
            },
            4 => {
                self.context.pointer = next;
                None
            },
            5 => match self.get_f32(next) {
                Err(f) => Some(Outcome::Fault(f)),
                Ok((times, end)) => {
                    self.context.pointer = end;
                    self.leave(exit_count(times));
                    None
                },
            },
            10 => match self.get_f32(next) {
                Err(f) => Some(Outcome::Fault(f)),
                Ok((v, end)) => {
                    self.submit(ScriptGameCommand::MoveUp(v), end);
                    None
                },
            },
            11 => match self.get_summon(next, 3) {
                Err(f) => Some(Outcome::Fault(f)),
                Ok((name, place, collide, ai, args, end)) => {
                    let command = ScriptGameCommand::SummonEnemy(
                        name,
                        place[0],
                        place[1],
                        place[2],
                        collide,
                        ai,
                        args,
                    );
                    self.submit(command, end);
                    None
                },
            },
            12 => match self.get_summon(next, 4) {
                Err(f) => Some(Outcome::Fault(f)),
                Ok((name, place, collide, ai, args, end)) => {
                    let command = ScriptGameCommand::SummonBullet(
                        name,
                        place[0],
                        place[1],
                        place[2],
                        place[3],
                        collide,
                        ai,
                        args,
                    );
                    self.submit(command, end);
                    None
                },
            },
            20 => self.store(next),
            21 => Some(self.arithmetic(next, ArithOp::Add)),
            22 => Some(self.arithmetic(next, ArithOp::Sub)),
            23 => Some(self.arithmetic(next, ArithOp::Mul)),
            _ => Some(Outcome::Fault(Fault { kind: FaultKind::UnknownOpcode(opcode), offset: pointer })),
        }
    }

    /// Runs the function for at most `fuel` steps: until it yields, reaches
    /// its end, asks for arithmetic or faults.
    ///
    /// A run that ends as [`Outcome::Finished`] leaves the context reset.
    /// Every other run leaves it where the next run is to resume.
    pub fn execute(&mut self, fuel: u64) -> (outcome: Outcome)
        ensures
            (final(self).machine(), outcome) == run(
                old(self).env(),
                old(self).machine(),
                fuel as nat,
            ),
            final(self).game.script_manager == old(self).game.script_manager,
            final(self).desc == old(self).desc,
            *final(final(self).data) == *final(old(self).data),
            *final(final(self).game) == *final(old(self).game),
            *final(final(self).context) == *final(old(self).context),
            *final(final(self).temp) == *final(old(self).temp),
    {
        let mut left: u64 = fuel;
        while left > 0
            invariant
                run(self.env(), self.machine(), left as nat) == run(
                    old(self).env(),
                    old(self).machine(),
                    fuel as nat,
                ),
                self.game.script_manager == old(self).game.script_manager,
                self.desc == old(self).desc,
                *final(self.data) == *final(old(self).data),
                *final(self.game) == *final(old(self).game),
                *final(self.context) == *final(old(self).context),
                *final(self.temp) == *final(old(self).temp),
            decreases left,
        {
            match self.step() {
                Some(outcome) => {
                    return outcome;
                },
                None => {
                    left = left - 1;
                },
            }
        }
        Outcome::OutOfFuel
    }
}

/// A position with one coordinate replaced: x for axis 0, y for axis 1, z
/// otherwise.
pub fn with_axis(t: Translation, axis: u8, value: u32) -> (moved: Translation)
    ensures
        moved == with_coordinate(t, axis as int, value),
{
    if axis == 0 {
        Translation { x: value, y: t.y, z: t.z }
    } else if axis == 1 {
        Translation { x: t.x, y: value, z: t.z }
    } else {
        Translation { x: t.x, y: t.y, z: value }
    }
}

/// Once one of the operands faults, asking for more of them gives the same
/// fault.
pub proof fn lemma_fetch_values_fault(code: Seq<u8>, m: Machine, at: usize, few: nat, many: nat)
    requires
        few <= many,
        fetch_values(code, m, at, few) is Err,
    ensures
        fetch_values(code, m, at, many) == fetch_values(code, m, at, few),
    decreases many,
{
    if few < many {
        lemma_fetch_values_fault(code, m, at, few, (many - 1) as nat);
    }
}

/// As many values come back as were asked for.
pub proof fn lemma_fetch_values_len(code: Seq<u8>, m: Machine, at: usize, count: nat)
    ensures
        fetch_values(code, m, at, count) matches Ok((values, _)) ==> values.len() == count,
    decreases count,
{
    if count > 0 {
        lemma_fetch_values_len(code, m, at, (count - 1) as nat);
    }
}

} // verus!
