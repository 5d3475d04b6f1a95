//! A script bound to one entity.

use crate::game::{commands_view, ScriptGameData, TempGameContext};
use crate::laws::lemma_run_keeps_sizes;
use crate::model::{run, Machine};
use crate::outcome::{Fault, FaultKind, Outcome};
use crate::registry::{FunctionDesc, ScriptDesc};
use crate::runner::{
    context_of, env_of, fresh_context, machine_of, ContextState, FunctionContext, FunctionRunner,
};
use vstd::hash_map::StringHashMap;
use vstd::prelude::*;

verus! {

/// One instance of a script: the script, the instance's data array and the
/// state of each of its functions that has run.
///
/// A function's context is made when the function first runs.  The function
/// named `tick` has a context of its own for the run of every frame, made
/// with the instance.
pub struct ScriptContext<'a> {
    /// The script.
    desc: &'a ScriptDesc,
    /// The data array.
    data: Vec<u32>,
    /// Where in `function_context` the context of a function stands.
    function_slot: StringHashMap<usize>,
    /// The contexts of the functions that have run.
    function_context: Vec<FunctionContext>,
    /// The context for the run of every frame.
    tick_function: Option<FunctionContext>,
}

/// A script instance as a mathematical value.
#[verifier::ext_equal]
pub struct ScriptState {
    /// The script.
    pub desc: ScriptDesc,
    /// The data array.
    pub data: Seq<u32>,
    /// The context of each function that has run, by the function's name.
    pub contexts: Map<Seq<char>, ContextState>,
    /// The context for the run of every frame.
    pub tick: Option<ContextState>,
}

impl<'a> View for ScriptContext<'a> {
    type V = ScriptState;

    closed spec fn view(&self) -> ScriptState {
        ScriptState {
            desc: *self.desc,
            data: self.data@,
            contexts: Map::new(
                |name: Seq<char>| self.function_slot@.contains_key(name),
                |name: Seq<char>| self.function_context@[self.function_slot@[name] as int]@,
            ),
            tick: match self.tick_function {
                Some(context) => Some(context@),
                None => None,
            },
        }
    }
}

/// What a call of a function from a context does: the machine after the
/// run, and why the run stopped.
pub open spec fn invoked(
    function: FunctionDesc,
    context: ContextState,
    data: Seq<u32>,
    game: ScriptGameData,
    temp: TempGameContext,
    fuel: nat,
) -> (Machine, Outcome) {
    run(env_of(function, game), machine_of(context, data, game, temp), fuel)
}

/// The shared state and the caller's loan are what a run left of them.
pub open spec fn handed_back(
    after: Machine,
    before: ScriptGameData,
    game: ScriptGameData,
    temp: TempGameContext,
) -> bool {
    &&& game.calc_stack@ == after.calc
    &&& commands_view(game.submit_command@) == after.commands
    &&& game.player_tran == after.player
    &&& game.script_manager == before.script_manager
    &&& temp.tran == after.caller
}

/// The fault of a call that names no function of the script.
pub open spec fn missing_function() -> Outcome {
    Outcome::Fault(Fault { kind: FaultKind::MissingFunction, offset: 0 })
}

impl<'a> ScriptContext<'a> {
    /// Each name has a slot of its own.
    pub closed spec fn slots_wf(&self) -> bool {
        &&& forall|name: Seq<char>| #[trigger]
            self.function_slot@.contains_key(name) ==> self.function_slot@[name]
                < self.function_context@.len()
        &&& forall|a: Seq<char>, b: Seq<char>|
            #![trigger self.function_slot@[a], self.function_slot@[b]]
            self.function_slot@.contains_key(a) && self.function_slot@.contains_key(b)
                && self.function_slot@[a] == self.function_slot@[b] ==> a == b
    }

    /// The instance is well formed: every context belongs to a function of
    /// the script and has as many local slots as that function declares,
    /// and the context for the run of every frame is there exactly if the
    /// script has a function named `tick`.
    pub open spec fn wf(&self) -> bool {
        &&& self.slots_wf()
        &&& forall|name: Seq<char>| #[trigger]
            self@.contexts.contains_key(name) ==> self@.desc.functions@.contains_key(name)
                && self@.contexts[name].locals.len() == self@.desc.functions@[name].max_stack
        &&& self@.tick is Some <==> self@.desc.functions@.contains_key("tick"@)
        &&& self@.tick matches Some(context) ==> context.locals.len()
            == self@.desc.functions@["tick"@].max_stack
    }

    /// Binds a script to its arguments.
    pub fn new(desc: &'a ScriptDesc, args: Vec<u32>) -> (script: Self)
        ensures
            script.wf(),
            script@.desc == *desc,
            script@.data == args@,
            script@.contexts == Map::<Seq<char>, ContextState>::empty(),
            script@.tick == (if desc.functions@.contains_key("tick"@) {
                Some(fresh_context(desc.functions@["tick"@].max_stack as nat))
            } else {
                None
            }),
    {
        let tick_function = match desc.functions.get("tick") {
            Some(function) => Some(FunctionContext::new(function.max_stack as usize)),
            None => None,
        };
        let script = ScriptContext {
            desc,
            data: args,
            function_slot: StringHashMap::new(),
            function_context: Vec::new(),
            tick_function,
        };
        assert(script@.contexts =~= Map::<Seq<char>, ContextState>::empty());
        script
    }

    /// The script.
    pub fn desc(&self) -> (desc: &'a ScriptDesc)
        ensures
            *desc == self@.desc,
    {
        self.desc
    }

    /// The data array.
    pub fn data(&self) -> (data: &Vec<u32>)
        ensures
            data@ == self@.data,
    {
        &self.data
    }

    /// The context of a function, if the function has run.
    pub fn context(&self, name: &String) -> (context: Option<&FunctionContext>)
        requires
            self.wf(),
        ensures
            match context {
                Some(c) => self@.contexts.contains_key(name@) && c@ == self@.contexts[name@],
                None => !self@.contexts.contains_key(name@),
            },
    {
        match self.function_slot.get(name.as_str()) {
            Some(slot) => Some(&self.function_context[*slot]),
            None => None,
        }
    }

    /// The context for the run of every frame, if the script has a
    /// function named `tick`.
    pub fn tick_context(&self) -> (context: Option<&FunctionContext>)
        ensures
            match context {
                Some(c) => self@.tick == Some(c@),
                None => self@.tick is None,
            },
    {
        self.tick_function.as_ref()
    }

    /// Runs the function of a name for at most `fuel` steps, from where its
    /// last run stopped; a function that has not run starts with a fresh
    /// context.  A name that the script does not have is a fault, and
    /// changes nothing.
    pub fn execute_function(
        &mut self,
        name: &String,
        game_data: &mut ScriptGameData,
        temp: &mut TempGameContext,
        fuel: u64,
    ) -> (outcome: Outcome)
        requires
            old(self).wf(),
        ensures
            final(self).wf(),
            final(self)@.desc == old(self)@.desc,
            final(self)@.tick == old(self)@.tick,
            !old(self)@.desc.functions@.contains_key(name@) ==> {
                &&& outcome == missing_function()
                &&& final(self)@ == old(self)@
                &&& *final(game_data) == *old(game_data)
                &&& *final(temp) == *old(temp)
            },
            old(self)@.desc.functions@.contains_key(name@) ==> {
                let function = old(self)@.desc.functions@[name@];
                let before = if old(self)@.contexts.contains_key(name@) {
                    old(self)@.contexts[name@]
                } else {
                    fresh_context(function.max_stack as nat)
                };
                let (after, stop) = invoked(
                    function,
                    before,
                    old(self)@.data,
                    *old(game_data),
                    *old(temp),
                    fuel as nat,
                );
                &&& outcome == stop
                &&& final(self)@.data == after.data
                &&& final(self)@.contexts == old(self)@.contexts.insert(name@, context_of(after))
                &&& handed_back(after, *old(game_data), *final(game_data), *final(temp))
            },
    {
        let desc: &'a ScriptDesc = self.desc;
        match desc.functions.get(name.as_str()) {
            None => Outcome::Fault(Fault { kind: FaultKind::MissingFunction, offset: 0 }),
            Some(function) => {
                let slot: usize = match self.function_slot.get(name.as_str()) {
                    Some(slot) => *slot,
                    None => {
                        let slot = self.function_context.len();
                        self.function_context.push(FunctionContext::new(function.max_stack as usize));
                        self.function_slot.insert(name.clone(), slot);
                        slot
                    },
                };
                let ghost before = self.function_context@[slot as int]@;
                let ghost rest = self.function_context@;
                let ghost env0 = env_of(*function, *game_data);
                let ghost m0 = machine_of(before, self.data@, *game_data, *temp);
                proof {
                    lemma_run_keeps_sizes(env0, m0, fuel as nat);
                }
                let mut runner = FunctionRunner {
                    data: &mut self.data,
                    desc: function,
                    game: game_data,
                    context: &mut self.function_context[slot],
                    temp,
                };
                let outcome = runner.execute(fuel);
                assert(self.function_context@ =~= rest.update(
                    slot as int,
                    self.function_context@[slot as int],
                ));
                assert(self@.contexts =~= old(self)@.contexts.insert(
                    name@,
                    self.function_context@[slot as int]@,
                ));
                outcome
            },
        }
    }

    /// Runs the function named `tick` for at most `fuel` steps, from where
    /// its last run of this kind stopped.  Where the script has no such
    /// function this is a fault, and changes nothing.
    pub fn tick_function(
        &mut self,
        game_data: &mut ScriptGameData,
        temp: &mut TempGameContext,
        fuel: u64,
    ) -> (outcome: Outcome)
        requires
            old(self).wf(),
        ensures
            final(self).wf(),
            final(self)@.desc == old(self)@.desc,
            final(self)@.contexts == old(self)@.contexts,
            old(self)@.tick is None ==> {
                &&& outcome == missing_function()
                &&& final(self)@ == old(self)@
                &&& *final(game_data) == *old(game_data)
                &&& *final(temp) == *old(temp)
            },
            old(self)@.tick matches Some(before) ==> {
                let (after, stop) = invoked(
                    old(self)@.desc.functions@["tick"@],
                    before,
                    old(self)@.data,
                    *old(game_data),
                    *old(temp),
                    fuel as nat,
                );
                &&& outcome == stop
                &&& final(self)@.data == after.data
                &&& final(self)@.tick == Some(context_of(after))
                &&& handed_back(after, *old(game_data), *final(game_data), *final(temp))
            },
    {
        let desc: &'a ScriptDesc = self.desc;
        match desc.functions.get("tick") {
            None => Outcome::Fault(Fault { kind: FaultKind::MissingFunction, offset: 0 }),
            Some(function) => match &mut self.tick_function {
                None => Outcome::Fault(Fault { kind: FaultKind::MissingFunction, offset: 0 }),
                Some(context) => {
                    let ghost env0 = env_of(*function, *game_data);
                    let ghost m0 = machine_of(context@, self.data@, *game_data, *temp);
                    proof {
                        lemma_run_keeps_sizes(env0, m0, fuel as nat);
                    }
                    let mut runner = FunctionRunner {
                        data: &mut self.data,
                        desc: function,
                        game: game_data,
                        context,
                        temp,
                    };
                    let outcome = runner.execute(fuel);
                    assert(self@.contexts =~= old(self)@.contexts);
                    outcome
                },
            },
        }
    }
}

} // verus!
