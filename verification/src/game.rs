//! The state that a run shares with the simulation around it.

use crate::registry::ScriptManager;
use vstd::prelude::*;

verus! {

/// Where an entity is.
#[derive(Clone, Copy, Debug, PartialEq, Eq, Structural)]
pub struct Translation {
    pub x: u32,
    pub y: u32,
    pub z: u32,
}

/// The tag byte of a circle.
pub const COLLIDE_CIRCLE: u8 = 10;

/// The shape by which an entity collides.
#[derive(Clone, Copy, Debug, PartialEq, Eq, Structural)]
pub enum CollideType {
    /// A circle, given by its radius.
    Circle(u32),
}

/// How many operands follow a collision tag, if the tag is known.
pub open spec fn collide_arity(tag: u8) -> Option<nat> {
    if tag == COLLIDE_CIRCLE {
        Some(1)
    } else {
        None
    }
}

/// The shape that a tag and its operands describe.
pub open spec fn collide_shape(tag: u8, args: Seq<u32>) -> Option<CollideType> {
    if tag == COLLIDE_CIRCLE && args.len() == 1 {
        Some(CollideType::Circle(args[0]))
    } else {
        None
    }
}

impl CollideType {
    /// The number of operands that follow `tag`, or `None` for a byte that
    /// is no collision tag.
    pub fn get_arg_count(tag: u8) -> (count: Option<usize>)
        ensures
            count == match collide_arity(tag) {
                Some(n) => Some(n as usize),
                None => None,
            },
    {
        if tag == COLLIDE_CIRCLE {
            Some(1)
        } else {
            None
        }
    }

    /// Builds the shape from its tag and operands: `None` for an unknown tag
    /// or a wrong number of operands.
    pub fn from_parts(tag: u8, args: &Vec<u32>) -> (shape: Option<CollideType>)
        ensures
            shape == collide_shape(tag, args@),
    {
        if tag == COLLIDE_CIRCLE && args.len() == 1 {
            Some(CollideType::Circle(args[0]))
        } else {
            None
        }
    }
}

/// An effect on the world that a script asks for.
#[derive(Debug, PartialEq, Eq)]
pub enum ScriptGameCommand {
    /// Move the calling entity up by a distance.
    MoveUp(u32),
    /// Spawn an enemy: its name, x, y, hit points, shape, the name of the
    /// script that drives it and that script's arguments.
    SummonEnemy(String, u32, u32, u32, CollideType, String, Vec<u32>),
    /// Spawn a bullet: its name, x, y, z, angle, shape, the name of the
    /// script that drives it and that script's arguments.
    SummonBullet(String, u32, u32, u32, u32, CollideType, String, Vec<u32>),
}

/// A command as a mathematical value.
#[verifier::ext_equal]
pub enum Command {
    MoveUp(u32),
    SummonEnemy {
        name: Seq<char>,
        x: u32,
        y: u32,
        hp: u32,
        collide: CollideType,
        ai: Seq<char>,
        args: Seq<u32>,
    },
    SummonBullet {
        name: Seq<char>,
        x: u32,
        y: u32,
        z: u32,
        angle: u32,
        collide: CollideType,
        ai: Seq<char>,
        args: Seq<u32>,
    },
}

impl View for ScriptGameCommand {
    type V = Command;

    open spec fn view(&self) -> Command {
        match *self {
            ScriptGameCommand::MoveUp(v) => Command::MoveUp(v),
            ScriptGameCommand::SummonEnemy(name, x, y, hp, collide, ai, args) => Command::SummonEnemy {
                name: name@,
                x,
                y,
                hp,
                collide,
                ai: ai@,
                args: args@,
            },
            ScriptGameCommand::SummonBullet(
                name,
                x,
                y,
                z,
                angle,
                collide,
                ai,
                args,
            ) => Command::SummonBullet { name: name@, x, y, z, angle, collide, ai: ai@, args: args@ },
        }
    }
}

/// The commands of a queue as mathematical values.
pub open spec fn commands_view(queue: Seq<ScriptGameCommand>) -> Seq<Command> {
    queue.map_values(|c: ScriptGameCommand| c@)
}

/// The simulation state that all scripts of a tick share.
pub struct ScriptGameData<'b> {
    /// The calculation stack, top last.
    pub calc_stack: Vec<u32>,
    /// The commands that scripts have queued, oldest first.
    pub submit_command: Vec<ScriptGameCommand>,
    /// Where the player is, if there is one.
    pub player_tran: Option<Translation>,
    /// The registry of scripts, if one is loaded.
    pub script_manager: Option<&'b ScriptManager>,
}

impl<'b> ScriptGameData<'b> {
    /// Shared state with an empty stack and an empty queue.
    pub fn new(
        player_tran: Option<Translation>,
        script_manager: Option<&'b ScriptManager>,
    ) -> (game: Self)
        ensures
            game.calc_stack@ == Seq::<u32>::empty(),
            game.submit_command@ == Seq::<ScriptGameCommand>::empty(),
            game.player_tran == player_tran,
            game.script_manager == script_manager,
    {
        ScriptGameData {
            calc_stack: Vec::new(),
            submit_command: Vec::new(),
            player_tran,
            script_manager,
        }
    }

    /// Completes the arithmetic that a run stopped for: takes the top value
    /// off the calculation stack and puts `result` in place of the value
    /// below it.  Returns whether the stack held the two operands; where it
    /// did not, nothing changes.
    pub fn complete(&mut self, result: u32) -> (done: bool)
        ensures
            done == (old(self).calc_stack@.len() >= 2),
            done ==> final(self).calc_stack@ == completed(old(self).calc_stack@, result),
            !done ==> final(self).calc_stack@ == old(self).calc_stack@,
            final(self).submit_command == old(self).submit_command,
            final(self).player_tran == old(self).player_tran,
            final(self).script_manager == old(self).script_manager,
    {
        let n = self.calc_stack.len();
        if n >= 2 {
            self.calc_stack.pop();
            self.calc_stack[n - 2] = result;
            true
        } else {
            false
        }
    }
}

/// A calculation stack of at least two values after its top two have given
/// way to `result`.
pub open spec fn completed(calc: Seq<u32>, result: u32) -> Seq<u32> {
    calc.take(calc.len() - 2).push(result)
}

/// What the caller lends to one run.
#[derive(Debug)]
pub struct TempGameContext {
    /// Where the calling entity is, if it has a position.
    pub tran: Option<Translation>,
}

impl Default for TempGameContext {
    fn default() -> (temp: Self)
        ensures
            temp.tran is None,
    {
        TempGameContext { tran: None }
    }
}

} // verus!
