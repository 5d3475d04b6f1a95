//! A small stack machine that drives entity behaviour scripts.
//!
//! A script is a set of named functions, each a flat byte stream.  The
//! machine interprets one function at a time against a handful of registers:
//! the script's data array, the function's local slots, a shared calculation
//! stack and the positions of the calling entity and of the player.  Effects
//! on the world leave the machine as queued commands.
//!
//! Values are single-precision numbers held as their 32-bit patterns.  The
//! machine moves and stores them but never computes with them: when a script
//! asks for a sum, a difference or a product the run stops with
//! [`Outcome::Arithmetic`], the host computes the result and hands it to
//! [`ScriptGameData::complete`], and the next run carries on behind the
//! instruction.

pub mod context;
pub mod game;
pub mod laws;
pub mod model;
pub mod outcome;
pub mod registry;
pub mod runner;
pub mod word;

pub use context::ScriptContext;
pub use game::{CollideType, ScriptGameCommand, ScriptGameData, TempGameContext, Translation};
pub use outcome::{ArithOp, Fault, FaultKind, Outcome};
pub use registry::{FunctionDesc, ScriptDesc, ScriptManager};
pub use runner::{FunctionContext, FunctionRunner};
pub use word::{encode_literal, exit_count};
