//! How a run ends.

use vstd::prelude::*;

verus! {

/// The arithmetic that a script can ask for.
#[derive(Clone, Copy, Debug, PartialEq, Eq, Structural)]
pub enum ArithOp {
    Add,
    Sub,
    Mul,
}

/// What is wrong with an instruction.
#[derive(Clone, Copy, Debug, PartialEq, Eq, Structural)]
pub enum FaultKind {
    /// The byte is no opcode.
    UnknownOpcode(u8),
    /// The byte is no source tag.
    UnknownSource(u8),
    /// The byte is no destination tag.
    UnknownDestination(u8),
    /// The byte names no engine field.
    UnknownField(u8),
    /// The byte is no collision tag.
    UnknownCollision(u8),
    /// The index is outside the script's data array.
    DataIndex(u8),
    /// The index is outside the function's local slots.
    LocalIndex(u8),
    /// The code ends inside the instruction.
    Truncated,
    /// The calculation stack holds too few values.
    StackUnderflow,
    /// The caller supplied no position of its own.
    NoCallerPosition,
    /// The shared state holds no player position.
    NoPlayerPosition,
    /// The shared state holds no script registry.
    NoRegistry,
    /// The registry does not know the script that is named.
    UnknownScript,
    /// The bytes of a name are not UTF-8.
    InvalidName,
    /// The script has no function of the name asked for.
    MissingFunction,
}

/// A fatal error: what is wrong, and the offset in the code of the byte or
/// operand that is wrong.
///
/// The instruction that faults changes nothing: the instruction pointer
/// still points at its opcode.
#[derive(Clone, Copy, Debug, PartialEq, Eq, Structural)]
pub struct Fault {
    pub kind: FaultKind,
    pub offset: usize,
}

/// Why a run stopped.
#[derive(Clone, Copy, Debug, PartialEq, Eq, Structural)]
pub enum Outcome {
    /// The function ran to its end; its context is reset.
    Finished,
    /// The function yielded; the next run resumes behind the yield.
    Yielded,
    /// The function asks for `lhs op rhs`, where `rhs` is the top of the
    /// calculation stack and `lhs` the value below it.  The stack is as it
    /// was; the instruction pointer is behind the instruction.
    Arithmetic(ArithOp, u32, u32),
    /// The step allowance ran out.
    OutOfFuel,
    /// An instruction is malformed or reaches outside its registers.
    Fault(Fault),
}

} // verus!
