//! The conditions under which the machine refuses to go on.

use vstd::prelude::*;
use crate::operation::Opcode;

verus! {

/// Why a program could not be loaded or an instruction could not be executed.
/// None of these can be recovered from inside the machine: the state is left
/// as it was and the caller decides how to stop.
#[derive(Clone, Copy, Debug, PartialEq, Eq)]
pub enum Fault {
    /// The program image, whose length is given, does not fit in memory.
    ImageTooLarge(usize),
    /// The two bytes at the program counter do not both lie in memory.
    FetchOutOfRange,
    /// The instruction word at the program counter matches no operation.
    UnknownOpcode(Opcode),
    /// A call was made with the stack full.
    StackOverflow,
    /// A return was made with the stack empty.
    StackUnderflow,
    /// An operation would read or write memory beyond its last byte.
    AddressOutOfRange,
    /// A key was asked for that the keyboard does not have.
    KeyOutOfRange(u8),
}

} // verus!
