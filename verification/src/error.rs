use vstd::prelude::*;

verus! {

/// The ways in which loading a program or executing an instruction can fail.
///
/// Every failure is fatal for the instruction that met it: the machine is
/// left exactly as it was before the call.
#[derive(Debug, Clone, Copy, PartialEq, Eq, Structural)]
pub enum EmulatorError {
    /// The program image does not fit between the program base and the end
    /// of memory.
    LoadError,
    /// A legacy machine-code call (`0nnn` other than clear and return).
    UnsupportedOpcode,
    /// The fetched word matches no instruction of the architecture.
    InvalidInstruction,
    /// A return with an empty call stack.
    StackUnderflow,
    /// A call with a full call stack.
    StackOverflow,
    /// A program counter, a memory address or a key index outside its range.
    OutOfBounds,
}

} // verus!
