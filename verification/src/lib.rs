//! An interpreter for a small 8-bit virtual machine: 4 KiB of memory, sixteen
//! byte registers, a 16-bit address register, a call stack, a 64x32 one-bit
//! display, two countdown timers and a sixteen-key pad.
//!
//! The machine is modelled mathematically by [`machine::MachineState`]; the
//! meaning of every instruction is a spec function on that model
//! ([`semantics`]), and the executable [`Emulator`] is proved to follow it.
//! [`laws`] states what follows for all programs.

pub mod error;
pub mod instruction;
pub mod machine;
pub mod display;
pub mod semantics;
pub mod emulator;
mod random;
pub mod interpreter;
pub mod timers;
pub mod laws;
pub mod host;

pub use emulator::Emulator;
pub use error::EmulatorError;
pub use instruction::{decode, Instruction};
