//! A fetch-decode-execute interpreter for a small 16-bit instruction set:
//! sixteen 8-bit registers, 4 KiB of flat memory and a bounded call stack.
//!
//! The executable machine is [`CPU`]. Its meaning is given by the ghost
//! [`Machine`] model: every executable operation is proved to compute exactly
//! what the model says, and the laws of the instruction set are proved of the
//! model.

pub mod cpu;
pub mod instruction;
pub mod laws;
pub mod machine;
pub mod outcome;
pub mod stack;

pub use cpu::CPU;
pub use instruction::{decode, Instruction};
pub use machine::Machine;
pub use outcome::{CpuError, Flow};
pub use stack::CallStack;
