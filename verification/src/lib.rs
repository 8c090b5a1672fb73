//! A 256-byte stack machine whose code, data and operand stack share one
//! address space, with every observable behaviour stated as a contract.
//!
//! A program is a line of text. Its bytes are loaded at address 0 of a fresh
//! [`Machine`], and [`Machine::step`] is called until it returns
//! [`Outcome::Halt`] or fails. The machine reads and writes nothing itself:
//! a step says what it wants read and hands over what it wants written.

pub mod alu;
pub mod dump;
pub mod laws;
pub mod machine;
pub mod opcode;
pub mod step;
pub mod text;

pub use machine::{Machine, State};
pub use step::{Effect, Fault, Input, Outcome};
