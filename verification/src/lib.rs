//! A verified decode/execute engine for a 6502-family processor.
//!
//! The crate is split into a mathematical model and the executable engine
//! that is proved to follow it:
//!
//! * [`bytes`] and [`flags`] hold the arithmetic on bytes, words and the
//!   status register;
//! * [`state`] is the machine state as a mathematical value;
//! * [`semantics`] says, on that value, what each instruction, one step and
//!   a bounded run do;
//! * [`opcodes`] is the opcode catalogue;
//! * [`cpu`] is the executable engine;
//! * [`laws`] states what holds of the instruction set for every state;
//! * [`host`] is the host's side of the memory map: screen and keys.
pub mod bytes;
pub mod flags;
pub mod state;
pub mod opcodes;
pub mod cpu;
pub mod semantics;
pub mod laws;
pub mod host;
