//! A CHIP-8 interpreter core: machine state, instruction decoding and a
//! single-step engine, each with a contract over a mathematical model of the
//! machine.

pub mod cpu;
pub mod decode;
pub mod laws;
pub mod machine;
pub mod semantics;

pub use cpu::CPU;
pub use machine::{Fault, Inputs, Machine, Signal};
