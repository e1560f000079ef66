//! An interpreter for the MOS 6502 as it is wired in the NES.
//!
//! The machine is described twice. `machine` is the mathematical model: a
//! state and a transition function on it. `cpu` is the executable
//! interpreter, each of whose operations is proved to compute the
//! corresponding transition of the model.

pub mod status;
pub mod bus;
pub mod alu;
pub mod opcodes;
pub mod machine;
pub mod cpu;
pub mod laws;
