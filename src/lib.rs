//! A MOS 6502 interpreter core, as used by the NES, with its behaviour
//! stated as contracts over a mathematical machine model.
//!
//! - `machine`: the model (state as plain values, the effect of each
//!   instruction, one step of the dispatch loop, a whole run).
//! - `opcodes`: the table of documented opcodes.
//! - `flags`: the packed status register.
//! - `cpu`: the executable processor, proved to follow the model. Programs
//!   load at 0x0600.
//! - `laws`: properties of every step and every state.
//! - `basic`: a minimal interpreter that runs a byte vector directly.
pub mod basic;
pub mod cpu;
pub mod flags;
pub mod laws;
pub mod machine;
pub mod opcodes;
