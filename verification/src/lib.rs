//! A CHIP-8 virtual CPU core: it decodes two-byte instructions and executes them
//! against a machine of registers, memory, timers and a call stack.
//!
//! What each function does is stated over a mathematical model of the machine and
//! proved with Verus. The one thing taken on trust is what the `rand` crate
//! returns; the items that do so say it.

pub mod emulator;
