//! A stack-based virtual CPU.
//!
//! The machine consists of a linear memory of 32-bit words, a data stack, an
//! address stack, an instruction pointer and twelve ports. A flat binary image
//! is loaded into memory and executed one instruction at a time until the
//! guest program waits for the host or faults.
//!
//! * [`word`] defines the arithmetic of the machine word.
//! * [`opcodes`] and [`isa`] define the instruction set and its encoding.
//! * [`machine`] is the mathematical model: the machine state and the effect
//!   of every instruction on it.
//! * [`memory`] holds the word memory and the two stacks, and loads images.
//! * [`cpu`] is the executable engine, proved to follow the model.
//! * [`laws`] states properties of the model that follow from its definition.

pub mod word;
pub mod opcodes;
pub mod isa;
pub mod machine;
pub mod memory;
pub mod cpu;
pub mod laws;
