//! An interpreter core for a small byte machine: 4 KiB of memory, sixteen
//! byte registers, a 64x32 monochrome display, a sixteen-entry call stack,
//! sixteen keys and two timers.
//!
//! [`Machine`] is the mathematical model: the state as plain values, and
//! each operation as a function from state to state. [`CPU`] is the
//! executable machine; every method's contract says what it does to the
//! model.
//!
//! Two points of behaviour are fixed here as follows.
//!
//! * Wait-for-key (`Fx0A`) does not repeat itself. With a key down it
//!   stores the lowest such key; with no key down it skips the instruction
//!   that follows it.
//! * Nothing wraps around the end of memory. A fetch, a sprite read, a
//!   digit write or a register transfer that would reach past the last
//!   byte is a [`Fault`], as is a program too large to load, a call or
//!   return that the stack cannot take, a key test on a value that names
//!   no key, and a word that encodes no instruction. [`CPU::fault`] tells
//!   which fault the next step would raise; [`CPU::step`] asks that there
//!   is none, and [`CPU::try_step`] checks.

pub mod cpu;
pub mod display;
pub mod instruction;
pub mod keypad;
pub mod laws;
pub mod machine;
mod random;

pub use cpu::CPU;
pub use display::SCREEN_HEIGHT;
pub use display::SCREEN_WIDTH;
pub use instruction::Fields;
pub use instruction::Instruction;
pub use machine::Fault;
pub use machine::Machine;
