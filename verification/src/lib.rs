//! A verified CHIP-8 virtual machine core.
//!
//! The crate models the fetch-decode-execute engine of the classic CHIP-8
//! instruction set: the CPU state (registers, index register, program
//! counter, call stack, timers), the 4096-byte memory, the 64x32 monochrome
//! frame buffer with its XOR draw/collision rule, and the wall-clock-gated
//! timer decay. Every instruction's effect is stated as a specification-level
//! transition function and the executable engine is proved to implement it.
//!
//! Rendering, audio output, keyboard translation and program-file loading are
//! external collaborators: the engine consumes plain key-edge events and a
//! monotonic clock reading, and exposes the frame buffer and a tone flag.

pub mod decode;
pub mod display;
pub mod engine;
pub mod error;
pub mod laws;
pub mod semantics;
pub mod state;

pub use decode::Instruction;
pub use error::VmError;
pub use state::Emulator;
