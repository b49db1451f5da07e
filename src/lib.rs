//! An interpreter for the CHIP-8 instruction set: a decoder from 16-bit words
//! to instructions, an executor over a machine model (memory, registers,
//! timers, a bounded call stack and a wait-for-key state), a monochrome
//! screen with XOR sprite drawing, and a one-line trace of each instruction.
//! Every executable function carries a contract over the model in `model`.

pub mod decode;
pub mod display;
pub mod model;
pub mod cpu;
pub mod trace;

pub use cpu::Cpu;
pub use decode::{Instruction, decode};
pub use display::Framebuffer;
pub use model::Chip8Error;
pub use trace::format_opcode;
