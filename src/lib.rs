//! An interpreter for the classic CHIP-8 instruction set.
//!
//! The processor (`Cpu`) executes one instruction per step against an `IO`
//! value, which holds the 4 KiB address space, the 64x32 monochrome
//! framebuffer and the most recently pressed key.
pub mod cpu;
pub mod laws;
pub mod memory;

pub use cpu::{Cpu, Fault};
pub use memory::IO;
