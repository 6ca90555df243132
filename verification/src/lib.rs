//! An interpreter core for the Chip16 virtual console: a 16-bit machine with
//! sixteen registers, 64 KiB of memory, a 320x240 indexed framebuffer, a tone
//! generator and two controller ports.
//!
//! Every executable function carries a contract over the mathematical model
//! of the machine ([`state::CpuState`]), and the contracts are proved.

pub mod word;

pub mod instruction;
pub mod audio;
pub mod flags;
pub mod graphics;
pub mod alu;
pub mod state;
pub mod opcode;
pub mod semantics;
pub mod cpu;
pub mod random;
pub mod system;
pub mod flow;
pub mod memory;
pub mod arith;
pub mod machine;
pub mod theorems;
pub mod rom;
pub mod display;
