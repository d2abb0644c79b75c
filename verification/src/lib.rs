//! An emulator core for a 64-bit RISC-V processor: instruction-word field
//! and immediate decoding, a dispatch table over the encoding space, and an
//! execution engine that carries out each instruction's state transition on
//! the architectural state, with the semantics of every step specified and
//! proved.
pub mod arith;
pub mod cpu;
pub mod decode;
pub mod instruction;
pub mod opcodes;

pub use cpu::{Cpu, CpuState, Outcome, PrivilegeLvel};
pub use decode::{Mnemonic, decode};
pub use instruction::Instruction;
