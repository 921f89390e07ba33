//! Machine-instruction representation for the 64-bit ARM backend.
//!
//! The crate describes what an ARM64 instruction is: its opcode, the shapes
//! its operands can take, and the modifiers that go with them. Passes that do
//! not know the architecture (register allocation, scheduling, encoding) read
//! instructions through the small interface in [`machinst`].

pub mod ir;
pub mod regs;
pub mod machinst;
pub mod arm64;
