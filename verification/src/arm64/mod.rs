//! The ARM64 instruction model.

pub mod modifiers;
pub mod ops;
pub mod imm;
pub mod mem;
pub mod args;
pub mod inst;

pub use self::args::{Arm64Arg, Arm64ArgKind};
pub use self::imm::{Arm64Error, Arm64ShiftedImm};
pub use self::inst::Arm64Inst;
pub use self::mem::Arm64MemArg;
pub use self::modifiers::{Arm64Cond, Arm64ExtendOp, Arm64ShiftOp};
pub use self::ops::Arm64Op;
