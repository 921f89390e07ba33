//! The opcodes of the ARM64 backend.

use vstd::prelude::*;

verus! {

/// An ARM64 mnemonic. It names the operation and nothing else: which operand
/// shapes go with it is decided where instructions are selected.
#[derive(Clone, Copy, Debug, PartialEq, Eq, Structural)]
pub enum Arm64Op {
    /// Add.
    Add,
    /// Add, setting flags.
    AddS,
    /// Subtract.
    Sub,
    /// Subtract, setting flags.
    SubS,
    /// Compare.
    Cmp,
    /// Compare negative.
    Cmn,
    /// Negate.
    Neg,
    /// Negate, setting flags.
    NegS,
    /// Move a register.
    Mov,
    /// Move an immediate.
    MovI,
    /// Bitwise and.
    And,
    /// Bitwise and, setting flags.
    AndS,
    /// Bitwise or.
    Orr,
    /// Bitwise or with the complement.
    Orn,
    /// Bitwise exclusive or.
    Eor,
    /// Bitwise exclusive or with the complement.
    Eon,
    /// Bit clear.
    Bic,
    /// Bit clear, setting flags.
    BicS,
    /// Test bits.
    Tst,
    /// Arithmetic shift right by an immediate.
    Asr,
    /// Logical shift left by an immediate.
    Lsl,
    /// Logical shift right by an immediate.
    Lsr,
    /// Rotate right by an immediate.
    Ror,
    /// Arithmetic shift right by a register.
    Asrv,
    /// Logical shift left by a register.
    Lslv,
    /// Logical shift right by a register.
    Lsrv,
    /// Rotate right by a register.
    Rorv,
    /// Count leading sign bits.
    Cls,
    /// Count leading zeros.
    Clz,
    /// Add with carry.
    Adc,
    /// Add with carry, setting flags.
    AdcS,
    /// Conditional select.
    Csel,
}

} // verus!
