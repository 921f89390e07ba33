//! Modifiers that an instruction attaches to a register operand, and the
//! condition codes of conditional instructions.

use vstd::prelude::*;

verus! {

/// A shift operator for a register or immediate.
#[derive(Clone, Copy, Debug, PartialEq, Eq, Structural)]
pub enum Arm64ShiftOp {
    /// Arithmetic shift right.
    ASR,
    /// Logical shift right.
    LSR,
    /// Logical shift left.
    LSL,
    /// Rotate right.
    ROR,
}

/// An extend operator for a register.
#[derive(Clone, Copy, Debug, PartialEq, Eq, Structural)]
pub enum Arm64ExtendOp {
    /// Sign-extend a byte.
    SXTB,
    /// Sign-extend a halfword.
    SXTH,
    /// Sign-extend a word.
    SXTW,
    /// Sign-extend a doubleword (the assembler spells it `SXTX`).
    XSTX,
    /// Zero-extend a byte.
    UXTB,
    /// Zero-extend a halfword.
    UXTH,
    /// Zero-extend a word.
    UXTW,
    /// Zero-extend a doubleword.
    UXTX,
}

/// A condition code, as tested by conditional instructions.
#[derive(Clone, Copy, Debug, PartialEq, Eq, Structural)]
pub enum Arm64Cond {
    /// Equal.
    Eq,
    /// Not equal.
    Ne,
    /// Unsigned higher or same.
    Hs,
    /// Unsigned lower.
    Lo,
    /// Negative.
    Mi,
    /// Positive or zero.
    Pl,
    /// Overflow set.
    Vs,
    /// Overflow clear.
    Vc,
    /// Unsigned higher.
    Hi,
    /// Unsigned lower or same.
    Ls,
    /// Signed greater or equal.
    Ge,
    /// Signed less.
    Lt,
    /// Signed greater.
    Gt,
    /// Signed less or equal.
    Le,
    /// Always.
    Al,
    /// Never.
    Nv,
}

} // verus!
