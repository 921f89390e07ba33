//! The operands of ARM64 instructions.

use vstd::prelude::*;
use crate::ir::Type;
use crate::regs::{Reg, RegClass};
use crate::machinst::MachInstArg;
use crate::arm64::imm::Arm64ShiftedImm;
use crate::arm64::mem::Arm64MemArg;
use crate::arm64::modifiers::{Arm64ExtendOp, Arm64ShiftOp};

verus! {

/// The kind of an operand: its shape without what it carries.
#[derive(Clone, Copy, Debug, PartialEq, Eq, Structural)]
pub enum Arm64ArgKind {
    /// An immediate.
    Imm,
    /// A plain register.
    Reg,
    /// A shifted register.
    ShiftedReg,
    /// An extended register.
    ExtendedReg,
    /// A memory operand.
    Mem,
}

/// One source or destination of an instruction.
///
/// Which operands an opcode accepts is not checked here; that is decided
/// where instructions are selected.
#[derive(Clone, Copy, Debug, PartialEq, Eq, Structural)]
pub enum Arm64Arg {
    /// An immediate.
    Imm(Arm64ShiftedImm),
    /// A register.
    Reg(Reg),
    /// A register, shifted by an amount.
    ShiftedReg(Reg, Arm64ShiftOp, usize),
    /// A register, extended and then shifted left by an amount.
    ExtendedReg(Reg, Arm64ExtendOp, usize),
    /// A place in memory.
    Mem(Arm64MemArg),
}

impl Arm64Arg {
    /// The kind of each operand.
    pub open spec fn spec_kind(&self) -> Arm64ArgKind {
        match *self {
            Arm64Arg::Imm(_) => Arm64ArgKind::Imm,
            Arm64Arg::Reg(_) => Arm64ArgKind::Reg,
            Arm64Arg::ShiftedReg(_, _, _) => Arm64ArgKind::ShiftedReg,
            Arm64Arg::ExtendedReg(_, _, _) => Arm64ArgKind::ExtendedReg,
            Arm64Arg::Mem(_) => Arm64ArgKind::Mem,
        }
    }

    /// Whether two operands have the same shape: the same kind and, for
    /// memory operands, the same addressing mode.
    pub open spec fn same_shape(self, other: Arm64Arg) -> bool {
        &&& self.spec_kind() == other.spec_kind()
        &&& match (self, other) {
            (Arm64Arg::Mem(m), Arm64Arg::Mem(n)) => m.same_mode(n),
            _ => true,
        }
    }

    /// The kind of this operand.
    #[verifier::when_used_as_spec(spec_kind)]
    pub fn kind(&self) -> (k: Arm64ArgKind)
        ensures
            k == self.spec_kind(),
    {
        match self {
            Arm64Arg::Imm(..) => Arm64ArgKind::Imm,
            Arm64Arg::Reg(..) => Arm64ArgKind::Reg,
            Arm64Arg::ShiftedReg(..) => Arm64ArgKind::ShiftedReg,
            Arm64Arg::ExtendedReg(..) => Arm64ArgKind::ExtendedReg,
            Arm64Arg::Mem(..) => Arm64ArgKind::Mem,
        }
    }
}

impl MachInstArg for Arm64Arg {
    /// An immediate takes no register; a register, with or without a
    /// modifier, takes one; a memory operand takes what its addressing mode
    /// takes.
    open spec fn spec_num_regs(&self) -> nat {
        match *self {
            Arm64Arg::Imm(_) => 0,
            Arm64Arg::Reg(_) => 1,
            Arm64Arg::ShiftedReg(_, _, _) => 1,
            Arm64Arg::ExtendedReg(_, _, _) => 1,
            Arm64Arg::Mem(Arm64MemArg::Base) => 1,
            Arm64Arg::Mem(Arm64MemArg::BaseImm(_)) => 1,
            Arm64Arg::Mem(Arm64MemArg::BaseOffsetShifted(_)) => 2,
            Arm64Arg::Mem(Arm64MemArg::BaseImmPreIndexed(_)) => 1,
            Arm64Arg::Mem(Arm64MemArg::BaseImmPostIndexed(_)) => 1,
            Arm64Arg::Mem(Arm64MemArg::PCRel(_)) => 0,
        }
    }

    /// Integers and booleans live in the general-purpose registers, all other
    /// values in the floating-point and vector registers.
    open spec fn spec_regclass_for_type(ty: Type) -> RegClass {
        if ty.spec_is_int() || ty.spec_is_bool() {
            RegClass::GPR
        } else {
            RegClass::FPR
        }
    }

    /// How many registers this operand occupies. The answer depends on the
    /// shape of the operand only, never on what it carries.
    fn num_regs(&self) -> (n: usize)
        ensures
            n == self.spec_num_regs(),
            self matches Arm64Arg::Mem(m) ==> n == m.spec_num_regs(),
            n <= 2,
    {
        match self {
            Arm64Arg::Imm(..) => 0,
            Arm64Arg::Reg(..) | Arm64Arg::ShiftedReg(..) | Arm64Arg::ExtendedReg(..) => 1,
            Arm64Arg::Mem(m) => m.num_regs(),
        }
    }

    /// The register class for values of type `ty`. Every type has one.
    fn regclass_for_type(ty: Type) -> (rc: RegClass)
        ensures
            rc == Self::spec_regclass_for_type(ty),
            rc == RegClass::GPR <==> ty.spec_is_int() || ty.spec_is_bool(),
            rc == RegClass::FPR <==> !ty.spec_is_int() && !ty.spec_is_bool(),
    {
        if ty.is_int() || ty.is_bool() {
            RegClass::GPR
        } else {
            RegClass::FPR
        }
    }
}

/// The register count of an operand is decided by its shape alone: two
/// operands of the same shape take the same number of registers, whatever
/// registers, amounts, offsets or immediates they carry.
pub proof fn lemma_num_regs_by_shape(a: Arm64Arg, b: Arm64Arg)
    requires
        a.same_shape(b),
    ensures
        a.spec_num_regs() == b.spec_num_regs(),
{
}

/// A memory operand takes the registers of its addressing mode, and no
/// operand takes more than two.
pub proof fn lemma_num_regs_of_mem(m: Arm64MemArg)
    ensures
        Arm64Arg::Mem(m).spec_num_regs() == m.spec_num_regs(),
        Arm64Arg::Mem(m).spec_num_regs() <= 2,
{
}

/// Every value type has a register class, and exactly one: the
/// general-purpose registers for integers and booleans, the floating-point
/// and vector registers for the rest.
pub proof fn lemma_regclass_total(ty: Type)
    ensures
        ty.spec_is_int() || ty.spec_is_bool() ==> Arm64Arg::spec_regclass_for_type(ty)
            == RegClass::GPR,
        !(ty.spec_is_int() || ty.spec_is_bool()) ==> Arm64Arg::spec_regclass_for_type(ty)
            == RegClass::FPR,
{
}

/// Matching an operand gives back the kind it was built with and everything
/// that was put into it.
pub proof fn lemma_arg_round_trip(
    imm: Arm64ShiftedImm,
    reg: Reg,
    shift: Arm64ShiftOp,
    extend: Arm64ExtendOp,
    amount: usize,
    mem: Arm64MemArg,
)
    ensures
        Arm64Arg::Imm(imm).spec_kind() == Arm64ArgKind::Imm,
        Arm64Arg::Imm(imm) matches Arm64Arg::Imm(i) && i == imm,
        Arm64Arg::Reg(reg).spec_kind() == Arm64ArgKind::Reg,
        Arm64Arg::Reg(reg) matches Arm64Arg::Reg(r) && r == reg,
        Arm64Arg::ShiftedReg(reg, shift, amount).spec_kind() == Arm64ArgKind::ShiftedReg,
        Arm64Arg::ShiftedReg(reg, shift, amount) matches Arm64Arg::ShiftedReg(r, s, n) && r == reg
            && s == shift && n == amount,
        Arm64Arg::ExtendedReg(reg, extend, amount).spec_kind() == Arm64ArgKind::ExtendedReg,
        Arm64Arg::ExtendedReg(reg, extend, amount) matches Arm64Arg::ExtendedReg(r, e, n) && r
            == reg && e == extend && n == amount,
        Arm64Arg::Mem(mem).spec_kind() == Arm64ArgKind::Mem,
        Arm64Arg::Mem(mem) matches Arm64Arg::Mem(m) && m == mem,
{
}

} // verus!
