//! Memory operands and their addressing modes.

use vstd::prelude::*;
use crate::machinst::Label;

verus! {

/// A memory argument to a load or store: one of the addressing modes.
///
/// The base register, and the index register where there is one, are not part
/// of the value; the mode only says how many of them it takes and carries the
/// static data that goes with the shape.
#[derive(Clone, Copy, Debug, PartialEq, Eq, Structural)]
pub enum Arm64MemArg {
    /// `[base]`
    Base,
    /// `[base, #imm]`
    BaseImm(usize),
    /// `[base, index, LSL #amount]`
    BaseOffsetShifted(usize),
    /// `[base, #imm]!`: the base is updated before the access.
    BaseImmPreIndexed(usize),
    /// `[base], #imm`: the base is updated after the access.
    BaseImmPostIndexed(usize),
    /// An address relative to the program counter, given by a label.
    PCRel(Label),
}

impl Arm64MemArg {
    /// The number of registers each addressing mode takes.
    pub open spec fn spec_num_regs(self) -> nat {
        match self {
            Arm64MemArg::Base => 1,
            Arm64MemArg::BaseImm(_) => 1,
            Arm64MemArg::BaseOffsetShifted(_) => 2,
            Arm64MemArg::BaseImmPreIndexed(_) => 1,
            Arm64MemArg::BaseImmPostIndexed(_) => 1,
            Arm64MemArg::PCRel(_) => 0,
        }
    }

    /// Whether two memory arguments use the same addressing mode, whatever
    /// offset or label each of them carries.
    pub open spec fn same_mode(self, other: Arm64MemArg) -> bool {
        match (self, other) {
            (Arm64MemArg::Base, Arm64MemArg::Base) => true,
            (Arm64MemArg::BaseImm(_), Arm64MemArg::BaseImm(_)) => true,
            (Arm64MemArg::BaseOffsetShifted(_), Arm64MemArg::BaseOffsetShifted(_)) => true,
            (Arm64MemArg::BaseImmPreIndexed(_), Arm64MemArg::BaseImmPreIndexed(_)) => true,
            (Arm64MemArg::BaseImmPostIndexed(_), Arm64MemArg::BaseImmPostIndexed(_)) => true,
            (Arm64MemArg::PCRel(_), Arm64MemArg::PCRel(_)) => true,
            _ => false,
        }
    }

    /// How many registers this memory argument occupies.
    pub fn num_regs(&self) -> (n: usize)
        ensures
            n == self.spec_num_regs(),
            n <= 2,
    {
        match self {
            Arm64MemArg::Base => 1,
            Arm64MemArg::BaseImm(..) => 1,
            Arm64MemArg::BaseOffsetShifted(..) => 2,
            Arm64MemArg::BaseImmPreIndexed(..) => 1,
            Arm64MemArg::BaseImmPostIndexed(..) => 1,
            Arm64MemArg::PCRel(..) => 0,
        }
    }
}

/// The register count belongs to the addressing mode: two memory arguments of
/// the same mode take the same number of registers, whatever they carry.
pub proof fn lemma_mem_num_regs_by_mode(a: Arm64MemArg, b: Arm64MemArg)
    requires
        a.same_mode(b),
    ensures
        a.spec_num_regs() == b.spec_num_regs(),
{
}

/// Every addressing mode takes no register, one, or two.
pub proof fn lemma_mem_num_regs_bound(a: Arm64MemArg)
    ensures
        a.spec_num_regs() <= 2,
{
}

/// Matching a memory argument gives back the mode it was built with and what
/// was put into it.
pub proof fn lemma_mem_round_trip(offset: usize, label: Label)
    ensures
        Arm64MemArg::BaseImm(offset) matches Arm64MemArg::BaseImm(x) && x == offset,
        Arm64MemArg::BaseOffsetShifted(offset) matches Arm64MemArg::BaseOffsetShifted(x) && x
            == offset,
        Arm64MemArg::BaseImmPreIndexed(offset) matches Arm64MemArg::BaseImmPreIndexed(x) && x
            == offset,
        Arm64MemArg::BaseImmPostIndexed(offset) matches Arm64MemArg::BaseImmPostIndexed(x) && x
            == offset,
        Arm64MemArg::PCRel(label) matches Arm64MemArg::PCRel(l) && l == label,
{
}

} // verus!
