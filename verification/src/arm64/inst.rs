//! Whole instructions.

use vstd::prelude::*;
use crate::arm64::args::Arm64Arg;
use crate::arm64::modifiers::Arm64Cond;
use crate::arm64::ops::Arm64Op;

verus! {

/// What an instruction is made of.
pub struct Arm64InstView {
    pub op: Arm64Op,
    pub args: Seq<Arm64Arg>,
    pub cond: Option<Arm64Cond>,
}

/// One ARM64 instruction: an opcode, its operands in order, and the condition
/// under which it takes effect, if it has one.
///
/// An instruction does not change once it is built.
#[derive(Debug)]
pub struct Arm64Inst {
    op: Arm64Op,
    args: Vec<Arm64Arg>,
    cond: Option<Arm64Cond>,
}

impl View for Arm64Inst {
    type V = Arm64InstView;

    closed spec fn view(&self) -> Arm64InstView {
        Arm64InstView { op: self.op, args: self.args@, cond: self.cond }
    }
}

impl Arm64Inst {
    /// Builds the instruction `op` with the operands `args` and the
    /// condition `cond`.
    pub fn new(op: Arm64Op, args: Vec<Arm64Arg>, cond: Option<Arm64Cond>) -> (inst: Arm64Inst)
        ensures
            inst@ == (Arm64InstView { op, args: args@, cond }),
    {
        Arm64Inst { op, args, cond }
    }

    /// The opcode.
    pub fn op(&self) -> (op: Arm64Op)
        ensures
            op == self@.op,
    {
        self.op
    }

    /// The operands, in the order in which they were given.
    pub fn args(&self) -> (args: &[Arm64Arg])
        ensures
            args@ == self@.args,
    {
        self.args.as_slice()
    }

    /// The condition code, if the instruction has one.
    pub fn cond(&self) -> (cond: Option<Arm64Cond>)
        ensures
            cond == self@.cond,
    {
        self.cond
    }
}

impl Clone for Arm64Inst {
    /// A copy has the same opcode, operands and condition.
    fn clone(&self) -> (copy: Self)
        ensures
            copy@ == self@,
    {
        Arm64Inst { op: self.op, args: self.args.clone(), cond: self.cond }
    }
}

impl PartialEq for Arm64Inst {
    /// Compares opcode, condition and operands, the operands one by one in
    /// order.
    fn eq(&self, other: &Self) -> (r: bool) {
        if self.op != other.op || self.cond != other.cond || self.args.len() != other.args.len() {
            return false;
        }
        let mut i: usize = 0;
        while i < self.args.len()
            invariant
                i <= self.args.len(),
                self.args.len() == other.args.len(),
                forall|j: int| 0 <= j < i ==> self.args@[j] == other.args@[j],
            decreases self.args.len() - i,
        {
            if self.args[i] != other.args[i] {
                return false;
            }
            i += 1;
        }
        assert(self.args@ =~= other.args@);
        true
    }
}

impl Eq for Arm64Inst {}

impl vstd::std_specs::cmp::PartialEqSpecImpl for Arm64Inst {
    open spec fn obeys_eq_spec() -> bool {
        true
    }

    /// Two instructions are equal when they are made of the same parts.
    open spec fn eq_spec(&self, other: &Self) -> bool {
        self@ == other@
    }
}

} // verus!
