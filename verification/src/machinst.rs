//! What every backend offers to the architecture-independent passes.

use vstd::prelude::*;
use crate::ir::Type;
use crate::regs::RegClass;

verus! {

/// The operands of one architecture's instructions, as the passes that do not
/// know the architecture see them.
///
/// A backend states what each of the two answers is through the two spec
/// functions; the executable methods return exactly that.
pub trait MachInstArg: Sized {
    /// The number of registers that this operand occupies.
    spec fn spec_num_regs(&self) -> nat;

    /// The register class that holds values of type `ty` on this architecture.
    spec fn spec_regclass_for_type(ty: Type) -> RegClass;

    /// How many registers this operand occupies.
    fn num_regs(&self) -> (n: usize)
        ensures
            n == self.spec_num_regs(),
    ;

    /// Which register class a value of type `ty` is placed in. Every type
    /// has one.
    fn regclass_for_type(ty: Type) -> (rc: RegClass)
        ensures
            rc == Self::spec_regclass_for_type(ty),
    ;
}

/// A handle for a place in the code whose address is not known yet.
///
/// Whoever lays out the code hands these out and resolves them later. An
/// instruction only carries the handle; nothing here looks inside it beyond
/// telling two handles apart.
#[derive(Clone, Copy, Debug, PartialEq, Eq, Structural)]
pub struct Label {
    id: usize,
}

impl Label {
    /// The number the layout pass gave this label.
    pub closed spec fn spec_id(&self) -> usize {
        self.id
    }

    /// Wraps the number `id` as a label handle.
    pub fn new(id: usize) -> (label: Label)
        ensures
            label.spec_id() == id,
    {
        Label { id }
    }

    /// The number this handle was made from.
    #[verifier::when_used_as_spec(spec_id)]
    pub fn id(&self) -> (id: usize)
        ensures
            id == self.spec_id(),
    {
        self.id
    }

    /// A label is nothing more than its number.
    pub proof fn lemma_determined_by_id(self, other: Label)
        requires
            self.spec_id() == other.spec_id(),
        ensures
            self == other,
    {
    }
}

} // verus!
