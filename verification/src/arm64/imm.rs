//! Immediates in the shifted encoding.

use vstd::prelude::*;

verus! {

/// Why a value of this model could not be built.
#[derive(Clone, Copy, Debug, PartialEq, Eq, Structural)]
pub enum Arm64Error {
    /// The immediate asked for cannot be encoded: its shift amount is not one
    /// that the instruction set provides.
    InvalidImmediateEncoding,
}

/// The shift amounts that a shifted immediate can carry: the 12-bit field is
/// used as it is, or moved up by twelve bits.
pub open spec fn legal_imm_shift(shift: int) -> bool {
    shift == 0 || shift == 12
}

/// A shifted immediate value: a bit pattern and the amount by which it is
/// shifted left. The pair stands for one wider immediate, as the instruction
/// encodes it.
///
/// A value of this type always has a legal shift amount; see
/// [`Arm64ShiftedImm::new`].
#[derive(Clone, Copy, Debug, PartialEq, Eq, Structural)]
pub struct Arm64ShiftedImm {
    bits: usize,
    shift: usize,
}

impl Arm64ShiftedImm {
    /// The bit pattern.
    pub closed spec fn spec_bits(&self) -> usize {
        self.bits
    }

    /// The shift amount.
    pub closed spec fn spec_shift(&self) -> usize {
        self.shift
    }

    /// The invariant of the type: the shift amount is a legal one.
    pub open spec fn wf(&self) -> bool {
        legal_imm_shift(self.spec_shift() as int)
    }

    #[verifier::type_invariant]
    spec fn inv(&self) -> bool {
        self.wf()
    }

    /// Builds the immediate `bits` shifted left by `shift`.
    ///
    /// Fails when `shift` is not a legal shift amount; the amount is never
    /// rounded or clamped to one that is.
    pub fn new(bits: usize, shift: usize) -> (r: Result<Arm64ShiftedImm, Arm64Error>)
        ensures
            r is Ok <==> legal_imm_shift(shift as int),
            r matches Ok(imm) ==> imm.spec_bits() == bits && imm.spec_shift() == shift && imm.wf(),
            r matches Err(e) ==> e == Arm64Error::InvalidImmediateEncoding,
    {
        if shift == 0 || shift == 12 {
            Ok(Arm64ShiftedImm { bits, shift })
        } else {
            Err(Arm64Error::InvalidImmediateEncoding)
        }
    }

    /// The bit pattern, before shifting.
    #[verifier::when_used_as_spec(spec_bits)]
    pub fn bits(&self) -> (bits: usize)
        ensures
            bits == self.spec_bits(),
    {
        self.bits
    }

    /// The shift amount, which is always a legal one.
    #[verifier::when_used_as_spec(spec_shift)]
    pub fn shift(&self) -> (shift: usize)
        ensures
            shift == self.spec_shift(),
            legal_imm_shift(shift as int),
    {
        proof {
            use_type_invariant(self);
        }
        self.shift
    }

    /// A shifted immediate is nothing more than its bit pattern and its shift
    /// amount: two that agree on both are the same value.
    pub proof fn lemma_determined_by_parts(self, other: Arm64ShiftedImm)
        requires
            self.spec_bits() == other.spec_bits(),
            self.spec_shift() == other.spec_shift(),
        ensures
            self == other,
    {
    }
}

} // verus!
