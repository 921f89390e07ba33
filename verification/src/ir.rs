//! The value types of the intermediate representation, as far as a backend
//! needs to tell them apart.

use vstd::prelude::*;

verus! {

/// The type of a value in the intermediate representation.
#[derive(Clone, Copy, Debug, PartialEq, Eq, Structural)]
pub enum Type {
    /// A boolean.
    B1,
    /// An 8-bit integer.
    I8,
    /// A 16-bit integer.
    I16,
    /// A 32-bit integer.
    I32,
    /// A 64-bit integer.
    I64,
    /// A 32-bit floating-point number.
    F32,
    /// A 64-bit floating-point number.
    F64,
    /// A vector of sixteen 8-bit integers.
    I8X16,
    /// A vector of eight 16-bit integers.
    I16X8,
    /// A vector of four 32-bit integers.
    I32X4,
    /// A vector of two 64-bit integers.
    I64X2,
    /// A vector of four 32-bit floating-point numbers.
    F32X4,
    /// A vector of two 64-bit floating-point numbers.
    F64X2,
}

impl Type {
    /// Whether this is a scalar integer type.
    pub open spec fn spec_is_int(&self) -> bool {
        *self == Type::I8 || *self == Type::I16 || *self == Type::I32 || *self == Type::I64
    }

    /// Whether this is a boolean type.
    pub open spec fn spec_is_bool(&self) -> bool {
        *self == Type::B1
    }

    /// Is this a scalar integer type?
    #[verifier::when_used_as_spec(spec_is_int)]
    pub fn is_int(&self) -> (b: bool)
        ensures
            b == self.spec_is_int(),
    {
        match self {
            Type::I8 | Type::I16 | Type::I32 | Type::I64 => true,
            _ => false,
        }
    }

    /// Is this a boolean type?
    #[verifier::when_used_as_spec(spec_is_bool)]
    pub fn is_bool(&self) -> (b: bool)
        ensures
            b == self.spec_is_bool(),
    {
        match self {
            Type::B1 => true,
            _ => false,
        }
    }
}

} // verus!
