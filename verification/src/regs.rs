//! Registers and the classes they fall into.

use vstd::prelude::*;

verus! {

/// A class of registers. A value can only be placed in a register of the
/// class that its type maps to.
#[derive(Clone, Copy, Debug, PartialEq, Eq, Structural)]
pub enum RegClass {
    /// The general-purpose registers.
    GPR,
    /// The floating-point and vector registers.
    FPR,
}

/// A reference to one register: its class and its number within the class.
#[derive(Clone, Copy, Debug, PartialEq, Eq, Structural)]
pub struct Reg {
    pub class: RegClass,
    pub index: u8,
}

} // verus!
