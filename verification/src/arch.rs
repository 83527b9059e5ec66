//! Architecture descriptors: which instruction set the engine is bound to.
//!
//! The concrete decode/semantics table of a chip family is an external
//! collaborator supplied by the host around the library; the engine itself
//! only records, as a closed tag, which family it was built for.

use vstd::prelude::*;

verus! {

/// The supported instruction-set families.
#[derive(Clone, Copy, Debug, PartialEq, Eq, Structural)]
pub enum InstructionSet {
    Pdk14,
}

/// An architecture descriptor, bound once at CPU construction. The host
/// resolves the tag to its instruction-dispatch handler.
#[derive(Clone, Copy, Debug, PartialEq, Eq, Structural)]
pub struct PDKArch {
    pub instruction_set: InstructionSet,
}

/// The descriptor for the pdk14 instruction-set family.
pub fn pdk14() -> (r: PDKArch)
    ensures
        r.instruction_set == InstructionSet::Pdk14,
{
    PDKArch { instruction_set: InstructionSet::Pdk14 }
}

} // verus!
