//! Numbering of the external interrupt lines behind the two chained
//! controllers. Loading the descriptor table and acknowledging an interrupt
//! are privileged processor operations and belong to the surrounding kernel;
//! the line numbering itself is plain arithmetic.

use vstd::prelude::*;

verus! {

/// First interrupt line of the primary controller, placed after the 32
/// processor exception vectors.
pub const PIC_1_OFFSET: u8 = 32;

/// First interrupt line of the secondary controller.
pub const PIC_2_OFFSET: u8 = PIC_1_OFFSET + 8;

/// The external interrupt lines the runtime listens on.
#[derive(Clone, Copy, Debug, PartialEq, Eq, Structural)]
pub enum InterruptIndex {
    Timer,
    Keyboard,
}

impl InterruptIndex {
    /// The interrupt vector number of this line.
    pub open spec fn spec_as_u8(self) -> u8 {
        match self {
            InterruptIndex::Timer => PIC_1_OFFSET,
            InterruptIndex::Keyboard => (PIC_1_OFFSET + 1) as u8,
        }
    }

    /// The interrupt vector number of this line.
    #[verifier::when_used_as_spec(spec_as_u8)]
    pub fn as_u8(self) -> (n: u8)
        ensures
            n == self.spec_as_u8(),
    {
        match self {
            InterruptIndex::Timer => PIC_1_OFFSET,
            InterruptIndex::Keyboard => PIC_1_OFFSET + 1,
        }
    }

    /// The vector number widened for use as a table index.
    pub fn as_usize(self) -> (n: usize)
        ensures
            n == self.spec_as_u8(),
    {
        self.as_u8() as usize
    }
}

} // verus!
