//! Error type for address-resolution calls on the CPU.

use vstd::prelude::*;

use crate::memory::OutOfRangeError;

verus! {

/// Why an addressing-mode payload could not be turned into an address or
/// an operand.
#[derive(Debug, Clone, Copy, PartialEq, Eq, Structural)]
pub enum CpuError {
    /// The mode carries no memory address (or no readable operand).
    InvalidAddressModeDereferenced,
    /// An address computed from the mode fell outside memory.
    MemoryBoundsError(OutOfRangeError),
}

} // verus!
