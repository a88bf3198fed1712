//! The ways in which a bus access or an instruction can fail.

use vstd::prelude::*;

verus! {

/// A failure of the bus or of the processor. None of them is recovered from
/// inside the library: each is handed to the caller.
#[derive(Debug, Clone, Copy, PartialEq, Eq, Structural)]
pub enum Error {
    /// The byte at the given program counter is not an instruction.
    /// Fields: the byte, and the address it was fetched from.
    UnknownOpcode(u8, u16),
    /// No region of the bus covers the address.
    UnmappedAddress(u16),
    /// No region of the bus has exactly these bounds (start, end).
    NoSuchRegion(u16, u16),
}

} // verus!
