//! The ways in which an access or an instruction can fail.

use vstd::prelude::*;

verus! {

/// An access that an address space refuses.
#[derive(Clone, Copy, PartialEq, Eq, Debug, Structural)]
pub enum AccessError {
    /// The address lies in none of the declared ranges.
    Unmapped,
    /// A write to cartridge ROM or to a port that can only be read.
    ReadOnly,
    /// A read of a port that can only be written.
    WriteOnly,
}

/// Why an instruction was not carried out.
#[derive(Clone, Copy, PartialEq, Eq, Debug, Structural)]
pub enum CpuError {
    /// The bus refused a read or a write.
    Access(AccessError),
    /// The instruction needs an address or a value and its operand holds
    /// neither.
    OperandType,
    /// The instruction's arithmetic is not defined by this core.
    NotImplemented,
}

/// Why a cartridge image was refused.
#[derive(Clone, Copy, PartialEq, Eq, Debug, Structural)]
pub enum INESError {
    /// The image does not start with the four signature bytes.
    NotFound,
    /// The image is shorter than its header announces.
    Truncated,
}

} // verus!
