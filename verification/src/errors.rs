use crate::memory::Region;
use vstd::prelude::*;

verus! {

/// Why a region record was rejected, with the values that broke the rule.
#[derive(Clone, Copy, Debug, PartialEq, Eq)]
pub enum RegionValidationError {
    /// The offset is zero, which stands for "no region".
    ZeroOffset,
    /// More bytes are said to be in use than were allocated.
    LengthExceedsCapacity { length: u32, capacity: u32 },
    /// The region would reach past the end of the 32-bit address space.
    OutOfRange { offset: u32, capacity: u32 },
}

/// What the host was trying to reach when a pointer did not resolve.
#[derive(Clone, Copy, Debug, PartialEq, Eq)]
pub enum DerefContext {
    /// The pointer was taken as the address of a region record.
    RegionRecord,
    /// The pointer is the offset of `region`, whose bytes do not all lie inside a
    /// memory of `memory_size` bytes. This typically happens when the pointer that
    /// led here did not point to a proper region record.
    RegionData { region: Region, memory_size: u64 },
}

/// A failure at the boundary between host and guest memory.
#[derive(Clone, Copy, Debug, PartialEq, Eq)]
pub enum CommunicationError {
    /// The pointer does not resolve to addressable guest memory.
    DerefError { pointer: u32, context: DerefContext },
    /// The record that the pointer led to is not a well-formed region.
    InvalidRegion { source: RegionValidationError },
    /// The guest offers more bytes than the host is willing to copy.
    RegionTooBig { actual: usize, max: usize },
    /// The guest's buffer cannot take what the host wants to write.
    RegionTooSmall { capacity: usize, requested: usize },
}

/// A failure of an operation on a guest instance.
#[derive(Clone, Debug, PartialEq, Eq)]
pub enum VmError {
    /// Guest memory could not be read or written as asked.
    Communication { source: CommunicationError },
    /// The call was cut short because the metering budget ran out.
    GasDepletion,
    /// The instance exports no linear memory.
    MissingMemory,
    /// What the instance exports here is not its own: it was added to the exports
    /// from elsewhere and the engine does not hold it together with the instance.
    ForeignExport,
    /// The instance exports no function of this name.
    ResolveError { name: String },
    /// The guest trapped for a reason other than an exhausted budget.
    RuntimeError { msg: String },
}

pub type RegionValidationResult<T> = Result<T, RegionValidationError>;

pub type CommunicationResult<T> = Result<T, CommunicationError>;

pub type VmResult<T> = Result<T, VmError>;

impl CommunicationError {
    /// The execution error that carries this failure.
    pub fn into_vm_error(self) -> (error: VmError)
        ensures
            error == (VmError::Communication { source: self }),
    {
        VmError::Communication { source: self }
    }
}

impl RegionValidationError {
    /// The boundary failure that carries this rejection.
    pub fn into_communication_error(self) -> (error: CommunicationError)
        ensures
            error == (CommunicationError::InvalidRegion { source: self }),
    {
        CommunicationError::InvalidRegion { source: self }
    }
}

} // verus!
