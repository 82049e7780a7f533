//! What can go wrong in a host call.

use vstd::prelude::*;

verus! {

/// Why a transfer between host and guest memory did not happen.
///
/// This is the reason behind a [`WasmEngineError`] of the memory kind, kept
/// for diagnostics: the guest only ever learns that the call failed.
#[derive(Clone, Copy, Debug, PartialEq, Eq, Structural)]
pub enum GuestFault {
    /// A Region, or the buffer it names, does not lie inside guest memory.
    OutOfBounds,
    /// A Region names address zero, or the guest allocated at address zero.
    NullPointer,
    /// The destination buffer is smaller than what was to be written.
    CapacityTooSmall,
    /// The guest's `allocate` could not be called, or trapped.
    AllocationFailed,
    /// The guest's `allocate` returned something else than a 32-bit integer.
    UnexpectedValue,
}

/// A failure that ends the current invocation.
#[derive(Clone, Copy, Debug, PartialEq, Eq, Structural)]
pub enum WasmEngineError {
    /// A buffer could not be read out of guest memory.
    MemoryReadError,
    /// A buffer could not be written into guest memory.
    MemoryWriteError,
    /// The guest could not provide a buffer for a result.
    MemoryAllocationError,
    /// The gas limit is exceeded.
    OutOfGas,
    /// The encrypted storage failed.
    StorageError,
    /// The query to another module failed.
    QueryError,
}

/// Why an address could not be converted. The guest receives the code.
#[derive(Clone, Copy, Debug, PartialEq, Eq, Structural)]
pub enum AddressError {
    /// The address text is not UTF-8.
    InvalidUtf8,
    /// The address text is empty once surrounding whitespace is removed.
    Empty,
    /// The address text is not a checksummed address.
    InvalidEncoding,
    /// The address belongs to another network.
    WrongPrefix,
    /// The data part of the address does not spell whole bytes.
    InvalidPayload,
    /// The canonical bytes could not be put into text.
    EncodingFailed,
}

impl AddressError {
    /// The status that the guest receives for this failure.
    pub open spec fn spec_code(self) -> i32 {
        match self {
            AddressError::InvalidUtf8 => -1i32,
            AddressError::Empty => -2i32,
            AddressError::InvalidEncoding => -3i32,
            AddressError::WrongPrefix => -4i32,
            AddressError::InvalidPayload => -5i32,
            AddressError::EncodingFailed => -1i32,
        }
    }

    /// The status that the guest receives for this failure: always negative.
    #[verifier::when_used_as_spec(spec_code)]
    pub fn code(self) -> (code: i32)
        ensures
            code == self.spec_code(),
            code < 0,
    {
        match self {
            AddressError::InvalidUtf8 => -1i32,
            AddressError::Empty => -2i32,
            AddressError::InvalidEncoding => -3i32,
            AddressError::WrongPrefix => -4i32,
            AddressError::InvalidPayload => -5i32,
            AddressError::EncodingFailed => -1i32,
        }
    }
}

} // verus!
