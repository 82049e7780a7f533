//! The execution context of one contract invocation: the guest's memory and
//! module, the gas meter, and who is calling.

use vstd::prelude::*;
use wasmi::{MemoryRef, ModuleRef};
use crate::abi::{to_signed, to_unsigned, unsigned};
use crate::errors::{GuestFault, WasmEngineError};
use crate::guest::{
    exports_memory,
    find_memory,
    invoke_export,
    memory_bytes,
    read_bytes,
    read_word,
    write_bytes,
    write_word,
    GuestValue,
};
use crate::region::{
    memory_after_write,
    region_payload,
    write_outcome,
    CAPACITY_OFFSET,
    LENGTH_OFFSET,
};

verus! {

/// Names the encrypted storage of one contract.
pub type ContractKey = [u8; 64];

/// The nonce that the caller sent with its message.
pub type IoNonce = [u8; 32];

/// The caller's public key.
pub type Ed25519PublicKey = [u8; 32];

/// The name under which a guest exports its linear memory.
pub const MEMORY_EXPORT: &'static str = "memory";

/// The name under which a guest exports its allocator.
pub const ALLOCATE_EXPORT: &'static str = "allocate";

/// One invocation of a contract.
///
/// The context does not copy the guest's memory: `memory` is the
/// interpreter's own handle, good for as long as the module instance lives.
pub struct ContractInstance {
    pub memory: MemoryRef,
    pub gas_limit: u64,
    /// Gas used by the interpreter.
    pub gas_used: u64,
    /// Gas used by external services, kept apart so that it is charged once.
    pub gas_used_externally: u64,
    pub contract_key: ContractKey,
    pub module: ModuleRef,
    pub user_nonce: IoNonce,
    pub user_public_key: Ed25519PublicKey,
}

/// What the guest's `allocate` gave, read as the offset of a fresh Region.
pub open spec fn allocation(returned: Option<GuestValue>) -> Result<u32, GuestFault> {
    match returned {
        Some(GuestValue::Int32(value)) => if value == 0 {
            Err(GuestFault::NullPointer)
        } else {
            Ok(unsigned(value))
        },
        _ => Err(GuestFault::UnexpectedValue),
    }
}

/// Reads what the guest's `allocate` gave: a 32-bit integer other than zero
/// is the offset of a Region, anything else is a failure.
pub fn allocation_result(returned: Option<GuestValue>) -> (region: Result<u32, GuestFault>)
    ensures
        region == allocation(returned),
        region matches Ok(offset) ==> offset != 0,
{
    match returned {
        Some(GuestValue::Int32(value)) => {
            if value == 0 {
                Err(GuestFault::NullPointer)
            } else {
                Ok(to_unsigned(value))
            }
        },
        _ => Err(GuestFault::UnexpectedValue),
    }
}

/// Whether `region` and the memory `after` are what handing `buffer` over
/// makes of the memory `before`, once the guest's allocator has answered
/// with `allocated`.
///
/// A failed allocation is passed on and the memory stays as the allocator
/// left it. Else the bytes are written through the Region that was
/// allocated: its offset comes back where the write succeeds, and
/// [`WasmEngineError::MemoryWriteError`] where it does not.
pub open spec fn written_through(
    before: Seq<u8>,
    allocated: Result<u32, WasmEngineError>,
    buffer: Seq<u8>,
    region: Result<u32, WasmEngineError>,
    after: Seq<u8>,
) -> bool {
    match allocated {
        Err(error) => region == Err::<u32, WasmEngineError>(error) && after == before,
        Ok(offset) => {
            &&& after == memory_after_write(before, offset, buffer)
            &&& region == match write_outcome(before, offset, buffer) {
                Ok(_) => Ok::<u32, WasmEngineError>(offset),
                Err(_) => Err::<u32, WasmEngineError>(WasmEngineError::MemoryWriteError),
            }
        },
    }
}

impl ContractInstance {
    /// The bytes of the guest's memory.
    pub open spec fn guest_memory(&self) -> Seq<u8> {
        memory_bytes(self.memory)
    }

    /// Gas used so far, from both sources, as it is held against the limit.
    pub open spec fn gas_spent(&self) -> u64 {
        self.gas_used.saturating_add(self.gas_used_externally)
    }

    /// Whether the invocation has used more gas than it may.
    pub open spec fn gas_depleted(&self) -> bool {
        self.gas_limit < self.gas_spent()
    }

    /// Whether `self` and `other` are the same invocation: the same module,
    /// limit and caller. Memory contents and gas used may differ.
    pub open spec fn same_invocation(&self, other: &Self) -> bool {
        &&& self.module == other.module
        &&& self.gas_limit == other.gas_limit
        &&& self.contract_key == other.contract_key
        &&& self.user_nonce == other.user_nonce
        &&& self.user_public_key == other.user_public_key
    }

    /// Whether `self` and `other` have used the same gas.
    pub open spec fn same_gas(&self, other: &Self) -> bool {
        &&& self.gas_used == other.gas_used
        &&& self.gas_used_externally == other.gas_used_externally
    }

    /// Starts an invocation of `module` with nothing yet charged.
    ///
    /// The module must export its linear memory under the name
    /// [`MEMORY_EXPORT`]; the context works on the handle that the module
    /// gives out under that name.
    pub fn new(
        module: ModuleRef,
        gas_limit: u64,
        contract_key: ContractKey,
        user_nonce: IoNonce,
        user_public_key: Ed25519PublicKey,
    ) -> (instance: Self)
        requires
            exports_memory(module, MEMORY_EXPORT@),
        ensures
            instance.module == module,
            instance.gas_limit == gas_limit,
            instance.gas_used == 0,
            instance.gas_used_externally == 0,
            instance.contract_key == contract_key,
            instance.user_nonce == user_nonce,
            instance.user_public_key == user_public_key,
    {
        let memory = match find_memory(&module, MEMORY_EXPORT) {
            Some(memory) => memory,
            None => vstd::pervasive::unreached(),
        };
        Self {
            memory,
            gas_limit,
            gas_used: 0,
            gas_used_externally: 0,
            contract_key,
            module,
            user_nonce,
            user_public_key,
        }
    }

    /// Starts an invocation of `module` as [`ContractInstance::new`] does,
    /// or gives `None` where the module exports no memory under the name
    /// [`MEMORY_EXPORT`].
    pub fn try_new(
        module: ModuleRef,
        gas_limit: u64,
        contract_key: ContractKey,
        user_nonce: IoNonce,
        user_public_key: Ed25519PublicKey,
    ) -> (started: Option<Self>)
        ensures
            started is Some <==> exports_memory(module, MEMORY_EXPORT@),
            started matches Some(instance) ==> {
                &&& instance.module == module
                &&& instance.gas_limit == gas_limit
                &&& instance.gas_used == 0
                &&& instance.gas_used_externally == 0
                &&& instance.contract_key == contract_key
                &&& instance.user_nonce == user_nonce
                &&& instance.user_public_key == user_public_key
            },
    {
        match find_memory(&module, MEMORY_EXPORT) {
            Some(_) => Some(Self::new(module, gas_limit, contract_key, user_nonce, user_public_key)),
            None => None,
        }
    }

    /// Copies the bytes that the Region at `vec_ptr_ptr` describes out of
    /// guest memory, or says why it cannot.
    pub fn extract_vector_inner(&self, vec_ptr_ptr: u32) -> (bytes: Result<Vec<u8>, GuestFault>)
        ensures
            match bytes {
                Ok(copy) => region_payload(self.guest_memory(), vec_ptr_ptr) == Ok::<
                    Seq<u8>,
                    GuestFault,
                >(copy@),
                Err(fault) => region_payload(self.guest_memory(), vec_ptr_ptr) == Err::<
                    Seq<u8>,
                    GuestFault,
                >(fault),
            },
    {
        let address = match read_word(&self.memory, vec_ptr_ptr) {
            Ok(address) => address,
            Err(_) => return Err(GuestFault::OutOfBounds),
        };
        if address == 0 {
            return Err(GuestFault::NullPointer);
        }
        let length_at = match vec_ptr_ptr.checked_add(LENGTH_OFFSET) {
            Some(offset) => offset,
            None => return Err(GuestFault::OutOfBounds),
        };
        let length = match read_word(&self.memory, length_at) {
            Ok(length) => length,
            Err(_) => return Err(GuestFault::OutOfBounds),
        };
        match read_bytes(&self.memory, address, length as usize) {
            Ok(copy) => Ok(copy),
            Err(_) => Err(GuestFault::OutOfBounds),
        }
    }

    /// Copies the bytes that the Region at `vec_ptr_ptr` describes out of
    /// guest memory.
    ///
    /// Fails with [`WasmEngineError::MemoryReadError`] exactly when the
    /// Region or its buffer lies outside the memory or its address is zero.
    pub fn extract_vector(&self, vec_ptr_ptr: u32) -> (bytes: Result<Vec<u8>, WasmEngineError>)
        ensures
            match bytes {
                Ok(copy) => region_payload(self.guest_memory(), vec_ptr_ptr) == Ok::<
                    Seq<u8>,
                    GuestFault,
                >(copy@),
                Err(error) => error == WasmEngineError::MemoryReadError && region_payload(
                    self.guest_memory(),
                    vec_ptr_ptr,
                ) is Err,
            },
    {
        match self.extract_vector_inner(vec_ptr_ptr) {
            Ok(copy) => Ok(copy),
            Err(_) => Err(WasmEngineError::MemoryReadError),
        }
    }

    /// Asks the guest for a buffer of `len` bytes and gives the offset of
    /// the Region that describes it, or says why there is none.
    ///
    /// The guest's own code runs here and decides the outcome; whatever it
    /// does, the offset that comes back is not zero, and no gas is charged.
    /// The guest runs without host functions: an allocator that calls back
    /// into the host traps, and the allocation fails.
    pub fn allocate_inner(&mut self, len: u32) -> (region: Result<u32, GuestFault>)
        ensures
            final(self).same_invocation(old(self)),
            final(self).same_gas(old(self)),
            region matches Ok(offset) ==> offset != 0,
            region matches Err(fault) ==> fault == GuestFault::AllocationFailed || fault
                == GuestFault::NullPointer || fault == GuestFault::UnexpectedValue,
    {
        match invoke_export(&self.module, &mut self.memory, ALLOCATE_EXPORT, to_signed(len)) {
            Ok(returned) => allocation_result(returned),
            Err(_) => Err(GuestFault::AllocationFailed),
        }
    }

    /// Asks the guest for a buffer of `len` bytes and gives the offset of
    /// the Region that describes it.
    ///
    /// The guest's own code runs here and decides the outcome; whatever it
    /// does, the offset that comes back is not zero, the only failure is
    /// [`WasmEngineError::MemoryAllocationError`], and no gas is charged.
    /// The guest runs without host functions: an allocator that calls back
    /// into the host traps, and the allocation fails.
    pub fn allocate(&mut self, len: u32) -> (region: Result<u32, WasmEngineError>)
        ensures
            final(self).same_invocation(old(self)),
            final(self).same_gas(old(self)),
            region matches Ok(offset) ==> offset != 0,
            region matches Err(error) ==> error == WasmEngineError::MemoryAllocationError,
    {
        match self.allocate_inner(len) {
            Ok(offset) => Ok(offset),
            Err(_) => Err(WasmEngineError::MemoryAllocationError),
        }
    }

    /// Writes `buffer` through the Region at `ptr_to_region_in_wasm_vm`: into
    /// its buffer, and the number of bytes into its length word. Gives the
    /// Region's offset back, or says why the write stopped.
    pub fn write_to_allocated_memory_inner(
        &mut self,
        buffer: &[u8],
        ptr_to_region_in_wasm_vm: u32,
    ) -> (region: Result<u32, GuestFault>)
        ensures
            region == write_outcome(old(self).guest_memory(), ptr_to_region_in_wasm_vm, buffer@),
            final(self).guest_memory() == memory_after_write(
                old(self).guest_memory(),
                ptr_to_region_in_wasm_vm,
                buffer@,
            ),
            final(self).same_invocation(old(self)),
            final(self).same_gas(old(self)),
    {
        let address = match read_word(&self.memory, ptr_to_region_in_wasm_vm) {
            Ok(address) => address,
            Err(_) => return Err(GuestFault::OutOfBounds),
        };
        if address == 0 {
            return Err(GuestFault::NullPointer);
        }
        let capacity_at = match ptr_to_region_in_wasm_vm.checked_add(CAPACITY_OFFSET) {
            Some(offset) => offset,
            None => return Err(GuestFault::OutOfBounds),
        };
        let capacity = match read_word(&self.memory, capacity_at) {
            Ok(capacity) => capacity,
            Err(_) => return Err(GuestFault::OutOfBounds),
        };
        if (capacity as usize) < buffer.len() {
            return Err(GuestFault::CapacityTooSmall);
        }
        match write_bytes(&mut self.memory, address, buffer) {
            Ok(()) => {},
            Err(_) => return Err(GuestFault::OutOfBounds),
        }
        let length_at = match ptr_to_region_in_wasm_vm.checked_add(LENGTH_OFFSET) {
            Some(offset) => offset,
            None => return Err(GuestFault::OutOfBounds),
        };
        match write_word(&mut self.memory, length_at, buffer.len() as u32) {
            Ok(()) => Ok(ptr_to_region_in_wasm_vm),
            Err(_) => Err(GuestFault::OutOfBounds),
        }
    }

    /// Writes `buffer` through the Region at `ptr_to_region_in_wasm_vm` and
    /// gives the Region's offset back.
    ///
    /// Fails with [`WasmEngineError::MemoryWriteError`] exactly when the
    /// Region lies outside the memory, its address is zero, its capacity is
    /// less than `buffer.len()`, or its buffer lies outside the memory.
    pub fn write_to_allocated_memory(&mut self, buffer: &[u8], ptr_to_region_in_wasm_vm: u32) -> (region:
        Result<u32, WasmEngineError>)
        ensures
            match region {
                Ok(offset) => offset == ptr_to_region_in_wasm_vm && write_outcome(
                    old(self).guest_memory(),
                    ptr_to_region_in_wasm_vm,
                    buffer@,
                ) is Ok,
                Err(error) => error == WasmEngineError::MemoryWriteError && write_outcome(
                    old(self).guest_memory(),
                    ptr_to_region_in_wasm_vm,
                    buffer@,
                ) is Err,
            },
            final(self).guest_memory() == memory_after_write(
                old(self).guest_memory(),
                ptr_to_region_in_wasm_vm,
                buffer@,
            ),
            final(self).same_invocation(old(self)),
            final(self).same_gas(old(self)),
    {
        match self.write_to_allocated_memory_inner(buffer, ptr_to_region_in_wasm_vm) {
            Ok(offset) => Ok(offset),
            Err(_) => Err(WasmEngineError::MemoryWriteError),
        }
    }

    /// Whether the memory of `self` and `region` are what handing `buffer`
    /// over to the guest can give: the guest's allocator answered with a
    /// Region other than zero or the allocation failed, it left some
    /// memory, and `buffer` was [written through](written_through) that
    /// answer into that memory.
    pub open spec fn transferred(&self, buffer: Seq<u8>, region: Result<u32, WasmEngineError>) -> bool {
        exists|allocated: Result<u32, WasmEngineError>, left: Seq<u8>|
            {
                &&& allocated matches Ok(offset) ==> offset != 0
                &&& allocated matches Err(error) ==> error
                    == WasmEngineError::MemoryAllocationError
                &&& #[trigger] written_through(left, allocated, buffer, region, self.guest_memory())
            }
    }

    /// Hands `buffer` over once the guest's allocator has answered with
    /// `allocated`: passes a failed allocation on and writes nothing, or
    /// writes the bytes through the Region that was allocated.
    pub fn write_through(&mut self, allocated: Result<u32, WasmEngineError>, buffer: &[u8]) -> (region:
        Result<u32, WasmEngineError>)
        ensures
            final(self).same_invocation(old(self)),
            final(self).same_gas(old(self)),
            written_through(
                old(self).guest_memory(),
                allocated,
                buffer@,
                region,
                final(self).guest_memory(),
            ),
    {
        match allocated {
            Ok(ptr_to_region_in_wasm_vm) => self.write_to_allocated_memory(
                buffer,
                ptr_to_region_in_wasm_vm,
            ),
            Err(error) => Err(error),
        }
    }

    /// Has the guest allocate a buffer for `buffer`, writes it there and
    /// gives the offset of the Region that describes it.
    ///
    /// The guest's allocator decides where the bytes go and whether they fit.
    /// Whatever it does, the result is what [`ContractInstance::write_through`]
    /// makes of the allocator's answer and of the memory that the allocator
    /// left: a failed allocation is reported as such and the host writes
    /// nothing; a success names a Region other than zero through which
    /// `buffer` was written. A buffer too long for a 32-bit length is
    /// refused before the guest runs. No gas is charged.
    pub fn write_to_memory(&mut self, buffer: &[u8]) -> (region: Result<u32, WasmEngineError>)
        ensures
            final(self).same_invocation(old(self)),
            final(self).same_gas(old(self)),
            buffer@.len() > u32::MAX ==> region == Err::<u32, WasmEngineError>(
                WasmEngineError::MemoryAllocationError,
            ) && final(self).guest_memory() == old(self).guest_memory(),
            final(self).transferred(buffer@, region),
            region matches Ok(offset) ==> offset != 0,
            region matches Err(error) ==> error == WasmEngineError::MemoryAllocationError || error
                == WasmEngineError::MemoryWriteError,
    {
        if buffer.len() > 0xffff_ffff {
            let refused = Err(WasmEngineError::MemoryAllocationError);
            proof {
                assert(written_through(
                    self.guest_memory(),
                    refused,
                    buffer@,
                    refused,
                    self.guest_memory(),
                ));
            }
            return refused;
        }
        let allocated = self.allocate(buffer.len() as u32);
        let ghost left = self.guest_memory();
        let region = self.write_through(allocated, buffer);
        proof {
            assert(written_through(left, allocated, buffer@, region, self.guest_memory()));
        }
        region
    }

    /// Charges `gas_amount` for work that the interpreter counted.
    ///
    /// The amount is added without wrapping; the call fails with
    /// [`WasmEngineError::OutOfGas`] exactly when the total then exceeds the
    /// limit.
    pub fn use_gas(&mut self, gas_amount: u64) -> (charged: Result<(), WasmEngineError>)
        ensures
            final(self).gas_used == old(self).gas_used.saturating_add(gas_amount),
            final(self).gas_used_externally == old(self).gas_used_externally,
            final(self).same_invocation(old(self)),
            final(self).memory == old(self).memory,
            charged is Err <==> final(self).gas_depleted(),
            charged matches Err(error) ==> error == WasmEngineError::OutOfGas,
    {
        self.gas_used = self.gas_used.saturating_add(gas_amount);
        self.check_gas_usage()
    }

    /// Charges `gas_amount` for work that an external service did.
    ///
    /// The amount is added without wrapping; the call fails with
    /// [`WasmEngineError::OutOfGas`] exactly when the total then exceeds the
    /// limit.
    pub fn use_gas_externally(&mut self, gas_amount: u64) -> (charged: Result<
        (),
        WasmEngineError,
    >)
        ensures
            final(self).gas_used == old(self).gas_used,
            final(self).gas_used_externally == old(self).gas_used_externally.saturating_add(
                gas_amount,
            ),
            final(self).same_invocation(old(self)),
            final(self).memory == old(self).memory,
            charged is Err <==> final(self).gas_depleted(),
            charged matches Err(error) ==> error == WasmEngineError::OutOfGas,
    {
        self.gas_used_externally = self.gas_used_externally.saturating_add(gas_amount);
        self.check_gas_usage()
    }

    /// Fails with [`WasmEngineError::OutOfGas`] exactly when more gas is
    /// used than the limit allows.
    pub fn check_gas_usage(&self) -> (checked: Result<(), WasmEngineError>)
        ensures
            checked is Err <==> self.gas_depleted(),
            checked matches Err(error) ==> error == WasmEngineError::OutOfGas,
    {
        if self.is_gas_depleted() {
            Err(WasmEngineError::OutOfGas)
        } else {
            Ok(())
        }
    }

    /// Whether more gas is used, from both sources together, than the limit
    /// allows.
    pub fn is_gas_depleted(&self) -> (depleted: bool)
        ensures
            depleted == self.gas_depleted(),
    {
        self.gas_limit < self.gas_used.saturating_add(self.gas_used_externally)
    }
}

} // verus!
