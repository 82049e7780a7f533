//! The interpreter, as far as the host calls reach into it.
//!
//! The guest's linear memory and its module instance belong to the `wasmi`
//! interpreter. Nothing in this file is proved: each function below makes one
//! call into the interpreter and states what that call does, in terms of the
//! bytes that the memory holds. The rest of the crate is proved against these
//! statements.
//!
//! The interpreter shares a memory by handle and writes to it through shared
//! references. Here every call that can change the memory takes the handle
//! by `&mut`, the guest's own code included, so that what is known of the
//! bytes is given up wherever they may have changed. That holds for as long
//! as the guest runs only through these calls while a context is in use.

use vstd::prelude::*;
use wasmi::{ExternVal, MemoryRef, ModuleRef, NopExternals, RuntimeValue};
use crate::region::{in_bounds, le_bytes, le_u32, store};

verus! {

/// `wasmi::MemoryRef`, a shared handle to a guest's linear memory.
#[verifier::external_type_specification]
#[verifier::external_body]
pub struct ExMemoryRef(wasmi::MemoryRef);

/// `wasmi::ModuleRef`, a shared handle to an instantiated guest module.
#[verifier::external_type_specification]
#[verifier::external_body]
pub struct ExModuleRef(wasmi::ModuleRef);

/// `wasmi::Error`, the interpreter's own account of a failure.
#[verifier::external_type_specification]
#[verifier::external_body]
pub struct ExInterpreterError(wasmi::Error);

/// The bytes that a guest memory holds, in address order.
pub uninterp spec fn memory_bytes(memory: MemoryRef) -> Seq<u8>;

/// Whether a module exports a memory under `name`. A module's exports are
/// fixed when it is instantiated.
pub uninterp spec fn exports_memory(module: ModuleRef, name: Seq<char>) -> bool;

/// What a call into the guest handed back.
#[derive(Clone, Copy, Debug, PartialEq, Eq)]
pub enum GuestValue {
    /// A 32-bit integer.
    Int32(i32),
    /// A 64-bit integer.
    Int64(i64),
    /// A 32-bit floating-point number.
    Float32,
    /// A 64-bit floating-point number.
    Float64,
}

/// `wasmi::ModuleInstance::export_by_name`.
///
/// Claims that a handle comes back exactly where the module exports a
/// memory under `name`, and `None` where it exports nothing or something
/// else under it. Nothing is claimed of which handle comes back, nor of the
/// bytes behind it.
#[verifier::external_body]
pub(crate) fn find_memory(module: &ModuleRef, name: &str) -> (found: Option<MemoryRef>)
    ensures
        found is Some <==> exports_memory(*module, name@),
{
    match module.export_by_name(name) {
        Some(ExternVal::Memory(memory)) => Some(memory),
        Some(ExternVal::Func(_)) => None,
        Some(ExternVal::Table(_)) => None,
        Some(ExternVal::Global(_)) => None,
        None => None,
    }
}

/// `wasmi::MemoryInstance::get_value::<u32>`.
///
/// Claims that the read succeeds exactly when four bytes at `offset` lie
/// inside the memory, and then gives the little-endian word stored there.
#[verifier::external_body]
pub(crate) fn read_word(memory: &MemoryRef, offset: u32) -> (word: Result<u32, wasmi::Error>)
    ensures
        word is Ok <==> in_bounds(memory_bytes(*memory), offset as int, 4),
        word matches Ok(value) ==> value == le_u32(
            memory_bytes(*memory).subrange(offset as int, offset + 4),
        ),
{
    memory.get_value::<u32>(offset)
}

/// `wasmi::MemoryInstance::get`.
///
/// Claims that the read succeeds exactly when `size` bytes at `offset` lie
/// inside the memory, and then gives a copy of those bytes.
#[verifier::external_body]
pub(crate) fn read_bytes(memory: &MemoryRef, offset: u32, size: usize) -> (bytes: Result<
    Vec<u8>,
    wasmi::Error,
>)
    ensures
        bytes is Ok <==> in_bounds(memory_bytes(*memory), offset as int, size as int),
        bytes matches Ok(copy) ==> copy@ == memory_bytes(*memory).subrange(
            offset as int,
            offset + size,
        ),
{
    memory.get(offset, size)
}

/// `wasmi::MemoryInstance::set`.
///
/// Claims that the write succeeds exactly when the bytes fit inside the
/// memory at `offset`, that it then stores them there and touches nothing
/// else, and that a refused write leaves the memory as it was.
#[verifier::external_body]
pub(crate) fn write_bytes(memory: &mut MemoryRef, offset: u32, bytes: &[u8]) -> (done: Result<
    (),
    wasmi::Error,
>)
    ensures
        done is Ok <==> in_bounds(memory_bytes(*old(memory)), offset as int, bytes@.len() as int),
        done is Ok ==> memory_bytes(*final(memory)) == store(
            memory_bytes(*old(memory)),
            offset as int,
            bytes@,
        ),
        done is Err ==> memory_bytes(*final(memory)) == memory_bytes(*old(memory)),
{
    memory.set(offset, bytes)
}

/// `wasmi::MemoryInstance::set_value::<u32>`.
///
/// Claims that the write succeeds exactly when four bytes fit inside the
/// memory at `offset`, that it then stores `value` there as a little-endian
/// word and touches nothing else, and that a refused write leaves the memory
/// as it was.
#[verifier::external_body]
pub(crate) fn write_word(memory: &mut MemoryRef, offset: u32, value: u32) -> (done: Result<
    (),
    wasmi::Error,
>)
    ensures
        done is Ok <==> in_bounds(memory_bytes(*old(memory)), offset as int, 4),
        done is Ok ==> memory_bytes(*final(memory)) == store(
            memory_bytes(*old(memory)),
            offset as int,
            le_bytes(value),
        ),
        done is Err ==> memory_bytes(*final(memory)) == memory_bytes(*old(memory)),
{
    memory.set_value::<u32>(offset, value)
}

/// `wasmi::ModuleInstance::invoke_export`, with one 32-bit argument and no
/// host functions to call back.
///
/// The guest's code runs: it may write anywhere in its memory and may grow
/// it, so nothing is claimed of the memory afterwards, nor of what comes
/// back. A guest that calls a host function from inside the export traps.
#[verifier::external_body]
#[allow(unused_variables)]
pub(crate) fn invoke_export(
    module: &ModuleRef,
    memory: &mut MemoryRef,
    name: &str,
    argument: i32,
) -> (returned: Result<Option<GuestValue>, wasmi::Error>) {
    match module.invoke_export(name, &[RuntimeValue::I32(argument)], &mut NopExternals) {
        Ok(Some(RuntimeValue::I32(value))) => Ok(Some(GuestValue::Int32(value))),
        Ok(Some(RuntimeValue::I64(value))) => Ok(Some(GuestValue::Int64(value))),
        Ok(Some(RuntimeValue::F32(_))) => Ok(Some(GuestValue::Float32)),
        Ok(Some(RuntimeValue::F64(_))) => Ok(Some(GuestValue::Float64)),
        Ok(None) => Ok(None),
        Err(error) => Err(error),
    }
}

} // verus!
