//! The host calls: what a guest can ask of its host.
//!
//! Every call takes raw offsets into guest memory, never bytes. It copies
//! its inputs out of guest memory, refuses to go on if the gas is already
//! used up, and only then does its work.
//!
//! A failure either ends the invocation or reaches the guest as a negative
//! status. Gas that is used up always ends the invocation. A Region that
//! cannot be read or written ends it too, except in `humanize_address`,
//! whose one failure status stands for every failure.
//!
//! The encrypted storage and the query transport are not part of this
//! crate. A call that needs one of them comes in two steps. The first step
//! reads the inputs and says what to ask; the embedder asks; the second step
//! takes the answer with its cost, charges the cost, and decides what the
//! guest receives. An answer whose cost exceeds the limit ends the invocation:
//! the embedder must then discard whatever the service did.

use vstd::prelude::*;
use crate::abi::{sign_extended, to_sign_extended, to_signed, to_unsigned, unsigned};
use crate::address::{
    canonical_address,
    canonicalize,
    codec_restores,
    human_address,
    humanize,
    lemma_round_trip_given_codec,
};
use crate::errors::WasmEngineError;
use crate::instance::ContractInstance;
use crate::region::{
    buffer_clear_of_region,
    lemma_write_then_extract,
    memory_after_write,
    region_payload,
    write_outcome,
};
use crate::text::trimmed;

verus! {

/// What a lookup in an external service gave: the value, if there is one,
/// and the gas that the lookup cost; or the failure of the service.
pub type LookupReply = Result<(Option<Vec<u8>>, u64), WasmEngineError>;

/// What a change made by an external service cost, or the failure of the
/// service.
pub type UpdateReply = Result<u64, WasmEngineError>;

/// What a host call hands back to the interpreter: a status or an offset
/// for the guest, nothing where the guest expects nothing, or the failure
/// that ends the invocation.
pub type HostResult = Result<Option<i32>, WasmEngineError>;

/// The status that `humanize_address` gives the guest for a failure.
pub const HUMANIZE_FAILED: i32 = -1;

/// Whether what an external service did for a call must be undone, given
/// what the call's second step returned: exactly where the cost of the
/// service's work exceeded the gas limit.
pub fn must_discard(result: &HostResult) -> (discard: bool)
    ensures
        discard == (*result == Err::<Option<i32>, WasmEngineError>(WasmEngineError::OutOfGas)),
{
    match result {
        Err(WasmEngineError::OutOfGas) => true,
        _ => false,
    }
}

impl ContractInstance {
    /// The bytes that a host call reads through the Region at `ptr`, or the
    /// failure that stops the call before it does anything: a Region that
    /// cannot be read, or gas that is already used up.
    pub open spec fn input(&self, ptr: i32) -> Result<Seq<u8>, WasmEngineError> {
        match region_payload(self.guest_memory(), unsigned(ptr)) {
            Err(_) => Err(WasmEngineError::MemoryReadError),
            Ok(bytes) => if self.gas_depleted() {
                Err(WasmEngineError::OutOfGas)
            } else {
                Ok(bytes)
            },
        }
    }

    /// The two byte strings that a host call reads through the Regions at
    /// `first` and `second`, in that order, or the failure that stops the
    /// call before it does anything.
    pub open spec fn input_pair(&self, first: i32, second: i32) -> Result<
        (Seq<u8>, Seq<u8>),
        WasmEngineError,
    > {
        match region_payload(self.guest_memory(), unsigned(first)) {
            Err(_) => Err(WasmEngineError::MemoryReadError),
            Ok(one) => match self.input(second) {
                Err(error) => Err(error),
                Ok(other) => Ok((one, other)),
            },
        }
    }

    /// What both sources have used, added up without a bound.
    pub open spec fn gas_total(&self) -> int {
        self.gas_used + self.gas_used_externally
    }

    /// Whether `self` has used at least as much gas of each kind as
    /// `before`.
    pub open spec fn gas_not_less_than(&self, before: &Self) -> bool {
        &&& self.gas_used >= before.gas_used
        &&& self.gas_used_externally >= before.gas_used_externally
    }

    /// Whether `result` is what a guest receives for `value` once the host
    /// has handed it over through a buffer of the guest's own allocator, as
    /// [`ContractInstance::write_to_memory`] does: the offset, never zero, of
    /// the Region that the transfer gave, or the failure of the transfer.
    pub open spec fn delivered(&self, value: Seq<u8>, result: HostResult) -> bool {
        match result {
            Ok(Some(status)) => status != 0 && self.transferred(
                value,
                Ok::<u32, WasmEngineError>(unsigned(status)),
            ),
            Ok(None) => false,
            Err(error) => self.transferred(value, Err::<u32, WasmEngineError>(error)),
        }
    }

    /// Whether `self` and `result` are what answering a lookup with `reply`
    /// makes of `before`.
    ///
    /// A failure of the service is passed on and changes nothing. Else the
    /// reported gas is charged to the external total. Where that exceeds
    /// the limit the call fails and the guest's memory stays as it was. Else
    /// a lookup that found nothing gives the status `0` and leaves the
    /// memory as it was, and a value, empty or not, is
    /// [delivered](ContractInstance::delivered).
    pub open spec fn answers_lookup(&self, before: &Self, reply: LookupReply, result: HostResult) -> bool {
        match reply {
            Err(error) => {
                &&& result == Err::<Option<i32>, WasmEngineError>(error)
                &&& self.same_gas(before)
                &&& self.guest_memory() == before.guest_memory()
            },
            Ok((value, gas)) => {
                &&& self.gas_used_externally == before.gas_used_externally.saturating_add(gas)
                &&& if self.gas_depleted() {
                    &&& result == Err::<Option<i32>, WasmEngineError>(WasmEngineError::OutOfGas)
                    &&& self.guest_memory() == before.guest_memory()
                } else {
                    match value {
                        None => {
                            &&& result == Ok::<Option<i32>, WasmEngineError>(Some(0i32))
                            &&& self.guest_memory() == before.guest_memory()
                        },
                        Some(found) => self.delivered(found@, result),
                    }
                }
            },
        }
    }

    /// Whether `self` and `result` are what answering a change with `reply`
    /// makes of `before`.
    ///
    /// A failure of the service is passed on and changes nothing. Else the
    /// reported gas is charged to the external total; the call fails
    /// exactly where that exceeds the limit, and else the guest receives
    /// nothing.
    pub open spec fn answers_update(&self, before: &Self, reply: UpdateReply, result: HostResult) -> bool {
        match reply {
            Err(error) => {
                &&& result == Err::<Option<i32>, WasmEngineError>(error)
                &&& self.same_gas(before)
            },
            Ok(gas) => {
                &&& self.gas_used_externally == before.gas_used_externally.saturating_add(gas)
                &&& result == if self.gas_depleted() {
                    Err::<Option<i32>, WasmEngineError>(WasmEngineError::OutOfGas)
                } else {
                    Ok::<Option<i32>, WasmEngineError>(None)
                }
            },
        }
    }

    /// Copies the input of a host call out of guest memory and refuses to
    /// go on where the gas is used up.
    fn take_input(&self, ptr: i32) -> (bytes: Result<Vec<u8>, WasmEngineError>)
        ensures
            match bytes {
                Ok(copy) => self.input(ptr) == Ok::<Seq<u8>, WasmEngineError>(copy@),
                Err(error) => self.input(ptr) == Err::<Seq<u8>, WasmEngineError>(error),
            },
    {
        let copy = match self.extract_vector(to_unsigned(ptr)) {
            Ok(copy) => copy,
            Err(error) => return Err(error),
        };
        match self.check_gas_usage() {
            Ok(()) => Ok(copy),
            Err(error) => Err(error),
        }
    }

    /// Charges what a service reported and hands a value it found to the
    /// guest.
    fn deliver(&mut self, reply: LookupReply) -> (result: HostResult)
        ensures
            final(self).same_invocation(old(self)),
            final(self).gas_not_less_than(old(self)),
            final(self).gas_used == old(self).gas_used,
            old(self).gas_depleted() ==> result is Err,
            final(self).answers_lookup(old(self), reply, result),
    {
        let (value, gas) = match reply {
            Ok(answer) => answer,
            Err(error) => return Err(error),
        };
        match self.use_gas_externally(gas) {
            Ok(()) => {},
            Err(error) => return Err(error),
        }
        let found = match value {
            Some(found) => found,
            None => return Ok(Some(0)),
        };
        match self.write_to_memory(found.as_slice()) {
            Ok(offset) => {
                proof {
                    crate::abi::lemma_sign_round_trip(0, offset);
                }
                Ok(Some(to_signed(offset)))
            },
            Err(error) => Err(error),
        }
    }

    /// Charges what a service reported for a change it made.
    fn settle(&mut self, reply: UpdateReply) -> (result: HostResult)
        ensures
            final(self).same_invocation(old(self)),
            final(self).gas_not_less_than(old(self)),
            final(self).gas_used == old(self).gas_used,
            final(self).memory == old(self).memory,
            old(self).gas_depleted() ==> result is Err,
            final(self).answers_update(old(self), reply, result),
    {
        let gas = match reply {
            Ok(gas) => gas,
            Err(error) => return Err(error),
        };
        match self.use_gas_externally(gas) {
            Ok(()) => Ok(None),
            Err(error) => Err(error),
        }
    }

    /// `read_db`, first step: the key that the guest asks for.
    ///
    /// The key is read through the Region at `state_key_ptr_ptr`. The call
    /// stops with [`WasmEngineError::MemoryReadError`] where that Region
    /// cannot be read, else with [`WasmEngineError::OutOfGas`] where the gas
    /// is used up; the storage is then not to be asked.
    pub fn read_db_index(&self, state_key_ptr_ptr: i32) -> (key: Result<Vec<u8>, WasmEngineError>)
        ensures
            self.gas_depleted() ==> key is Err,
            match key {
                Ok(name) => self.input(state_key_ptr_ptr) == Ok::<Seq<u8>, WasmEngineError>(name@),
                Err(error) => self.input(state_key_ptr_ptr) == Err::<Seq<u8>, WasmEngineError>(
                    error,
                ),
            },
    {
        self.take_input(state_key_ptr_ptr)
    }

    /// `read_db`, second step: what the guest receives once the storage has
    /// answered.
    ///
    /// A failure of the storage ends the invocation and charges nothing.
    /// Else the reported gas is charged, and the invocation ends with
    /// [`WasmEngineError::OutOfGas`] where that exceeds the limit. Else a key
    /// that the storage does not hold gives the status `0`, and a value,
    /// empty or not, gives the offset of a Region that holds it, which is
    /// never `0`.
    pub fn read_db_reply(&mut self, reply: LookupReply) -> (result: HostResult)
        ensures
            final(self).same_invocation(old(self)),
            final(self).gas_not_less_than(old(self)),
            final(self).gas_used == old(self).gas_used,
            old(self).gas_depleted() ==> result is Err,
            final(self).answers_lookup(old(self), reply, result),
    {
        self.deliver(reply)
    }

    /// `remove_db`, first step: the key that the guest wants removed.
    ///
    /// The key is read through the Region at `state_key_ptr_ptr`. The call
    /// stops with [`WasmEngineError::MemoryReadError`] where that Region
    /// cannot be read, else with [`WasmEngineError::OutOfGas`] where the gas
    /// is used up; the storage is then not to be touched.
    pub fn remove_db_index(&self, state_key_ptr_ptr: i32) -> (key: Result<
        Vec<u8>,
        WasmEngineError,
    >)
        ensures
            self.gas_depleted() ==> key is Err,
            match key {
                Ok(name) => self.input(state_key_ptr_ptr) == Ok::<Seq<u8>, WasmEngineError>(name@),
                Err(error) => self.input(state_key_ptr_ptr) == Err::<Seq<u8>, WasmEngineError>(
                    error,
                ),
            },
    {
        self.take_input(state_key_ptr_ptr)
    }

    /// `remove_db`, second step: charges what the removal cost.
    ///
    /// A failure of the storage ends the invocation and charges nothing.
    /// Else the reported gas is charged; the invocation ends with
    /// [`WasmEngineError::OutOfGas`] exactly where that exceeds the limit,
    /// and the removal must then not stand. The guest receives nothing.
    pub fn remove_db_reply(&mut self, reply: UpdateReply) -> (result: HostResult)
        ensures
            final(self).same_invocation(old(self)),
            final(self).gas_not_less_than(old(self)),
            final(self).gas_used == old(self).gas_used,
            final(self).memory == old(self).memory,
            old(self).gas_depleted() ==> result is Err,
            final(self).answers_update(old(self), reply, result),
    {
        self.settle(reply)
    }

    /// `write_db`, first step: the key and the value that the guest wants
    /// stored.
    ///
    /// The key is read through the Region at `state_key_ptr_ptr`, then the
    /// value through the one at `value_ptr_ptr`. The call stops with
    /// [`WasmEngineError::MemoryReadError`] where either cannot be read, else
    /// with [`WasmEngineError::OutOfGas`] where the gas is used up; the
    /// storage is then not to be touched.
    pub fn write_db_index(&self, state_key_ptr_ptr: i32, value_ptr_ptr: i32) -> (entry: Result<
        (Vec<u8>, Vec<u8>),
        WasmEngineError,
    >)
        ensures
            self.gas_depleted() ==> entry is Err,
            match entry {
                Ok((name, value)) => self.input_pair(state_key_ptr_ptr, value_ptr_ptr) == Ok::<
                    (Seq<u8>, Seq<u8>),
                    WasmEngineError,
                >((name@, value@)),
                Err(error) => self.input_pair(state_key_ptr_ptr, value_ptr_ptr) == Err::<
                    (Seq<u8>, Seq<u8>),
                    WasmEngineError,
                >(error),
            },
    {
        let name = match self.extract_vector(to_unsigned(state_key_ptr_ptr)) {
            Ok(name) => name,
            Err(error) => return Err(error),
        };
        let value = match self.take_input(value_ptr_ptr) {
            Ok(value) => value,
            Err(error) => return Err(error),
        };
        Ok((name, value))
    }

    /// `write_db`, second step: charges what the write cost.
    ///
    /// A failure of the storage ends the invocation and charges nothing.
    /// Else the reported gas is charged; the invocation ends with
    /// [`WasmEngineError::OutOfGas`] exactly where that exceeds the limit,
    /// and the write must then not stand. The guest receives nothing.
    pub fn write_db_reply(&mut self, reply: UpdateReply) -> (result: HostResult)
        ensures
            final(self).same_invocation(old(self)),
            final(self).gas_not_less_than(old(self)),
            final(self).gas_used == old(self).gas_used,
            final(self).memory == old(self).memory,
            old(self).gas_depleted() ==> result is Err,
            final(self).answers_update(old(self), reply, result),
    {
        self.settle(reply)
    }

    /// `canonicalize_address`: reads the text of an address through the
    /// Region at `human_ptr_ptr` and writes its canonical bytes through the
    /// one at `canonical_ptr_ptr`.
    ///
    /// The guest receives `0`, or the code of the
    /// [`AddressError`](crate::errors::AddressError) that the text runs
    /// into; in that case nothing is written. No code stands for a Region
    /// that cannot be read or written: like gas that is used up, it ends the
    /// invocation, with [`WasmEngineError::MemoryReadError`] or
    /// [`WasmEngineError::MemoryWriteError`]. No gas is charged.
    pub fn canonicalize_address_index(&mut self, human_ptr_ptr: i32, canonical_ptr_ptr: i32) -> (result:
        HostResult)
        ensures
            final(self).same_invocation(old(self)),
            final(self).same_gas(old(self)),
            old(self).gas_depleted() ==> result is Err,
            match old(self).input(human_ptr_ptr) {
                Err(error) => {
                    &&& result == Err::<Option<i32>, WasmEngineError>(error)
                    &&& final(self).guest_memory() == old(self).guest_memory()
                },
                Ok(human) => match canonical_address(human) {
                    Err(error) => {
                        &&& result == Ok::<Option<i32>, WasmEngineError>(Some(error.spec_code()))
                        &&& final(self).guest_memory() == old(self).guest_memory()
                    },
                    Ok(canonical) => {
                        &&& final(self).guest_memory() == memory_after_write(
                            old(self).guest_memory(),
                            unsigned(canonical_ptr_ptr),
                            canonical,
                        )
                        &&& result == match write_outcome(
                            old(self).guest_memory(),
                            unsigned(canonical_ptr_ptr),
                            canonical,
                        ) {
                            Ok(_) => Ok::<Option<i32>, WasmEngineError>(Some(0i32)),
                            Err(_) => Err::<Option<i32>, WasmEngineError>(
                                WasmEngineError::MemoryWriteError,
                            ),
                        }
                    },
                },
            },
    {
        let human = match self.take_input(human_ptr_ptr) {
            Ok(human) => human,
            Err(error) => return Err(error),
        };
        let canonical = match canonicalize(human.as_slice()) {
            Ok(canonical) => canonical,
            Err(error) => return Ok(Some(error.code())),
        };
        match self.write_to_allocated_memory(canonical.as_slice(), to_unsigned(canonical_ptr_ptr)) {
            Ok(_) => Ok(Some(0)),
            Err(error) => Err(error),
        }
    }

    /// `humanize_address`: reads canonical bytes through the Region at
    /// `canonical_ptr_ptr` and writes the text of their address through the
    /// one at `human_ptr_ptr`.
    ///
    /// Gas that is used up ends the invocation, whatever the Regions hold.
    /// Else the guest receives `0`, or [`HUMANIZE_FAILED`] where the bytes
    /// cannot be read or the text cannot be written: a Region outside the
    /// memory, a null address, too little capacity. The memory changes only
    /// as the write through the output Region changes it. No gas is charged.
    pub fn humanize_address_index(&mut self, canonical_ptr_ptr: i32, human_ptr_ptr: i32) -> (result:
        HostResult)
        ensures
            final(self).same_invocation(old(self)),
            final(self).same_gas(old(self)),
            old(self).gas_depleted() ==> {
                &&& result == Err::<Option<i32>, WasmEngineError>(WasmEngineError::OutOfGas)
                &&& final(self).guest_memory() == old(self).guest_memory()
            },
            !old(self).gas_depleted() ==> match region_payload(
                old(self).guest_memory(),
                unsigned(canonical_ptr_ptr),
            ) {
                Err(_) => {
                    &&& result == Ok::<Option<i32>, WasmEngineError>(Some(HUMANIZE_FAILED))
                    &&& final(self).guest_memory() == old(self).guest_memory()
                },
                Ok(canonical) => {
                    &&& final(self).guest_memory() == memory_after_write(
                        old(self).guest_memory(),
                        unsigned(human_ptr_ptr),
                        vstd::utf8::encode_utf8(human_address(canonical)),
                    )
                    &&& result == match write_outcome(
                        old(self).guest_memory(),
                        unsigned(human_ptr_ptr),
                        vstd::utf8::encode_utf8(human_address(canonical)),
                    ) {
                        Ok(_) => Ok::<Option<i32>, WasmEngineError>(Some(0i32)),
                        Err(_) => Ok::<Option<i32>, WasmEngineError>(Some(HUMANIZE_FAILED)),
                    }
                },
            },
    {
        match self.check_gas_usage() {
            Ok(()) => {},
            Err(error) => return Err(error),
        }
        let canonical = match self.extract_vector(to_unsigned(canonical_ptr_ptr)) {
            Ok(canonical) => canonical,
            Err(_) => return Ok(Some(HUMANIZE_FAILED)),
        };
        let human = match humanize(canonical.as_slice()) {
            Ok(human) => human,
            Err(error) => return Ok(Some(error.code())),
        };
        match self.write_to_allocated_memory(human.as_str().as_bytes(), to_unsigned(human_ptr_ptr)) {
            Ok(_) => Ok(Some(0)),
            Err(_) => Ok(Some(HUMANIZE_FAILED)),
        }
    }

    /// `query_chain`, first step: the query that the guest sends.
    ///
    /// The query is read through the Region at `query_ptr_ptr`. The call
    /// stops with [`WasmEngineError::MemoryReadError`] where that Region
    /// cannot be read, else with [`WasmEngineError::OutOfGas`] where the gas
    /// is used up; the query is then not to be sent.
    pub fn query_chain_index(&self, query_ptr_ptr: i32) -> (query: Result<Vec<u8>, WasmEngineError>)
        ensures
            self.gas_depleted() ==> query is Err,
            match query {
                Ok(payload) => self.input(query_ptr_ptr) == Ok::<Seq<u8>, WasmEngineError>(
                    payload@,
                ),
                Err(error) => self.input(query_ptr_ptr) == Err::<Seq<u8>, WasmEngineError>(error),
            },
    {
        self.take_input(query_ptr_ptr)
    }

    /// `query_chain`, second step: what the guest receives once the query
    /// has been answered.
    ///
    /// A failure of the query ends the invocation and charges nothing. Else
    /// the reported gas is charged, and the invocation ends with
    /// [`WasmEngineError::OutOfGas`] where that exceeds the limit. Else a
    /// query without a result gives the status `0`, and a result, empty or
    /// not, gives the offset of a Region that holds it, which is never `0`.
    pub fn query_chain_reply(&mut self, reply: LookupReply) -> (result: HostResult)
        ensures
            final(self).same_invocation(old(self)),
            final(self).gas_not_less_than(old(self)),
            final(self).gas_used == old(self).gas_used,
            old(self).gas_depleted() ==> result is Err,
            final(self).answers_lookup(old(self), reply, result),
    {
        self.deliver(reply)
    }

    /// `gas`: charges `gas_amount` for work that the interpreter counted.
    ///
    /// The amount is widened with its sign, so that a negative one uses up
    /// all gas. The invocation ends with [`WasmEngineError::OutOfGas`]
    /// exactly where the total then exceeds the limit. The guest receives
    /// nothing.
    pub fn gas_index(&mut self, gas_amount: i32) -> (result: HostResult)
        ensures
            final(self).same_invocation(old(self)),
            final(self).gas_not_less_than(old(self)),
            final(self).memory == old(self).memory,
            final(self).gas_used == old(self).gas_used.saturating_add(sign_extended(gas_amount)),
            final(self).gas_used_externally == old(self).gas_used_externally,
            old(self).gas_depleted() ==> result is Err,
            result == if final(self).gas_depleted() {
                Err::<Option<i32>, WasmEngineError>(WasmEngineError::OutOfGas)
            } else {
                Ok::<Option<i32>, WasmEngineError>(None)
            },
    {
        match self.use_gas(to_sign_extended(gas_amount)) {
            Ok(()) => Ok(None),
            Err(error) => Err(error),
        }
    }
}

/// Whether, in a run of states of one invocation, the state after `step`
/// has the limit of the state at `step` and has used no less gas of either
/// kind.
pub open spec fn gas_grows_at(states: Seq<ContractInstance>, step: int) -> bool {
    &&& states[step + 1].gas_limit == states[step].gas_limit
    &&& states[step + 1].gas_not_less_than(&states[step])
}

/// Gas that is used up stays used up: an invocation that has exceeded its
/// limit still exceeds it after any step that takes no gas back.
pub proof fn lemma_depletion_is_final(before: ContractInstance, after: ContractInstance)
    requires
        after.gas_limit == before.gas_limit,
        after.gas_not_less_than(&before),
        before.gas_depleted(),
    ensures
        after.gas_depleted(),
{
}

/// What both sources have used, added up, never goes down over a step in
/// which neither source goes down; and gas that is within the limit by that
/// sum is not used up.
pub proof fn lemma_gas_total_grows(before: ContractInstance, after: ContractInstance)
    requires
        after.gas_not_less_than(&before),
    ensures
        after.gas_total() >= before.gas_total(),
        after.gas_spent() >= before.gas_spent(),
        after.gas_total() <= after.gas_limit ==> !after.gas_depleted(),
{
}

/// Over any run of host calls the gas used, from both sources together,
/// never goes down, and once it has exceeded the limit it exceeds it in
/// every later state. Every host call takes a state to one that has the
/// same limit and has used no less gas of either kind; `states` is any run
/// of such steps, and `first` and `last` are any two of its states.
pub proof fn lemma_gas_over_calls(states: Seq<ContractInstance>, first: int, last: int)
    requires
        0 <= first <= last < states.len(),
        forall|step: int| 0 <= step < states.len() - 1 ==> #[trigger] gas_grows_at(states, step),
    ensures
        states[last].gas_total() >= states[first].gas_total(),
        states[last].gas_limit == states[first].gas_limit,
        states[first].gas_depleted() ==> states[last].gas_depleted(),
    decreases last - first,
{
    if first < last {
        lemma_gas_over_calls(states, first, last - 1);
        assert(gas_grows_at(states, last - 1));
        lemma_gas_total_grows(states[last - 1], states[last]);
        if states[last - 1].gas_depleted() {
            lemma_depletion_is_final(states[last - 1], states[last]);
        }
    }
}

/// Where the codec puts back into text what it read from it,
/// `humanize_address` after `canonicalize_address` hands the guest its
/// address text back.
///
/// `human` is an address text without whitespace around it that has
/// canonical bytes. `canonicalize_address` writes them through the Region at
/// `canonical` into `memory`, and `humanize_address` then reads them through
/// that Region and writes through the one at `output`. Both Regions take
/// their write and keep their buffers clear of their own words. Then the
/// Region at `output` describes `human`.
pub proof fn lemma_address_calls_round_trip(
    memory: Seq<u8>,
    human: Seq<u8>,
    canonical: u32,
    output: u32,
)
    requires
        canonical_address(human) is Ok,
        trimmed(vstd::utf8::decode_utf8(human)) == vstd::utf8::decode_utf8(human),
        codec_restores(vstd::utf8::decode_utf8(human)),
        write_outcome(memory, canonical, canonical_address(human)->Ok_0) is Ok,
        buffer_clear_of_region(memory, canonical, canonical_address(human)->Ok_0.len()),
        write_outcome(
            memory_after_write(memory, canonical, canonical_address(human)->Ok_0),
            output,
            human,
        ) is Ok,
        buffer_clear_of_region(
            memory_after_write(memory, canonical, canonical_address(human)->Ok_0),
            output,
            human.len(),
        ),
    ensures
        ({
            let bytes = canonical_address(human)->Ok_0;
            let between = memory_after_write(memory, canonical, bytes);
            let text = vstd::utf8::encode_utf8(human_address(region_payload(between, canonical)->Ok_0));
            &&& region_payload(between, canonical) == Ok::<Seq<u8>, crate::errors::GuestFault>(bytes)
            &&& text == human
            &&& region_payload(memory_after_write(between, output, text), output) == Ok::<
                Seq<u8>,
                crate::errors::GuestFault,
            >(human)
        }),
{
    let bytes = canonical_address(human)->Ok_0;
    let between = memory_after_write(memory, canonical, bytes);
    lemma_write_then_extract(memory, canonical, bytes);
    lemma_round_trip_given_codec(human);
    lemma_write_then_extract(between, output, human);
}

} // verus!
