//! The Region protocol, as mathematics.
//!
//! A guest describes a buffer by a Region: three little-endian 32-bit words
//! in its own linear memory, the buffer's address, its capacity and the
//! number of bytes in use. Everything here is a specification over a memory
//! seen as a sequence of bytes; the executable marshaling is proved against
//! it.

use vstd::prelude::*;
use crate::errors::GuestFault;

verus! {

/// Offset of the capacity word in a Region.
pub const CAPACITY_OFFSET: u32 = 4;

/// Offset of the length word in a Region.
pub const LENGTH_OFFSET: u32 = 8;

/// The number that four bytes spell in little-endian order.
pub open spec fn le_u32(word: Seq<u8>) -> u32
    recommends
        word.len() == 4,
{
    (word[0] as int + word[1] as int * 0x100 + word[2] as int * 0x1_0000 + word[3] as int
        * 0x100_0000) as u32
}

/// The four bytes that spell `value` in little-endian order.
pub open spec fn le_bytes(value: u32) -> Seq<u8> {
    seq![
        (value as int % 0x100) as u8,
        (value as int / 0x100 % 0x100) as u8,
        (value as int / 0x1_0000 % 0x100) as u8,
        (value as int / 0x100_0000 % 0x100) as u8,
    ]
}

/// Whether `size` bytes at `offset` lie inside `memory`, at an offset that a
/// guest can name.
pub open spec fn in_bounds(memory: Seq<u8>, offset: int, size: int) -> bool {
    0 <= offset <= u32::MAX && 0 <= size && offset + size <= memory.len()
}

/// The word stored at `offset`, where one fits.
pub open spec fn word_at(memory: Seq<u8>, offset: int) -> Option<u32> {
    if in_bounds(memory, offset, 4) {
        Some(le_u32(memory.subrange(offset, offset + 4)))
    } else {
        None
    }
}

/// `memory` with `bytes` stored from `offset` on.
pub open spec fn store(memory: Seq<u8>, offset: int, bytes: Seq<u8>) -> Seq<u8>
    recommends
        in_bounds(memory, offset, bytes.len() as int),
{
    Seq::new(
        memory.len(),
        |i: int|
            if offset <= i < offset + bytes.len() {
                bytes[i - offset]
            } else {
                memory[i]
            },
    )
}

/// The address word of the Region at `region`.
pub open spec fn region_address(memory: Seq<u8>, region: u32) -> Option<u32> {
    word_at(memory, region as int)
}

/// The capacity word of the Region at `region`.
pub open spec fn region_capacity(memory: Seq<u8>, region: u32) -> Option<u32> {
    word_at(memory, region + CAPACITY_OFFSET)
}

/// The length word of the Region at `region`.
pub open spec fn region_length(memory: Seq<u8>, region: u32) -> Option<u32> {
    word_at(memory, region + LENGTH_OFFSET)
}

/// The bytes that the Region at `region` describes, or why they cannot be
/// had: its address and length words are read, in that order, the address
/// must not be zero, and the buffer must lie inside the memory. The capacity
/// word plays no part.
pub open spec fn region_payload(memory: Seq<u8>, region: u32) -> Result<Seq<u8>, GuestFault> {
    match region_address(memory, region) {
        None => Err(GuestFault::OutOfBounds),
        Some(address) => if address == 0 {
            Err(GuestFault::NullPointer)
        } else {
            match region_length(memory, region) {
                None => Err(GuestFault::OutOfBounds),
                Some(length) => if in_bounds(memory, address as int, length as int) {
                    Ok(memory.subrange(address as int, address + length))
                } else {
                    Err(GuestFault::OutOfBounds)
                },
            }
        },
    }
}

/// Where `size` bytes go when they are written through the Region at
/// `region`, or why they cannot go there: its address and capacity words are
/// read, in that order, the address must not be zero, the capacity must
/// cover `size`, and the buffer must lie inside the memory.
pub open spec fn region_target(memory: Seq<u8>, region: u32, size: nat) -> Result<u32, GuestFault> {
    match region_address(memory, region) {
        None => Err(GuestFault::OutOfBounds),
        Some(address) => if address == 0 {
            Err(GuestFault::NullPointer)
        } else {
            match region_capacity(memory, region) {
                None => Err(GuestFault::OutOfBounds),
                Some(capacity) => if capacity < size {
                    Err(GuestFault::CapacityTooSmall)
                } else if !in_bounds(memory, address as int, size as int) {
                    Err(GuestFault::OutOfBounds)
                } else {
                    Ok(address)
                },
            }
        },
    }
}

/// What writing `bytes` through the Region at `region` reports: the Region's
/// own offset once the bytes are stored and its length word is set, or the
/// fault that stopped the write.
pub open spec fn write_outcome(memory: Seq<u8>, region: u32, bytes: Seq<u8>) -> Result<
    u32,
    GuestFault,
> {
    match region_target(memory, region, bytes.len()) {
        Err(fault) => Err(fault),
        Ok(_) => if in_bounds(memory, region + LENGTH_OFFSET, 4) {
            Ok(region)
        } else {
            Err(GuestFault::OutOfBounds)
        },
    }
}

/// The memory after writing `bytes` through the Region at `region`.
///
/// A write that the Region does not accept changes nothing. One that it
/// accepts stores the bytes in its buffer and then sets its length word; the
/// bytes stay stored even where the length word itself lies outside the
/// memory and the write is reported as failed.
pub open spec fn memory_after_write(memory: Seq<u8>, region: u32, bytes: Seq<u8>) -> Seq<u8> {
    match region_target(memory, region, bytes.len()) {
        Err(_) => memory,
        Ok(address) => {
            let filled = store(memory, address as int, bytes);
            if in_bounds(memory, region + LENGTH_OFFSET, 4) {
                store(filled, region + LENGTH_OFFSET, le_bytes(bytes.len() as u32))
            } else {
                filled
            }
        },
    }
}

/// Whether two ranges of addresses share no byte.
pub open spec fn apart(first: int, first_size: int, second: int, second_size: int) -> bool {
    first_size <= 0 || second_size <= 0 || first + first_size <= second || second + second_size
        <= first
}

/// Whether the buffer of the Region at `region`, taken to be `size` bytes
/// long, keeps clear of the Region's own address and length words.
pub open spec fn buffer_clear_of_region(memory: Seq<u8>, region: u32, size: nat) -> bool {
    region_address(memory, region) matches Some(address) ==> {
        &&& apart(address as int, size as int, region as int, 4)
        &&& apart(address as int, size as int, region + LENGTH_OFFSET, 4)
    }
}

/// Reading back what was just stored gives the same number.
pub proof fn lemma_le_round_trip(value: u32)
    ensures
        le_bytes(value).len() == 4,
        le_u32(le_bytes(value)) == value,
{
    let v = value as int;
    assert(v == v % 0x100 + (v / 0x100 % 0x100) * 0x100 + (v / 0x1_0000 % 0x100) * 0x1_0000 + (v
        / 0x100_0000 % 0x100) * 0x100_0000) by {
        assert(0 <= v < 0x1_0000_0000);
    }
}

/// Storing bytes changes nothing outside the range they are stored in, and
/// not the size of the memory.
pub proof fn lemma_store(memory: Seq<u8>, offset: int, bytes: Seq<u8>)
    requires
        in_bounds(memory, offset, bytes.len() as int),
    ensures
        store(memory, offset, bytes).len() == memory.len(),
        store(memory, offset, bytes).subrange(offset, offset + bytes.len()) == bytes,
        forall|from: int, size: int|
            in_bounds(memory, from, size) && apart(offset, bytes.len() as int, from, size)
                ==> #[trigger] store(memory, offset, bytes).subrange(from, from + size)
                == memory.subrange(from, from + size),
{
    let stored = store(memory, offset, bytes);
    assert(stored.subrange(offset, offset + bytes.len()) =~= bytes);
    assert forall|from: int, size: int|
        in_bounds(memory, from, size) && apart(offset, bytes.len() as int, from, size) implies (
    #[trigger] stored.subrange(from, from + size)) == memory.subrange(from, from + size) by {
        assert(stored.subrange(from, from + size) =~= memory.subrange(from, from + size));
    }
}

/// A write that succeeded set the Region's length word to the number of
/// bytes written.
pub proof fn lemma_written_length(memory: Seq<u8>, region: u32, bytes: Seq<u8>)
    requires
        write_outcome(memory, region, bytes) is Ok,
    ensures
        region_length(memory_after_write(memory, region, bytes), region) == Some(
            bytes.len() as u32,
        ),
        bytes.len() <= u32::MAX,
{
    let address = region_target(memory, region, bytes.len())->Ok_0;
    let filled = store(memory, address as int, bytes);
    let length = bytes.len() as u32;
    lemma_store(memory, address as int, bytes);
    lemma_le_round_trip(length);
    lemma_store(filled, region + LENGTH_OFFSET, le_bytes(length));
}

/// Writing bytes through a Region and then reading the Region gives the
/// same bytes back, for every Region that takes the write and whose buffer
/// keeps clear of its own address and length words.
pub proof fn lemma_write_then_extract(memory: Seq<u8>, region: u32, bytes: Seq<u8>)
    requires
        write_outcome(memory, region, bytes) is Ok,
        buffer_clear_of_region(memory, region, bytes.len()),
    ensures
        region_payload(memory_after_write(memory, region, bytes), region) == Ok::<
            Seq<u8>,
            GuestFault,
        >(bytes),
{
    let address = region_target(memory, region, bytes.len())->Ok_0;
    let size = bytes.len() as int;
    let filled = store(memory, address as int, bytes);
    let length = bytes.len() as u32;
    let after = store(filled, region + LENGTH_OFFSET, le_bytes(length));
    lemma_written_length(memory, region, bytes);
    lemma_le_round_trip(length);
    lemma_store(memory, address as int, bytes);
    lemma_store(filled, region + LENGTH_OFFSET, le_bytes(length));
    assert(after == memory_after_write(memory, region, bytes));
    assert(filled.subrange(region as int, region + 4) == memory.subrange(region as int, region + 4));
    assert(after.subrange(region as int, region + 4) == filled.subrange(region as int, region + 4));
    assert(region_address(after, region) == Some(address));
    assert(after.subrange(address as int, address + size) == filled.subrange(
        address as int,
        address + size,
    ));
}

} // verus!
