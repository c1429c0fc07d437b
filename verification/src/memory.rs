use crate::errors::{
    CommunicationError, CommunicationResult, DerefContext, RegionValidationError,
    RegionValidationResult, VmError, VmResult,
};
use crate::layout::{lemma_record_round_trip, record_region, region_record, REGION_SIZE};
use vstd::prelude::*;

verus! {

/// Describes a buffer that the guest allocated in its linear memory.
///
/// The guest owns the record and the buffer. The host only ever holds a copy of the
/// record, taken and validated anew for each access.
#[derive(Default, Clone, Copy, Debug, PartialEq, Eq)]
pub struct Region {
    /// The beginning of the region, in bytes from the start of the linear memory.
    pub offset: u32,
    /// The number of bytes available in this region.
    pub capacity: u32,
    /// The number of bytes used in this region.
    pub length: u32,
}

/// The structural rules that every region must meet before the host acts on it.
pub open spec fn region_is_valid(region: Region) -> bool {
    &&& region.offset != 0
    &&& region.length <= region.capacity
    &&& region.capacity <= u32::MAX - region.offset
}

/// The verdict on a region: the first rule it breaks, in the order offset, length,
/// capacity.
pub open spec fn validation_outcome(region: Region) -> RegionValidationResult<()> {
    if region.offset == 0 {
        Err(RegionValidationError::ZeroOffset)
    } else if region.length > region.capacity {
        Err(
            RegionValidationError::LengthExceedsCapacity {
                length: region.length,
                capacity: region.capacity,
            },
        )
    } else if region.capacity > u32::MAX - region.offset {
        Err(RegionValidationError::OutOfRange { offset: region.offset, capacity: region.capacity })
    } else {
        Ok(())
    }
}

/// Performs plausibility checks on the given region. Regions are always created by the
/// guest, so this detects problems in the guest's own bookkeeping. Only the three
/// fields are looked at, never the memory they speak of.
pub fn validate_region(region: &Region) -> (result: RegionValidationResult<()>)
    ensures
        result == validation_outcome(*region),
        result is Ok <==> region_is_valid(*region),
{
    if region.offset == 0 {
        return Err(RegionValidationError::ZeroOffset);
    }
    if region.length > region.capacity {
        return Err(
            RegionValidationError::LengthExceedsCapacity {
                length: region.length,
                capacity: region.capacity,
            },
        );
    }
    if region.capacity > (u32::MAX - region.offset) {
        return Err(
            RegionValidationError::OutOfRange { offset: region.offset, capacity: region.capacity },
        );
    }
    Ok(())
}

/// The number of bytes in one page of linear memory.
pub const PAGE_SIZE: u64 = 0x1_0000;

/// Whether the `length` bytes from `offset` on all lie inside the memory.
pub open spec fn in_bounds(memory: Seq<u8>, offset: u32, length: u32) -> bool {
    offset + length <= memory.len()
}

/// The memory after `data` was written over it from `offset` on. Bytes that would
/// fall behind the end of the memory are not written.
pub open spec fn overwritten(memory: Seq<u8>, offset: u32, data: Seq<u8>) -> Seq<u8> {
    Seq::new(
        memory.len(),
        |at: int|
            if offset <= at < offset + data.len() {
                data[at - offset]
            } else {
                memory[at]
            },
    )
}

/// The failure to reach the bytes that a region speaks of.
pub open spec fn data_out_of_reach(memory: Seq<u8>, region: Region) -> VmError {
    VmError::Communication {
        source: CommunicationError::DerefError {
            pointer: region.offset,
            context: DerefContext::RegionData { region, memory_size: memory.len() as u64 },
        },
    }
}

/// What the host finds when it takes `ptr` for the address of a region record: the
/// record must lie inside the memory, and the region it describes must be valid.
pub open spec fn region_at(memory: Seq<u8>, ptr: u32) -> CommunicationResult<Region> {
    if !in_bounds(memory, ptr, REGION_SIZE) {
        Err(CommunicationError::DerefError { pointer: ptr, context: DerefContext::RegionRecord })
    } else {
        let region = record_region(memory.subrange(ptr as int, ptr + REGION_SIZE));
        match validation_outcome(region) {
            Err(source) => Err(CommunicationError::InvalidRegion { source }),
            Ok(_) => Ok(region),
        }
    }
}

/// The memory after the record at `ptr` was replaced by that of `region`, or the
/// failure to reach the record. The new record is not validated.
pub open spec fn region_set(memory: Seq<u8>, ptr: u32, region: Region) -> CommunicationResult<
    Seq<u8>,
> {
    if !in_bounds(memory, ptr, REGION_SIZE) {
        Err(CommunicationError::DerefError { pointer: ptr, context: DerefContext::RegionRecord })
    } else {
        Ok(overwritten(memory, ptr, region_record(region)))
    }
}

/// The bytes in use of the region whose record is at `ptr`, provided that they are at
/// most `max_length` and all lie inside the memory.
pub open spec fn region_read(memory: Seq<u8>, ptr: u32, max_length: usize) -> VmResult<Seq<u8>> {
    match region_at(memory, ptr) {
        Err(source) => Err(VmError::Communication { source }),
        Ok(region) => if region.length > max_length {
            Err(
                VmError::Communication {
                    source: CommunicationError::RegionTooBig {
                        actual: region.length as usize,
                        max: max_length,
                    },
                },
            )
        } else if !in_bounds(memory, region.offset, region.length) {
            Err(data_out_of_reach(memory, region))
        } else {
            Ok(memory.subrange(region.offset as int, region.offset + region.length))
        },
    }
}

/// As [`region_read`], but a null pointer stands for an argument that was left out.
pub open spec fn region_maybe_read(memory: Seq<u8>, ptr: u32, max_length: usize) -> VmResult<
    Option<Seq<u8>>,
> {
    if ptr == 0 {
        Ok(None)
    } else {
        match region_read(memory, ptr, max_length) {
            Ok(data) => Ok(Some(data)),
            Err(error) => Err(error),
        }
    }
}

/// The memory after `data` was written into the region whose record is at `ptr` and
/// the record's length was set to the number of bytes written. The whole capacity of
/// the region must lie inside the memory, not only the part that `data` fills.
pub open spec fn region_written(memory: Seq<u8>, ptr: u32, data: Seq<u8>) -> VmResult<Seq<u8>> {
    match region_at(memory, ptr) {
        Err(source) => Err(VmError::Communication { source }),
        Ok(region) => if data.len() > region.capacity {
            Err(
                VmError::Communication {
                    source: CommunicationError::RegionTooSmall {
                        capacity: region.capacity as usize,
                        requested: data.len() as usize,
                    },
                },
            )
        } else if !in_bounds(memory, region.offset, region.capacity) {
            Err(data_out_of_reach(memory, region))
        } else {
            Ok(
                overwritten(
                    overwritten(memory, region.offset, data),
                    ptr,
                    region_record(Region { length: data.len() as u32, ..region }),
                ),
            )
        },
    }
}

/// Whether a record at `ptr` leaves `data`, written from `offset` on, as it is: the
/// two lie apart, or where they overlap they hold the same bytes.
pub open spec fn record_spares(ptr: u32, record: Seq<u8>, offset: u32, data: Seq<u8>) -> bool {
    forall|at: int|
        0 <= at < data.len() && ptr <= offset + at < ptr + record.len() ==> #[trigger] data[at]
            == record[offset + at - ptr]
}

/// A read is refused as too big exactly when the region holds more bytes than the
/// host allows, and the refusal names the true length and the limit that was given.
pub proof fn lemma_read_too_big(memory: Seq<u8>, ptr: u32, max_length: usize)
    ensures
        region_read(memory, ptr, max_length) matches Err(
            VmError::Communication { source: CommunicationError::RegionTooBig { .. } },
        ) <==> (region_at(memory, ptr) matches Ok(region) && region.length > max_length),
        region_read(memory, ptr, max_length) matches Err(
            VmError::Communication { source: CommunicationError::RegionTooBig { actual, max } },
        ) ==> actual == region_at(memory, ptr)->Ok_0.length && max == max_length,
{
}

/// A write is refused as too small exactly when there is more data than the region
/// has capacity for, and the refusal names that capacity and the length of the data.
pub proof fn lemma_write_too_small(memory: Seq<u8>, ptr: u32, data: Seq<u8>)
    requires
        data.len() <= usize::MAX,
    ensures
        region_written(memory, ptr, data) matches Err(
            VmError::Communication { source: CommunicationError::RegionTooSmall { .. } },
        ) <==> (region_at(memory, ptr) matches Ok(region) && data.len() > region.capacity),
        region_written(memory, ptr, data) matches Err(
            VmError::Communication {
                source: CommunicationError::RegionTooSmall { capacity, requested },
            },
        ) ==> capacity == region_at(memory, ptr)->Ok_0.capacity && requested == data.len(),
{
}

/// A null pointer reads as an argument that was left out, whatever the memory holds;
/// any other pointer reads as `region_read` does.
pub proof fn lemma_maybe_read(memory: Seq<u8>, ptr: u32, max_length: usize)
    ensures
        ptr == 0 ==> region_maybe_read(memory, ptr, max_length) == Ok::<Option<Seq<u8>>, VmError>(
            None,
        ),
        ptr != 0 ==> match region_read(memory, ptr, max_length) {
            Ok(data) => region_maybe_read(memory, ptr, max_length) == Ok::<
                Option<Seq<u8>>,
                VmError,
            >(Some(data)),
            Err(error) => region_maybe_read(memory, ptr, max_length) == Err::<
                Option<Seq<u8>>,
                VmError,
            >(error),
        },
{
}

/// After a write the guest finds in the record how many bytes were written: the
/// record at `ptr` is the old one with the length set to the length of `data`.
pub proof fn lemma_write_sets_length(memory: Seq<u8>, ptr: u32, data: Seq<u8>)
    requires
        region_written(memory, ptr, data) is Ok,
    ensures
        region_at(memory, ptr) is Ok,
        region_at(region_written(memory, ptr, data)->Ok_0, ptr) == Ok::<Region, CommunicationError>(
            Region { length: data.len() as u32, ..region_at(memory, ptr)->Ok_0 },
        ),
        region_at(region_written(memory, ptr, data)->Ok_0, ptr)->Ok_0.length == data.len(),
{
    let region = region_at(memory, ptr)->Ok_0;
    let updated = Region { length: data.len() as u32, ..region };
    let after = region_written(memory, ptr, data)->Ok_0;
    lemma_record_round_trip(updated);
    assert(after.subrange(ptr as int, ptr + REGION_SIZE) =~= region_record(updated));
}

/// What was written is what is read back: after `data` was written into the region at
/// `ptr`, reading that region with room for at least `data` gives exactly `data`.
///
/// This holds unless the guest placed the record inside its own buffer, so that the
/// new record overwrites bytes of `data` with other bytes. Those memories are left
/// out, and no others.
pub proof fn lemma_write_then_read(memory: Seq<u8>, ptr: u32, data: Seq<u8>, max_length: usize)
    requires
        region_written(memory, ptr, data) is Ok,
        data.len() <= max_length,
        record_spares(
            ptr,
            region_record(Region { length: data.len() as u32, ..region_at(memory, ptr)->Ok_0 }),
            region_at(memory, ptr)->Ok_0.offset,
            data,
        ),
    ensures
        region_read(region_written(memory, ptr, data)->Ok_0, ptr, max_length) == Ok::<
            Seq<u8>,
            VmError,
        >(data),
{
    let region = region_at(memory, ptr)->Ok_0;
    let updated = Region { length: data.len() as u32, ..region };
    let after = region_written(memory, ptr, data)->Ok_0;
    lemma_write_sets_length(memory, ptr, data);
    lemma_record_round_trip(updated);
    let read = after.subrange(updated.offset as int, updated.offset + updated.length);
    assert forall|at: int| 0 <= at < data.len() implies read[at] == data[at] by {
        if ptr <= region.offset + at < ptr + REGION_SIZE {
            assert(data[at] == region_record(updated)[region.offset + at - ptr]);
        }
    }
    assert(read =~= data);
}

/// Where the new record does overwrite bytes of `data` with other bytes, the read
/// gives those other bytes: [`lemma_write_then_read`] leaves out no memory on which
/// its law holds.
pub proof fn lemma_overlap_breaks_read_back(
    memory: Seq<u8>,
    ptr: u32,
    data: Seq<u8>,
    max_length: usize,
)
    requires
        region_written(memory, ptr, data) is Ok,
        data.len() <= max_length,
        !record_spares(
            ptr,
            region_record(Region { length: data.len() as u32, ..region_at(memory, ptr)->Ok_0 }),
            region_at(memory, ptr)->Ok_0.offset,
            data,
        ),
    ensures
        region_read(region_written(memory, ptr, data)->Ok_0, ptr, max_length) != Ok::<
            Seq<u8>,
            VmError,
        >(data),
{
    let region = region_at(memory, ptr)->Ok_0;
    let updated = Region { length: data.len() as u32, ..region };
    let record = region_record(updated);
    let after = region_written(memory, ptr, data)->Ok_0;
    lemma_write_sets_length(memory, ptr, data);
    lemma_record_round_trip(updated);
    let at = choose|at: int|
        0 <= at < data.len() && ptr <= region.offset + at < ptr + record.len() && data[at]
            != record[region.offset + at - ptr];
    let read = after.subrange(updated.offset as int, updated.offset + updated.length);
    assert(read[at] == record[region.offset + at - ptr]);
}

} // verus!
