use crate::memory::Region;
use vstd::prelude::*;

verus! {

/// The number of bytes that a region record takes in guest memory.
pub const REGION_SIZE: u32 = 12;

/// The number that four bytes stand for, the lowest byte first, as the guest stores
/// its 32-bit integers.
pub open spec fn word_value(bytes: Seq<u8>) -> int
    recommends
        bytes.len() == 4,
{
    bytes[0] + bytes[1] * 0x100 + bytes[2] * 0x1_0000 + bytes[3] * 0x100_0000
}

/// The four bytes that stand for a 32-bit number in guest memory.
pub open spec fn word_bytes(word: u32) -> Seq<u8> {
    seq![
        (word % 0x100) as u8,
        (word / 0x100 % 0x100) as u8,
        (word / 0x1_0000 % 0x100) as u8,
        (word / 0x100_0000) as u8,
    ]
}

/// A region as the guest lays it out: offset, capacity and length, four bytes each,
/// with nothing in between.
pub open spec fn region_record(region: Region) -> Seq<u8> {
    word_bytes(region.offset) + word_bytes(region.capacity) + word_bytes(region.length)
}

/// The region that twelve bytes of guest memory describe.
pub open spec fn record_region(record: Seq<u8>) -> Region
    recommends
        record.len() == REGION_SIZE,
{
    Region {
        offset: word_value(record.subrange(0, 4)) as u32,
        capacity: word_value(record.subrange(4, 8)) as u32,
        length: word_value(record.subrange(8, 12)) as u32,
    }
}

/// Writing a number out and reading it back gives the number.
pub proof fn lemma_word_value_of_bytes(word: u32)
    ensures
        word_bytes(word).len() == 4,
        word_value(word_bytes(word)) == word,
{
}

/// Writing a region out and reading it back gives the region: no field is lost or
/// mixed with another.
pub proof fn lemma_record_round_trip(region: Region)
    ensures
        region_record(region).len() == REGION_SIZE,
        record_region(region_record(region)) == region,
{
    let record = region_record(region);
    lemma_word_value_of_bytes(region.offset);
    lemma_word_value_of_bytes(region.capacity);
    lemma_word_value_of_bytes(region.length);
    assert(record.subrange(0, 4) =~= word_bytes(region.offset));
    assert(record.subrange(4, 8) =~= word_bytes(region.capacity));
    assert(record.subrange(8, 12) =~= word_bytes(region.length));
}

/// Reads one 32-bit number from four bytes of a record.
fn decode_word(record: &[u8], at: usize) -> (word: u32)
    requires
        at + 4 <= record@.len(),
    ensures
        word == word_value(record@.subrange(at as int, at + 4)),
{
    let b0: u32 = record[at] as u32;
    let b1: u32 = record[at + 1] as u32;
    let b2: u32 = record[at + 2] as u32;
    let b3: u32 = record[at + 3] as u32;
    b0 + b1 * 0x100 + b2 * 0x1_0000 + b3 * 0x100_0000
}

/// Appends the four bytes of a 32-bit number to a record.
fn encode_word(record: &mut Vec<u8>, word: u32)
    ensures
        final(record)@ == old(record)@ + word_bytes(word),
{
    record.push((word % 0x100) as u8);
    record.push((word / 0x100 % 0x100) as u8);
    record.push((word / 0x1_0000 % 0x100) as u8);
    record.push((word / 0x100_0000) as u8);
    assert(record@ =~= old(record)@ + word_bytes(word));
}

/// Reads a region from the bytes of its record. Anything but twelve bytes is no
/// record.
pub fn decode_region(record: &[u8]) -> (region: Option<Region>)
    ensures
        region == if record@.len() == REGION_SIZE {
            Some(record_region(record@))
        } else {
            None
        },
{
    if record.len() != 12 {
        return None;
    }
    Some(
        Region {
            offset: decode_word(record, 0),
            capacity: decode_word(record, 4),
            length: decode_word(record, 8),
        },
    )
}

/// Lays a region out as the twelve bytes of its record.
pub fn encode_region(region: &Region) -> (record: Vec<u8>)
    ensures
        record@ == region_record(*region),
{
    let mut record: Vec<u8> = Vec::with_capacity(12);
    encode_word(&mut record, region.offset);
    encode_word(&mut record, region.capacity);
    encode_word(&mut record, region.length);
    assert(record@ =~= region_record(*region));
    record
}

} // verus!
