//! The record decoder: one fixed-layout, variable-length record read from
//! a byte offset into a buffer.
//!
//! A record is self-describing: a fixed header carries its total length
//! and the length and offset of a trailing UTF-16 name. Every access is
//! bounds-checked against both the buffer and the record's own reported
//! length before the reported length is trusted, so a corrupted buffer is
//! rejected rather than mis-read. The name is sliced by its explicit
//! length, never by scanning for a terminator.

use vstd::prelude::*;
use vstd::string::*;
use crate::bytes::{le_u16_at, le_u32_at, le_u64_at, le_i64_at, read_le_u16, read_le_u32,
    read_le_u64, read_le_i64};
use crate::errors::UsnError;

verus! {

/// Byte length of the fixed record header; the name lies at or after this
/// offset.
pub const RECORD_HEADER_LEN: u32 = 60;

/// Byte offset of the total-record-length field.
pub const OFF_RECORD_LENGTH: usize = 0;

/// Byte offset of the major-version field.
pub const OFF_MAJOR_VERSION: usize = 4;

/// Byte offset of the minor-version field.
pub const OFF_MINOR_VERSION: usize = 6;

/// Byte offset of the target file-id field.
pub const OFF_FID: usize = 8;

/// Byte offset of the parent file-id field.
pub const OFF_PARENT_FID: usize = 16;

/// Byte offset of the sequence-number field.
pub const OFF_USN: usize = 24;

/// Byte offset of the timestamp field.
pub const OFF_TIMESTAMP: usize = 32;

/// Byte offset of the change-reason bitmask field.
pub const OFF_REASON: usize = 40;

/// Byte offset of the source-info bitmask field.
pub const OFF_SOURCE_INFO: usize = 44;

/// Byte offset of the security-id field.
pub const OFF_SECURITY_ID: usize = 48;

/// Byte offset of the attribute bitmask field.
pub const OFF_FILE_ATTRIBUTES: usize = 52;

/// Byte offset of the name-length-in-bytes field.
pub const OFF_FILE_NAME_LENGTH: usize = 56;

/// Byte offset of the name-byte-offset field.
pub const OFF_FILE_NAME_OFFSET: usize = 58;

/// A decoded record, fields as the header stores them, with the raw
/// UTF-16 code units of the name.
#[derive(Debug, Clone)]
pub struct RawRecord {
    pub record_length: u32,
    pub major_version: u16,
    pub minor_version: u16,
    pub fid: u64,
    pub parent_fid: u64,
    pub usn: i64,
    pub timestamp: i64,
    pub reason: u32,
    pub source_info: u32,
    pub security_id: u32,
    pub file_attributes: u32,
    pub file_name_units: Vec<u16>,
}

/// There is a well-formed record at `off`: the fixed header fits in the
/// buffer, the reported length covers at least the header and does not
/// run past the buffer, and the name region lies inside the record.
pub open spec fn valid_record_at(b: Seq<u8>, off: int) -> bool {
    &&& 0 <= off
    &&& off + RECORD_HEADER_LEN <= b.len()
    &&& RECORD_HEADER_LEN <= le_u32_at(b, off + OFF_RECORD_LENGTH)
    &&& off + le_u32_at(b, off + OFF_RECORD_LENGTH) <= b.len()
    &&& le_u16_at(b, off + OFF_FILE_NAME_OFFSET) + le_u16_at(b, off + OFF_FILE_NAME_LENGTH)
        <= le_u32_at(b, off + OFF_RECORD_LENGTH)
}

/// The UTF-16 code units of the name of the record at `off`.
pub open spec fn record_name_units_at(b: Seq<u8>, off: int) -> Seq<u16> {
    Seq::new(
        (le_u16_at(b, off + OFF_FILE_NAME_LENGTH) / 2) as nat,
        |k: int|
            le_u16_at(b, off + le_u16_at(b, off + OFF_FILE_NAME_OFFSET) + 2 * k),
    )
}

impl RawRecord {
    /// This value is exactly the record stored at `off`.
    pub open spec fn is_record_at(self, b: Seq<u8>, off: int) -> bool {
        &&& self.record_length == le_u32_at(b, off + OFF_RECORD_LENGTH)
        &&& self.major_version == le_u16_at(b, off + OFF_MAJOR_VERSION)
        &&& self.minor_version == le_u16_at(b, off + OFF_MINOR_VERSION)
        &&& self.fid == le_u64_at(b, off + OFF_FID)
        &&& self.parent_fid == le_u64_at(b, off + OFF_PARENT_FID)
        &&& self.usn == le_i64_at(b, off + OFF_USN)
        &&& self.timestamp == le_i64_at(b, off + OFF_TIMESTAMP)
        &&& self.reason == le_u32_at(b, off + OFF_REASON)
        &&& self.source_info == le_u32_at(b, off + OFF_SOURCE_INFO)
        &&& self.security_id == le_u32_at(b, off + OFF_SECURITY_ID)
        &&& self.file_attributes == le_u32_at(b, off + OFF_FILE_ATTRIBUTES)
        &&& self.file_name_units@ == record_name_units_at(b, off)
    }
}

/// Decodes the record at `off`, validating every reported length against
/// the buffer before trusting it; a record that fails validation is
/// malformed and rejected.
pub fn decode_record(buf: &[u8], off: usize) -> (r: Result<RawRecord, UsnError>)
    ensures
        r is Ok <==> valid_record_at(buf@, off as int),
        r matches Ok(rec) ==> rec.is_record_at(buf@, off as int),
        r matches Err(UsnError::OtherError(m)) ==> m@ == "malformed record"@,
        r is Err ==> (r matches Err(UsnError::OtherError(m)) && m@ == "malformed record"@),
{
    if off > buf.len() || buf.len() - off < RECORD_HEADER_LEN as usize {
        return Err(UsnError::OtherError(String::from_str("malformed record")));
    }
    let record_length = read_le_u32(buf, off + OFF_RECORD_LENGTH);
    if record_length < RECORD_HEADER_LEN {
        return Err(UsnError::OtherError(String::from_str("malformed record")));
    }
    if (record_length as usize) > buf.len() - off {
        return Err(UsnError::OtherError(String::from_str("malformed record")));
    }
    let name_length = read_le_u16(buf, off + OFF_FILE_NAME_LENGTH);
    let name_offset = read_le_u16(buf, off + OFF_FILE_NAME_OFFSET);
    if (name_offset as u32) + (name_length as u32) > record_length {
        return Err(UsnError::OtherError(String::from_str("malformed record")));
    }
    let unit_count: usize = (name_length as usize) / 2;
    proof {
        vstd::arithmetic::div_mod::lemma_fundamental_div_mod(name_length as int, 2);
    }
    let mut units: Vec<u16> = Vec::new();
    let mut k: usize = 0;
    while k < unit_count
        invariant
            unit_count == name_length as int / 2,
            2 * unit_count <= name_length,
            name_offset + name_length <= record_length,
            RECORD_HEADER_LEN <= record_length,
            off + record_length <= buf@.len(),
            name_length == le_u16_at(buf@, off + OFF_FILE_NAME_LENGTH),
            name_offset == le_u16_at(buf@, off + OFF_FILE_NAME_OFFSET),
            k <= unit_count,
            units@ == record_name_units_at(buf@, off as int).take(k as int),
        decreases unit_count - k,
    {
        proof {
            broadcast use vstd::slice::axiom_spec_len;

            assert(2 * k + 2 <= name_length);
            assert(off + (name_offset as int) + 2 * (k as int) + 2 <= buf@.len());
            assert(buf@.len() == vstd::slice::spec_slice_len(buf));
        }
        let unit = read_le_u16(buf, off + (name_offset as usize) + 2 * k);
        units.push(unit);
        proof {
            assert(units@ =~= record_name_units_at(buf@, off as int).take(k as int + 1));
        }
        k = k + 1;
    }
    proof {
        assert(units@ =~= record_name_units_at(buf@, off as int));
    }
    Ok(
        RawRecord {
            record_length,
            major_version: read_le_u16(buf, off + OFF_MAJOR_VERSION),
            minor_version: read_le_u16(buf, off + OFF_MINOR_VERSION),
            fid: read_le_u64(buf, off + OFF_FID),
            parent_fid: read_le_u64(buf, off + OFF_PARENT_FID),
            usn: read_le_i64(buf, off + OFF_USN),
            timestamp: read_le_i64(buf, off + OFF_TIMESTAMP),
            reason: read_le_u32(buf, off + OFF_REASON),
            source_info: read_le_u32(buf, off + OFF_SOURCE_INFO),
            security_id: read_le_u32(buf, off + OFF_SECURITY_ID),
            file_attributes: read_le_u32(buf, off + OFF_FILE_ATTRIBUTES),
            file_name_units: units,
        },
    )
}

} // verus!
