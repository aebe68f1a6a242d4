//! The table scanner: decoded table entries, scan options, and the
//! iterator state machine that walks the whole record table through the
//! buffered record stream.
//!
//! A table scan walks every live record in the volume's master record
//! table, ordered by record id. Its continuation cursor is a file id, a
//! different address space from the journal's sequence-number cursor,
//! and its entries carry no change reason.

use vstd::prelude::*;
use vstd::string::*;
use crate::bytes::{le_u32_at, le_u64_at, le_i64_at};
use crate::errors::UsnError;
use crate::journal::{FILE_ATTRIBUTE_DIRECTORY, FILE_ATTRIBUTE_HIDDEN, opt_path_view};
use crate::reader::{RecordStream, NextStep, CURSOR_LEN};
use crate::record::{
    RawRecord, record_name_units_at, valid_record_at, OFF_RECORD_LENGTH, OFF_USN, OFF_FID,
    OFF_PARENT_FID, OFF_FILE_ATTRIBUTES,
};
use crate::text::{utf16_lossy, utf16_lossy_string, hex_of, hex_string};
use crate::{Usn, DEFAULT_BUFFER_SIZE};

verus! {

/// The highest sequence number a scan can bound itself by.
pub const MAX_USN: i64 = 0x7FFF_FFFF_FFFF_FFFF;

/// Options for scanning the record table: the sequence-number range of
/// interest and the buffer size of each bulk read.
#[derive(Debug, Clone, PartialEq, Eq, Structural)]
pub struct EnumOptions {
    pub low_usn: Usn,
    pub high_usn: Usn,
    pub buffer_size: usize,
}

impl Default for EnumOptions {
    /// Defaults: the full representable sequence-number range and the
    /// default buffer size.
    fn default() -> (r: EnumOptions)
        ensures
            r == (EnumOptions {
                low_usn: 0,
                high_usn: MAX_USN,
                buffer_size: DEFAULT_BUFFER_SIZE,
            }),
    {
        EnumOptions { low_usn: 0, high_usn: MAX_USN, buffer_size: DEFAULT_BUFFER_SIZE }
    }
}

/// A decoded record-table entry. A table scan is a point-in-time walk,
/// not a change stream, so an entry carries no change reason.
#[derive(Debug, Clone)]
pub struct MftEntry {
    pub usn: Usn,
    pub fid: u64,
    pub parent_fid: u64,
    pub file_name: String,
    pub file_attributes: u32,
}

impl MftEntry {
    /// The directory attribute bit is set.
    pub open spec fn is_dir_spec(self) -> bool {
        self.file_attributes & FILE_ATTRIBUTE_DIRECTORY != 0
    }

    /// The hidden attribute bit is set.
    pub open spec fn is_hidden_spec(self) -> bool {
        self.file_attributes & FILE_ATTRIBUTE_HIDDEN != 0
    }

    /// This entry carries the fields of `rec`, with the name decoded
    /// from its UTF-16 code units.
    pub open spec fn is_entry_of(self, rec: RawRecord) -> bool {
        &&& self.usn == rec.usn
        &&& self.fid == rec.fid
        &&& self.parent_fid == rec.parent_fid
        &&& self.file_name@ == utf16_lossy(rec.file_name_units@)
        &&& self.file_attributes == rec.file_attributes
    }

    /// This entry is the decode of the record stored at `off`.
    pub open spec fn decoded_at(self, b: Seq<u8>, off: int) -> bool {
        &&& self.usn == le_i64_at(b, off + OFF_USN)
        &&& self.fid == le_u64_at(b, off + OFF_FID)
        &&& self.parent_fid == le_u64_at(b, off + OFF_PARENT_FID)
        &&& self.file_name@ == utf16_lossy(record_name_units_at(b, off))
        &&& self.file_attributes == le_u32_at(b, off + OFF_FILE_ATTRIBUTES)
    }

    /// Builds the entry a decoded record denotes.
    pub fn new(rec: &RawRecord) -> (r: MftEntry)
        ensures
            r.is_entry_of(*rec),
    {
        MftEntry {
            usn: rec.usn,
            fid: rec.fid,
            parent_fid: rec.parent_fid,
            file_name: utf16_lossy_string(rec.file_name_units.as_slice()),
            file_attributes: rec.file_attributes,
        }
    }

    /// True exactly when the directory attribute bit is set.
    pub fn is_dir(&self) -> (r: bool)
        ensures
            r == self.is_dir_spec(),
    {
        self.file_attributes & FILE_ATTRIBUTE_DIRECTORY != 0
    }

    /// True exactly when the hidden attribute bit is set.
    pub fn is_hidden(&self) -> (r: bool)
        ensures
            r == self.is_hidden_spec(),
    {
        self.file_attributes & FILE_ATTRIBUTE_HIDDEN != 0
    }

    /// Formats the entry for human reading: its file ids, kind, and the
    /// given full path, or the bare name when no path is available.
    pub fn pretty_format(&self, full_path_opt: Option<&String>) -> (r: String)
        ensures
            r@ == mft_pretty_view(*self, opt_path_view(full_path_opt)),
    {
        let mut out = String::from_str("File ID             : 0x");
        out.append(hex_string(self.fid).as_str());
        out.append("\nParent File ID      : 0x");
        out.append(hex_string(self.parent_fid).as_str());
        out.append("\nType                : ");
        if self.is_dir() {
            out.append("Directory");
        } else {
            out.append("File");
        }
        out.append("\nPath                : ");
        match full_path_opt {
            Some(p) => out.append(p.as_str()),
            None => out.append(self.file_name.as_str()),
        }
        out.append("\n");
        proof {
            assert(out@ =~= mft_pretty_view(*self, opt_path_view(full_path_opt)));
        }
        out
    }
}

/// The formatted rendering of a table entry: one labelled line per field.
pub open spec fn mft_pretty_view(e: MftEntry, path: Option<Seq<char>>) -> Seq<char> {
    "File ID             : 0x"@ + hex_of(e.fid) + "\nParent File ID      : 0x"@ + hex_of(
        e.parent_fid,
    ) + "\nType                : "@ + (if e.is_dir_spec() {
        "Directory"@
    } else {
        "File"@
    }) + "\nPath                : "@ + (match path {
        Some(p) => p,
        None => e.file_name@,
    }) + "\n"@
}

/// One bulk-read request against the table-scan channel: the file id to
/// continue from, the sequence-number range, and the buffer size to read
/// into.
#[derive(Debug, Clone, PartialEq, Eq, Structural)]
pub struct EnumRequest {
    pub start_fid: u64,
    pub low_usn: Usn,
    pub high_usn: Usn,
    pub buffer_size: usize,
}

/// One step of a table scan: a decoded entry, a request for one more bulk
/// read, or the end of the table.
pub enum ScanStep {
    Entry(MftEntry),
    NeedData,
    Done,
}

/// The table-scan iterator state machine.
///
/// The caller alternates `next_entry` with, when asked, one bulk read
/// described by `read_request`, handing the filled buffer to
/// `provide_data` or reporting the channel's end of data with
/// `end_of_data`.
pub struct MftIter {
    pub low_usn: Usn,
    pub high_usn: Usn,
    pub buffer_size: usize,
    pub stream: RecordStream,
}

impl MftIter {
    /// Creates the default scan over the whole table, continuing from
    /// file id zero.
    pub fn new() -> (r: MftIter)
        ensures
            r.low_usn == 0,
            r.high_usn == MAX_USN,
            r.buffer_size == DEFAULT_BUFFER_SIZE,
            r.stream.cursor_spec() == 0,
            r.stream.needs_refill(),
            r.stream.emitted_spec() == Seq::<i64>::empty(),
    {
        MftIter {
            low_usn: 0,
            high_usn: MAX_USN,
            buffer_size: DEFAULT_BUFFER_SIZE,
            stream: RecordStream::new(0),
        }
    }

    /// Creates a scan with the given options; the continuation cursor is
    /// seeded from the low sequence-number bound.
    pub fn new_with_options(options: &EnumOptions) -> (r: MftIter)
        ensures
            r.low_usn == options.low_usn,
            r.high_usn == options.high_usn,
            r.buffer_size == options.buffer_size,
            r.stream.cursor_spec() == options.low_usn as u64,
            r.stream.needs_refill(),
            r.stream.emitted_spec() == Seq::<i64>::empty(),
    {
        MftIter {
            low_usn: options.low_usn,
            high_usn: options.high_usn,
            buffer_size: options.buffer_size,
            stream: RecordStream::new(options.low_usn as u64),
        }
    }

    /// Describes the bulk read the caller must perform next: it continues
    /// from the stream's current continuation cursor.
    pub fn read_request(&self) -> (r: EnumRequest)
        ensures
            r == (EnumRequest {
                start_fid: self.stream.cursor_spec(),
                low_usn: self.low_usn,
                high_usn: self.high_usn,
                buffer_size: self.buffer_size,
            }),
    {
        EnumRequest {
            start_fid: self.stream.next_cursor(),
            low_usn: self.low_usn,
            high_usn: self.high_usn,
            buffer_size: self.buffer_size,
        }
    }

    /// Takes the next decoded entry out of the buffer, or asks for one
    /// more bulk read, or reports the end of the table. A record that
    /// fails validation is a fatal error that ends iteration.
    pub fn next_entry(&mut self) -> (r: Result<ScanStep, UsnError>)
        ensures
            old(self).stream.finished_spec() ==> {
                &&& r matches Ok(ScanStep::Done)
                &&& *final(self) == *old(self)
            },
            old(self).stream.needs_refill() ==> {
                &&& r matches Ok(ScanStep::NeedData)
                &&& *final(self) == *old(self)
            },
            (!old(self).stream.finished_spec() && old(self).stream.offset_spec() < old(
                self,
            ).stream.buffer_spec().len() && valid_record_at(
                old(self).stream.buffer_spec(),
                old(self).stream.offset_spec(),
            )) ==> {
                &&& r matches Ok(ScanStep::Entry(e))
                &&& e.decoded_at(old(self).stream.buffer_spec(), old(self).stream.offset_spec())
                &&& final(self).stream.offset_spec() == old(self).stream.offset_spec() + le_u32_at(
                    old(self).stream.buffer_spec(),
                    old(self).stream.offset_spec() + OFF_RECORD_LENGTH,
                )
                &&& final(self).stream.emitted_spec() == old(self).stream.emitted_spec().push(
                    e.usn,
                )
                &&& final(self).stream.buffer_spec() == old(self).stream.buffer_spec()
                &&& final(self).stream.cursor_spec() == old(self).stream.cursor_spec()
                &&& !final(self).stream.finished_spec()
            },
            (!old(self).stream.finished_spec() && old(self).stream.offset_spec() < old(
                self,
            ).stream.buffer_spec().len() && !valid_record_at(
                old(self).stream.buffer_spec(),
                old(self).stream.offset_spec(),
            )) ==> {
                &&& r is Err
                &&& final(self).stream.finished_spec()
            },
            final(self).low_usn == old(self).low_usn,
            final(self).high_usn == old(self).high_usn,
            final(self).buffer_size == old(self).buffer_size,
    {
        match self.stream.next_record() {
            Ok(NextStep::Record(rec)) => Ok(ScanStep::Entry(MftEntry::new(&rec))),
            Ok(NextStep::NeedData) => Ok(ScanStep::NeedData),
            Ok(NextStep::Done) => Ok(ScanStep::Done),
            Err(e) => Err(e),
        }
    }

    /// Hands the iterator the buffer one bulk read filled; the new
    /// continuation cursor is captured from its first eight bytes before
    /// any record is interpreted. A buffer holding nothing past the
    /// cursor reports the end of the table: the scan ends without an
    /// error.
    pub fn provide_data(&mut self, data: Vec<u8>) -> (r: Result<(), UsnError>)
        requires
            !old(self).stream.finished_spec(),
        ensures
            data@.len() > CURSOR_LEN ==> {
                &&& r is Ok
                &&& final(self).stream.cursor_spec() == le_u64_at(data@, 0)
                &&& final(self).stream.buffer_spec() == data@
                &&& final(self).stream.offset_spec() == CURSOR_LEN
                &&& !final(self).stream.finished_spec()
                &&& final(self).stream.emitted_spec() == old(self).stream.emitted_spec()
            },
            data@.len() == CURSOR_LEN ==> {
                &&& r is Ok
                &&& final(self).stream.cursor_spec() == le_u64_at(data@, 0)
                &&& final(self).stream.finished_spec()
                &&& final(self).stream.emitted_spec() == old(self).stream.emitted_spec()
            },
            data@.len() < CURSOR_LEN ==> {
                &&& r is Err
                &&& *final(self) == *old(self)
            },
            final(self).low_usn == old(self).low_usn,
            final(self).high_usn == old(self).high_usn,
            final(self).buffer_size == old(self).buffer_size,
    {
        self.stream.ingest(data)
    }

    /// Records that the channel reported end of data: the scan ends
    /// without an error.
    pub fn end_of_data(&mut self)
        ensures
            final(self).stream.finished_spec(),
            final(self).stream.emitted_spec() == old(self).stream.emitted_spec(),
            final(self).low_usn == old(self).low_usn,
            final(self).high_usn == old(self).high_usn,
            final(self).buffer_size == old(self).buffer_size,
    {
        self.stream.finish()
    }
}

} // verus!
