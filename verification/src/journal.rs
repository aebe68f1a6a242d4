//! The change-journal enumerator: decoded journal entries, enumeration
//! options, journal metadata, and the iterator state machine that walks
//! journal records through the buffered record stream.

use vstd::prelude::*;
use vstd::string::*;
use crate::bytes::{le_u32_at, le_u64_at, le_i64_at};
use crate::errors::UsnError;
use crate::reader::{RecordStream, NextStep, CURSOR_LEN};
use crate::record::{
    RawRecord, record_name_units_at, valid_record_at, OFF_RECORD_LENGTH, OFF_USN, OFF_TIMESTAMP,
    OFF_FID, OFF_PARENT_FID, OFF_REASON, OFF_SOURCE_INFO, OFF_FILE_ATTRIBUTES,
};
use crate::text::{utf16_lossy, utf16_lossy_string, hex_of, hex_string};
use crate::time::{UnixTime, time_of_ticks, filetime_to_unixtime, local_time_string};
use crate::{Usn, DEFAULT_BUFFER_SIZE, USN_REASON_MASK_ALL};

verus! {

/// A byte of data in the file was overwritten.
pub const USN_REASON_DATA_OVERWRITE: u32 = 0x00000001;

/// The file was extended.
pub const USN_REASON_DATA_EXTEND: u32 = 0x00000002;

/// The file was truncated.
pub const USN_REASON_DATA_TRUNCATION: u32 = 0x00000004;

/// A named data stream was overwritten.
pub const USN_REASON_NAMED_DATA_OVERWRITE: u32 = 0x00000010;

/// A named data stream was extended.
pub const USN_REASON_NAMED_DATA_EXTEND: u32 = 0x00000020;

/// A named data stream was truncated.
pub const USN_REASON_NAMED_DATA_TRUNCATION: u32 = 0x00000040;

/// The file or directory was created.
pub const USN_REASON_FILE_CREATE: u32 = 0x00000100;

/// The file or directory was deleted.
pub const USN_REASON_FILE_DELETE: u32 = 0x00000200;

/// An extended attribute changed.
pub const USN_REASON_EA_CHANGE: u32 = 0x00000400;

/// A security descriptor changed.
pub const USN_REASON_SECURITY_CHANGE: u32 = 0x00000800;

/// The file was renamed: this record carries the old name.
pub const USN_REASON_RENAME_OLD_NAME: u32 = 0x00001000;

/// The file was renamed: this record carries the new name.
pub const USN_REASON_RENAME_NEW_NAME: u32 = 0x00002000;

/// The content-indexing attribute changed.
pub const USN_REASON_INDEXABLE_CHANGE: u32 = 0x00004000;

/// Basic information (attributes, timestamps) changed.
pub const USN_REASON_BASIC_INFO_CHANGE: u32 = 0x00008000;

/// A hard link was added or removed.
pub const USN_REASON_HARD_LINK_CHANGE: u32 = 0x00010000;

/// The compression state changed.
pub const USN_REASON_COMPRESSION_CHANGE: u32 = 0x00020000;

/// The encryption state changed.
pub const USN_REASON_ENCRYPTION_CHANGE: u32 = 0x00040000;

/// The object identifier changed.
pub const USN_REASON_OBJECT_ID_CHANGE: u32 = 0x00080000;

/// The reparse-point data changed.
pub const USN_REASON_REPARSE_POINT_CHANGE: u32 = 0x00100000;

/// A data stream was added, removed or renamed.
pub const USN_REASON_STREAM_CHANGE: u32 = 0x00200000;

/// The file was modified inside a transaction.
pub const USN_REASON_TRANSACTED_CHANGE: u32 = 0x00400000;

/// The integrity-stream state changed.
pub const USN_REASON_INTEGRITY_CHANGE: u32 = 0x00800000;

/// The desired storage class changed.
pub const USN_REASON_DESIRED_STORAGE_CLASS_CHANGE: u32 = 0x01000000;

/// The file was closed.
pub const USN_REASON_CLOSE: u32 = 0x80000000;

/// The attribute bit that marks a directory.
pub const FILE_ATTRIBUTE_DIRECTORY: u32 = 0x10;

/// The attribute bit that marks a hidden file or directory.
pub const FILE_ATTRIBUTE_HIDDEN: u32 = 0x2;

/// Options for enumerating the change journal: the starting sequence
/// number, the reason filter, close-only filtering, and the wait and
/// buffer-size parameters of each bulk read.
#[derive(Debug, Clone, PartialEq, Eq, Structural)]
pub struct EnumOptions {
    pub start_usn: Usn,
    pub reason_mask: u32,
    pub only_on_close: bool,
    pub timeout: u64,
    pub wait_for_more: bool,
    pub buffer_size: usize,
}

impl Default for EnumOptions {
    /// Defaults: start at sequence zero, accept every reason, do not
    /// restrict to close records, no timeout, do not block for more data,
    /// and the default buffer size.
    fn default() -> (r: EnumOptions)
        ensures
            r == (EnumOptions {
                start_usn: 0,
                reason_mask: USN_REASON_MASK_ALL,
                only_on_close: false,
                timeout: 0,
                wait_for_more: false,
                buffer_size: DEFAULT_BUFFER_SIZE,
            }),
    {
        EnumOptions {
            start_usn: 0,
            reason_mask: USN_REASON_MASK_ALL,
            only_on_close: false,
            timeout: 0,
            wait_for_more: false,
            buffer_size: DEFAULT_BUFFER_SIZE,
        }
    }
}

/// The journal's metadata: its identifier, the valid sequence-number
/// range, and its size parameters.
#[derive(Debug, Clone, PartialEq, Eq, Structural)]
pub struct UsnJournalData {
    pub journal_id: u64,
    pub first_usn: i64,
    pub next_usn: i64,
    pub lowest_valid_usn: i64,
    pub max_usn: i64,
    pub maximum_size: u64,
    pub allocation_delta: u64,
}

/// A decoded change-journal entry.
#[derive(Debug, Clone)]
pub struct UsnEntry {
    pub usn: Usn,
    pub time: UnixTime,
    pub fid: u64,
    pub parent_fid: u64,
    pub reason: u32,
    pub source_info: u32,
    pub file_name: String,
    pub file_attributes: u32,
}

impl UsnEntry {
    /// The directory attribute bit is set.
    pub open spec fn is_dir_spec(self) -> bool {
        self.file_attributes & FILE_ATTRIBUTE_DIRECTORY != 0
    }

    /// The hidden attribute bit is set.
    pub open spec fn is_hidden_spec(self) -> bool {
        self.file_attributes & FILE_ATTRIBUTE_HIDDEN != 0
    }

    /// This entry carries the fields of `rec`, with the name decoded from
    /// its UTF-16 code units and the timestamp re-based on the Unix
    /// epoch; an invalid (negative) timestamp falls back to the Unix
    /// epoch itself.
    pub open spec fn is_entry_of(self, rec: RawRecord) -> bool {
        &&& self.usn == rec.usn
        &&& self.time == time_of_ticks(rec.timestamp)
        &&& self.fid == rec.fid
        &&& self.parent_fid == rec.parent_fid
        &&& self.reason == rec.reason
        &&& self.source_info == rec.source_info
        &&& self.file_name@ == utf16_lossy(rec.file_name_units@)
        &&& self.file_attributes == rec.file_attributes
    }

    /// This entry is the decode of the record stored at `off`.
    pub open spec fn decoded_at(self, b: Seq<u8>, off: int) -> bool {
        &&& self.usn == le_i64_at(b, off + OFF_USN)
        &&& self.time == time_of_ticks(le_i64_at(b, off + OFF_TIMESTAMP))
        &&& self.fid == le_u64_at(b, off + OFF_FID)
        &&& self.parent_fid == le_u64_at(b, off + OFF_PARENT_FID)
        &&& self.reason == le_u32_at(b, off + OFF_REASON)
        &&& self.source_info == le_u32_at(b, off + OFF_SOURCE_INFO)
        &&& self.file_name@ == utf16_lossy(record_name_units_at(b, off))
        &&& self.file_attributes == le_u32_at(b, off + OFF_FILE_ATTRIBUTES)
    }

    /// Builds the entry a decoded record denotes.
    pub fn new(rec: &RawRecord) -> (r: UsnEntry)
        ensures
            r.is_entry_of(*rec),
    {
        let time = match filetime_to_unixtime(rec.timestamp) {
            Ok(t) => t,
            Err(_) => UnixTime { secs: 0, nanos: 0 },
        };
        UsnEntry {
            usn: rec.usn,
            time,
            fid: rec.fid,
            parent_fid: rec.parent_fid,
            reason: rec.reason,
            source_info: rec.source_info,
            file_name: utf16_lossy_string(rec.file_name_units.as_slice()),
            file_attributes: rec.file_attributes,
        }
    }

    /// True exactly when the directory attribute bit is set.
    pub fn is_dir(&self) -> (r: bool)
        ensures
            r == self.is_dir_spec(),
    {
        self.file_attributes & FILE_ATTRIBUTE_DIRECTORY != 0
    }

    /// True exactly when the hidden attribute bit is set.
    pub fn is_hidden(&self) -> (r: bool)
        ensures
            r == self.is_hidden_spec(),
    {
        self.file_attributes & FILE_ATTRIBUTE_HIDDEN != 0
    }

    /// Renders the change-reason bitmask as the names of the set reasons
    /// joined by a separator.
    pub fn get_reason_string(&self) -> (r: String)
        ensures
            r@ == reason_string_of(self.reason),
    {
        reason_string(self.reason)
    }

    /// Formats the entry for human reading: its sequence number, kind,
    /// file ids, the given timestamp text, reasons, and the given full
    /// path, or the bare name when no path is available.
    pub fn pretty_format_with_timestamp(
        &self,
        full_path_opt: Option<&String>,
        timestamp: &str,
    ) -> (r: String)
        ensures
            r@ == usn_pretty_view(*self, opt_path_view(full_path_opt), timestamp@),
    {
        let mut out = String::from_str("USN                 : 0x");
        out.append(hex_string(self.usn as u64).as_str());
        out.append("\nType                : ");
        if self.is_dir() {
            out.append("Directory");
        } else {
            out.append("File");
        }
        out.append("\nFile ID             : 0x");
        out.append(hex_string(self.fid).as_str());
        out.append("\nParent File ID      : 0x");
        out.append(hex_string(self.parent_fid).as_str());
        out.append("\nTimestamp           : ");
        out.append(timestamp);
        out.append("\nReason              : ");
        out.append(self.get_reason_string().as_str());
        out.append("\nPath                : ");
        match full_path_opt {
            Some(p) => out.append(p.as_str()),
            None => out.append(self.file_name.as_str()),
        }
        out.append("\n");
        proof {
            assert(out@ =~= usn_pretty_view(*self, opt_path_view(full_path_opt), timestamp@));
        }
        out
    }

    /// Formats the entry for human reading, rendering the timestamp in
    /// the machine's local time zone; only the timestamp text's place in
    /// the output is specified, since it depends on the machine.
    pub fn pretty_format(&self, full_path_opt: Option<&String>) -> (r: String)
        ensures
            exists|ts: Seq<char>|
                r@ == #[trigger] usn_pretty_view(*self, opt_path_view(full_path_opt), ts),
    {
        let ts = local_time_string(self.time.secs, self.time.nanos);
        self.pretty_format_with_timestamp(full_path_opt, ts.as_str())
    }
}

/// The view of an optional path argument.
pub open spec fn opt_path_view(p: Option<&String>) -> Option<Seq<char>> {
    match p {
        Some(s) => Some(s@),
        None => None,
    }
}

/// The formatted rendering of an entry: one labelled line per field, with
/// `ts` standing for the locally rendered timestamp.
pub open spec fn usn_pretty_view(e: UsnEntry, path: Option<Seq<char>>, ts: Seq<char>) -> Seq<char> {
    "USN                 : 0x"@ + hex_of(e.usn as u64) + "\nType                : "@ + (if e.is_dir_spec() {
        "Directory"@
    } else {
        "File"@
    }) + "\nFile ID             : 0x"@ + hex_of(e.fid) + "\nParent File ID      : 0x"@ + hex_of(
        e.parent_fid,
    ) + "\nTimestamp           : "@ + ts + "\nReason              : "@ + reason_string_of(e.reason)
        + "\nPath                : "@ + (match path {
        Some(p) => p,
        None => e.file_name@,
    }) + "\n"@
}

/// The separator between reason names.
pub open spec fn reason_sep() -> Seq<char> {
    " | "@
}

/// Reason names joined by the separator.
pub open spec fn joined_reasons(parts: Seq<Seq<char>>) -> Seq<char>
    decreases parts.len(),
{
    if parts.len() == 0 {
        Seq::<char>::empty()
    } else if parts.len() == 1 {
        parts[0]
    } else {
        joined_reasons(parts.drop_last()) + reason_sep() + parts.last()
    }
}

/// The names among the data-change reasons set in `reason`,
/// appended to `p` in the fixed order.
pub open spec fn parts_data_reasons(p: Seq<Seq<char>>, reason: u32) -> Seq<Seq<char>> {
    let p = if reason & USN_REASON_DATA_OVERWRITE != 0 {
        p.push("DATA_OVERWRITE"@)
    } else {
        p
    };
    let p = if reason & USN_REASON_DATA_EXTEND != 0 {
        p.push("DATA_EXTEND"@)
    } else {
        p
    };
    let p = if reason & USN_REASON_DATA_TRUNCATION != 0 {
        p.push("DATA_TRUNCATION"@)
    } else {
        p
    };
    let p = if reason & USN_REASON_NAMED_DATA_OVERWRITE != 0 {
        p.push("NAMED_DATA_OVERWRITE"@)
    } else {
        p
    };
    let p = if reason & USN_REASON_NAMED_DATA_EXTEND != 0 {
        p.push("NAMED_DATA_EXTEND"@)
    } else {
        p
    };
    let p = if reason & USN_REASON_NAMED_DATA_TRUNCATION != 0 {
        p.push("NAMED_DATA_TRUNCATION"@)
    } else {
        p
    };
    p
}

/// The names among the file-lifecycle and security reasons set in `reason`,
/// appended to `p` in the fixed order.
pub open spec fn parts_file_reasons(p: Seq<Seq<char>>, reason: u32) -> Seq<Seq<char>> {
    let p = if reason & USN_REASON_FILE_CREATE != 0 {
        p.push("FILE_CREATE"@)
    } else {
        p
    };
    let p = if reason & USN_REASON_FILE_DELETE != 0 {
        p.push("FILE_DELETE"@)
    } else {
        p
    };
    let p = if reason & USN_REASON_EA_CHANGE != 0 {
        p.push("EA_CHANGE"@)
    } else {
        p
    };
    let p = if reason & USN_REASON_SECURITY_CHANGE != 0 {
        p.push("SECURITY_CHANGE"@)
    } else {
        p
    };
    let p = if reason & USN_REASON_RENAME_OLD_NAME != 0 {
        p.push("RENAME_OLD_NAME"@)
    } else {
        p
    };
    let p = if reason & USN_REASON_RENAME_NEW_NAME != 0 {
        p.push("RENAME_NEW_NAME"@)
    } else {
        p
    };
    p
}

/// The names among the attribute and link reasons set in `reason`,
/// appended to `p` in the fixed order.
pub open spec fn parts_info_reasons(p: Seq<Seq<char>>, reason: u32) -> Seq<Seq<char>> {
    let p = if reason & USN_REASON_INDEXABLE_CHANGE != 0 {
        p.push("INDEXABLE_CHANGE"@)
    } else {
        p
    };
    let p = if reason & USN_REASON_BASIC_INFO_CHANGE != 0 {
        p.push("BASIC_INFO_CHANGE"@)
    } else {
        p
    };
    let p = if reason & USN_REASON_HARD_LINK_CHANGE != 0 {
        p.push("HARD_LINK_CHANGE"@)
    } else {
        p
    };
    let p = if reason & USN_REASON_COMPRESSION_CHANGE != 0 {
        p.push("COMPRESSION_CHANGE"@)
    } else {
        p
    };
    let p = if reason & USN_REASON_ENCRYPTION_CHANGE != 0 {
        p.push("ENCRYPTION_CHANGE"@)
    } else {
        p
    };
    let p = if reason & USN_REASON_OBJECT_ID_CHANGE != 0 {
        p.push("OBJECT_ID_CHANGE"@)
    } else {
        p
    };
    p
}

/// The names among the stream, transaction and close reasons set in `reason`,
/// appended to `p` in the fixed order.
pub open spec fn parts_stream_reasons(p: Seq<Seq<char>>, reason: u32) -> Seq<Seq<char>> {
    let p = if reason & USN_REASON_REPARSE_POINT_CHANGE != 0 {
        p.push("REPARSE_POINT_CHANGE"@)
    } else {
        p
    };
    let p = if reason & USN_REASON_STREAM_CHANGE != 0 {
        p.push("STREAM_CHANGE"@)
    } else {
        p
    };
    let p = if reason & USN_REASON_TRANSACTED_CHANGE != 0 {
        p.push("TRANSACTED_CHANGE"@)
    } else {
        p
    };
    let p = if reason & USN_REASON_INTEGRITY_CHANGE != 0 {
        p.push("INTEGRITY_CHANGE"@)
    } else {
        p
    };
    let p = if reason & USN_REASON_DESIRED_STORAGE_CLASS_CHANGE != 0 {
        p.push("DESIRED_STORAGE_CLASS_CHANGE"@)
    } else {
        p
    };
    let p = if reason & USN_REASON_CLOSE != 0 {
        p.push("CLOSE"@)
    } else {
        p
    };
    p
}

/// The names of the reasons set in `reason`, in a fixed order.
pub open spec fn reason_parts(reason: u32) -> Seq<Seq<char>> {
    parts_stream_reasons(
        parts_info_reasons(
            parts_file_reasons(parts_data_reasons(Seq::<Seq<char>>::empty(), reason), reason),
            reason,
        ),
        reason,
    )
}

/// The rendering of a reason bitmask: the names of the set reasons joined
/// by the separator, or a single placeholder when none is set.
pub open spec fn reason_string_of(reason: u32) -> Seq<char> {
    if reason_parts(reason).len() == 0 {
        "UNKNOWN"@
    } else {
        joined_reasons(reason_parts(reason))
    }
}

/// Accumulates reason names into a joined string.
struct ReasonBuilder {
    out: String,
    any: bool,
    parts: Ghost<Seq<Seq<char>>>,
}

impl ReasonBuilder {
    /// The accumulated text matches the accumulated parts.
    spec fn wf(self) -> bool {
        &&& self.any <==> self.parts@.len() > 0
        &&& self.out@ == joined_reasons(self.parts@)
    }

    fn new() -> (r: ReasonBuilder)
        ensures
            r.wf(),
            r.parts@ == Seq::<Seq<char>>::empty(),
    {
        ReasonBuilder { out: String::new(), any: false, parts: Ghost(Seq::empty()) }
    }

    /// Appends `name` (with the separator when needed) when `cond` holds.
    fn add(&mut self, cond: bool, name: &str)
        requires
            old(self).wf(),
        ensures
            final(self).wf(),
            cond ==> final(self).parts@ == old(self).parts@.push(name@),
            !cond ==> *final(self) == *old(self),
    {
        if cond {
            if self.any {
                self.out.append(" | ");
                self.out.append(name);
                proof {
                    let prev = self.parts@;
                    self.parts@ = self.parts@.push(name@);
                    assert(self.parts@.drop_last() =~= prev);
                    assert(self.parts@.last() == name@);
                }
            } else {
                self.out.append(name);
                proof {
                    self.parts@ = self.parts@.push(name@);
                }
            }
            self.any = true;
        }
    }
}

impl ReasonBuilder {
    /// Appends the names `parts_data_reasons` lists for `reason`.
    fn add_data_reasons(&mut self, reason: u32)
        requires
            old(self).wf(),
        ensures
            final(self).wf(),
            final(self).parts@ == parts_data_reasons(old(self).parts@, reason),
    {
        self.add(reason & USN_REASON_DATA_OVERWRITE != 0, "DATA_OVERWRITE");
        self.add(reason & USN_REASON_DATA_EXTEND != 0, "DATA_EXTEND");
        self.add(reason & USN_REASON_DATA_TRUNCATION != 0, "DATA_TRUNCATION");
        self.add(reason & USN_REASON_NAMED_DATA_OVERWRITE != 0, "NAMED_DATA_OVERWRITE");
        self.add(reason & USN_REASON_NAMED_DATA_EXTEND != 0, "NAMED_DATA_EXTEND");
        self.add(reason & USN_REASON_NAMED_DATA_TRUNCATION != 0, "NAMED_DATA_TRUNCATION");
    }

    /// Appends the names `parts_file_reasons` lists for `reason`.
    fn add_file_reasons(&mut self, reason: u32)
        requires
            old(self).wf(),
        ensures
            final(self).wf(),
            final(self).parts@ == parts_file_reasons(old(self).parts@, reason),
    {
        self.add(reason & USN_REASON_FILE_CREATE != 0, "FILE_CREATE");
        self.add(reason & USN_REASON_FILE_DELETE != 0, "FILE_DELETE");
        self.add(reason & USN_REASON_EA_CHANGE != 0, "EA_CHANGE");
        self.add(reason & USN_REASON_SECURITY_CHANGE != 0, "SECURITY_CHANGE");
        self.add(reason & USN_REASON_RENAME_OLD_NAME != 0, "RENAME_OLD_NAME");
        self.add(reason & USN_REASON_RENAME_NEW_NAME != 0, "RENAME_NEW_NAME");
    }

    /// Appends the names `parts_info_reasons` lists for `reason`.
    fn add_info_reasons(&mut self, reason: u32)
        requires
            old(self).wf(),
        ensures
            final(self).wf(),
            final(self).parts@ == parts_info_reasons(old(self).parts@, reason),
    {
        self.add(reason & USN_REASON_INDEXABLE_CHANGE != 0, "INDEXABLE_CHANGE");
        self.add(reason & USN_REASON_BASIC_INFO_CHANGE != 0, "BASIC_INFO_CHANGE");
        self.add(reason & USN_REASON_HARD_LINK_CHANGE != 0, "HARD_LINK_CHANGE");
        self.add(reason & USN_REASON_COMPRESSION_CHANGE != 0, "COMPRESSION_CHANGE");
        self.add(reason & USN_REASON_ENCRYPTION_CHANGE != 0, "ENCRYPTION_CHANGE");
        self.add(reason & USN_REASON_OBJECT_ID_CHANGE != 0, "OBJECT_ID_CHANGE");
    }

    /// Appends the names `parts_stream_reasons` lists for `reason`.
    fn add_stream_reasons(&mut self, reason: u32)
        requires
            old(self).wf(),
        ensures
            final(self).wf(),
            final(self).parts@ == parts_stream_reasons(old(self).parts@, reason),
    {
        self.add(reason & USN_REASON_REPARSE_POINT_CHANGE != 0, "REPARSE_POINT_CHANGE");
        self.add(reason & USN_REASON_STREAM_CHANGE != 0, "STREAM_CHANGE");
        self.add(reason & USN_REASON_TRANSACTED_CHANGE != 0, "TRANSACTED_CHANGE");
        self.add(reason & USN_REASON_INTEGRITY_CHANGE != 0, "INTEGRITY_CHANGE");
        self.add(reason & USN_REASON_DESIRED_STORAGE_CLASS_CHANGE != 0, "DESIRED_STORAGE_CLASS_CHANGE");
        self.add(reason & USN_REASON_CLOSE != 0, "CLOSE");
    }
}

/// Renders a change-reason bitmask as the names of the set reasons joined
/// by a separator, or a placeholder when no known reason is set.
pub fn reason_string(reason: u32) -> (r: String)
    ensures
        r@ == reason_string_of(reason),
{
    let mut b = ReasonBuilder::new();
    b.add_data_reasons(reason);
    b.add_file_reasons(reason);
    b.add_info_reasons(reason);
    b.add_stream_reasons(reason);
    proof {
        assert(b.parts@ == reason_parts(reason));
    }
    if b.any {
        b.out
    } else {
        String::from_str("UNKNOWN")
    }
}

/// One bulk-read request against the journal channel: the continuation
/// cursor to start from, the filters and wait parameters, the journal's
/// identifier, and the buffer size to read into.
#[derive(Debug, Clone, PartialEq, Eq, Structural)]
pub struct ReadRequest {
    pub start_usn: Usn,
    pub reason_mask: u32,
    pub return_only_on_close: u32,
    pub timeout: u64,
    pub bytes_to_wait_for: u64,
    pub journal_id: u64,
    pub buffer_size: usize,
}

/// One step of journal iteration: a decoded entry, a request for one more
/// bulk read, or the end of the sequence.
pub enum JournalStep {
    Entry(UsnEntry),
    NeedData,
    Done,
}

/// The journal iterator state machine.
///
/// The caller alternates `next_entry` with, when asked, one bulk read
/// described by `read_request`, handing the filled buffer to
/// `provide_data` or reporting the channel's end of data with
/// `end_of_data`.
pub struct UsnJournalIter {
    pub journal_id: u64,
    pub reason_mask: u32,
    pub return_only_on_close: u32,
    pub timeout: u64,
    pub bytes_to_wait_for: u64,
    pub buffer_size: usize,
    pub stream: RecordStream,
}

impl UsnJournalIter {
    /// Creates the default iterator over a journal: from sequence zero,
    /// every reason, not restricted to close records, no timeout, waiting
    /// for at least one byte of data.
    pub fn new(journal_id: u64) -> (r: UsnJournalIter)
        ensures
            r.journal_id == journal_id,
            r.reason_mask == USN_REASON_MASK_ALL,
            r.return_only_on_close == 0,
            r.timeout == 0,
            r.bytes_to_wait_for == 1,
            r.buffer_size == DEFAULT_BUFFER_SIZE,
            r.stream.cursor_spec() == 0,
            r.stream.needs_refill(),
            r.stream.emitted_spec() == Seq::<i64>::empty(),
    {
        UsnJournalIter {
            journal_id,
            reason_mask: USN_REASON_MASK_ALL,
            return_only_on_close: 0,
            timeout: 0,
            bytes_to_wait_for: 1,
            buffer_size: DEFAULT_BUFFER_SIZE,
            stream: RecordStream::new(0),
        }
    }

    /// Creates an iterator over a journal with the given options; the
    /// continuation cursor is seeded from the starting sequence number.
    pub fn new_with_options(journal_id: u64, options: &EnumOptions) -> (r: UsnJournalIter)
        ensures
            r.journal_id == journal_id,
            r.reason_mask == options.reason_mask,
            r.return_only_on_close == (if options.only_on_close {
                1u32
            } else {
                0u32
            }),
            r.timeout == options.timeout,
            r.bytes_to_wait_for == (if options.wait_for_more {
                1u64
            } else {
                0u64
            }),
            r.buffer_size == options.buffer_size,
            r.stream.cursor_spec() == options.start_usn as u64,
            r.stream.needs_refill(),
            r.stream.emitted_spec() == Seq::<i64>::empty(),
    {
        UsnJournalIter {
            journal_id,
            reason_mask: options.reason_mask,
            return_only_on_close: if options.only_on_close {
                1
            } else {
                0
            },
            timeout: options.timeout,
            bytes_to_wait_for: if options.wait_for_more {
                1
            } else {
                0
            },
            buffer_size: options.buffer_size,
            stream: RecordStream::new(options.start_usn as u64),
        }
    }

    /// Describes the bulk read the caller must perform next: it starts at
    /// the stream's current continuation cursor.
    pub fn read_request(&self) -> (r: ReadRequest)
        ensures
            r == (ReadRequest {
                start_usn: self.stream.cursor_spec() as i64,
                reason_mask: self.reason_mask,
                return_only_on_close: self.return_only_on_close,
                timeout: self.timeout,
                bytes_to_wait_for: self.bytes_to_wait_for,
                journal_id: self.journal_id,
                buffer_size: self.buffer_size,
            }),
    {
        ReadRequest {
            start_usn: self.stream.next_cursor() as i64,
            reason_mask: self.reason_mask,
            return_only_on_close: self.return_only_on_close,
            timeout: self.timeout,
            bytes_to_wait_for: self.bytes_to_wait_for,
            journal_id: self.journal_id,
            buffer_size: self.buffer_size,
        }
    }

    /// Takes the next decoded entry out of the buffer, or asks for one
    /// more bulk read, or reports the end of the sequence. A record that
    /// fails validation is a fatal error that ends iteration.
    pub fn next_entry(&mut self) -> (r: Result<JournalStep, UsnError>)
        ensures
            old(self).stream.finished_spec() ==> {
                &&& r matches Ok(JournalStep::Done)
                &&& *final(self) == *old(self)
            },
            old(self).stream.needs_refill() ==> {
                &&& r matches Ok(JournalStep::NeedData)
                &&& *final(self) == *old(self)
            },
            (!old(self).stream.finished_spec() && old(self).stream.offset_spec() < old(
                self,
            ).stream.buffer_spec().len() && valid_record_at(
                old(self).stream.buffer_spec(),
                old(self).stream.offset_spec(),
            )) ==> {
                &&& r matches Ok(JournalStep::Entry(e))
                &&& e.decoded_at(old(self).stream.buffer_spec(), old(self).stream.offset_spec())
                &&& final(self).stream.offset_spec() == old(self).stream.offset_spec() + le_u32_at(
                    old(self).stream.buffer_spec(),
                    old(self).stream.offset_spec() + OFF_RECORD_LENGTH,
                )
                &&& final(self).stream.emitted_spec() == old(self).stream.emitted_spec().push(
                    e.usn,
                )
                &&& final(self).stream.buffer_spec() == old(self).stream.buffer_spec()
                &&& final(self).stream.cursor_spec() == old(self).stream.cursor_spec()
                &&& !final(self).stream.finished_spec()
            },
            (!old(self).stream.finished_spec() && old(self).stream.offset_spec() < old(
                self,
            ).stream.buffer_spec().len() && !valid_record_at(
                old(self).stream.buffer_spec(),
                old(self).stream.offset_spec(),
            )) ==> {
                &&& r is Err
                &&& final(self).stream.finished_spec()
            },
            final(self).journal_id == old(self).journal_id,
            final(self).reason_mask == old(self).reason_mask,
            final(self).return_only_on_close == old(self).return_only_on_close,
            final(self).timeout == old(self).timeout,
            final(self).bytes_to_wait_for == old(self).bytes_to_wait_for,
            final(self).buffer_size == old(self).buffer_size,
    {
        match self.stream.next_record() {
            Ok(NextStep::Record(rec)) => Ok(JournalStep::Entry(UsnEntry::new(&rec))),
            Ok(NextStep::NeedData) => Ok(JournalStep::NeedData),
            Ok(NextStep::Done) => Ok(JournalStep::Done),
            Err(e) => Err(e),
        }
    }

    /// Hands the iterator the buffer one bulk read filled; the new
    /// continuation cursor is captured from its first eight bytes before
    /// any record is interpreted. A buffer holding nothing past the
    /// cursor reports the channel's end of data: iteration ends without
    /// an error.
    pub fn provide_data(&mut self, data: Vec<u8>) -> (r: Result<(), UsnError>)
        requires
            !old(self).stream.finished_spec(),
        ensures
            data@.len() > CURSOR_LEN ==> {
                &&& r is Ok
                &&& final(self).stream.cursor_spec() == le_u64_at(data@, 0)
                &&& final(self).stream.buffer_spec() == data@
                &&& final(self).stream.offset_spec() == CURSOR_LEN
                &&& !final(self).stream.finished_spec()
                &&& final(self).stream.emitted_spec() == old(self).stream.emitted_spec()
            },
            data@.len() == CURSOR_LEN ==> {
                &&& r is Ok
                &&& final(self).stream.cursor_spec() == le_u64_at(data@, 0)
                &&& final(self).stream.finished_spec()
                &&& final(self).stream.emitted_spec() == old(self).stream.emitted_spec()
            },
            data@.len() < CURSOR_LEN ==> {
                &&& r is Err
                &&& *final(self) == *old(self)
            },
            final(self).journal_id == old(self).journal_id,
            final(self).reason_mask == old(self).reason_mask,
            final(self).return_only_on_close == old(self).return_only_on_close,
            final(self).timeout == old(self).timeout,
            final(self).bytes_to_wait_for == old(self).bytes_to_wait_for,
            final(self).buffer_size == old(self).buffer_size,
    {
        self.stream.ingest(data)
    }

    /// Records that the channel reported end of data: iteration ends
    /// without an error.
    pub fn end_of_data(&mut self)
        ensures
            final(self).stream.finished_spec(),
            final(self).stream.emitted_spec() == old(self).stream.emitted_spec(),
            final(self).journal_id == old(self).journal_id,
    {
        self.stream.finish()
    }
}


/// The platform error code that reports an inactive journal.
pub const ERROR_JOURNAL_NOT_ACTIVE_CODE: u32 = 1179;

/// The platform error code that reports the end of the channel's data.
pub const ERROR_HANDLE_EOF_CODE: u32 = 38;

/// Decides whether a failed journal query is answered by creating the
/// journal and querying again: only when the caller asked for creation
/// and the failure says the journal is not active; any other failure
/// propagates.
pub fn should_create_journal(create_if_not_active: bool, error_code: u32) -> (r: bool)
    ensures
        r == (create_if_not_active && error_code == ERROR_JOURNAL_NOT_ACTIVE_CODE),
{
    create_if_not_active && error_code == ERROR_JOURNAL_NOT_ACTIVE_CODE
}

} // verus!
