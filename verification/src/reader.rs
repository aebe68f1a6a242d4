//! The buffered record-stream core shared by the change-journal reader
//! and the full-table scanner.
//!
//! The stream owns a reusable byte buffer and walks the records packed in
//! it. When the buffer is exhausted the caller performs one bulk read
//! against the external channel, starting at the stream's continuation
//! cursor, and hands the filled buffer back. The first eight bytes of
//! every filled buffer are the next continuation cursor: they are
//! captured before any record is interpreted, and the walk starts
//! immediately past them, so the cursor bytes are never read as a record.
//! End of data from the channel ends the stream without an error.

use vstd::prelude::*;
use vstd::string::*;
use crate::bytes::{le_u64_at, read_le_u64};
use crate::errors::UsnError;
use crate::record::{RawRecord, decode_record, valid_record_at, RECORD_HEADER_LEN};

verus! {

/// Byte length of the continuation-cursor field at the head of every
/// filled buffer.
pub const CURSOR_LEN: usize = 8;

/// What a stream holds next: a decoded record, a request for one more
/// bulk read, or the end of the sequence.
pub enum NextStep {
    /// The record decoded at the stream's previous offset.
    Record(RawRecord),
    /// The buffer is exhausted: perform a bulk read at the continuation
    /// cursor and hand the result to `ingest`, or report the channel's
    /// end of data with `finish`.
    NeedData,
    /// The sequence has ended.
    Done,
}

/// The buffered record-stream state machine.
///
/// The ghost `emitted` sequence records, in order, the sequence number of
/// every record the stream has produced.
pub struct RecordStream {
    buffer: Vec<u8>,
    offset: usize,
    cursor: u64,
    finished: bool,
    emitted: Ghost<Seq<i64>>,
}

impl RecordStream {
    /// The continuation cursor the next bulk read must start from.
    pub closed spec fn cursor_spec(self) -> u64 {
        self.cursor
    }

    /// The bytes most recently handed to the stream.
    pub closed spec fn buffer_spec(self) -> Seq<u8> {
        self.buffer@
    }

    /// The offset of the next record in the buffer.
    pub closed spec fn offset_spec(self) -> int {
        self.offset as int
    }

    /// Whether the stream has ended.
    pub closed spec fn finished_spec(self) -> bool {
        self.finished
    }

    /// The sequence numbers of every record produced so far, in order.
    pub closed spec fn emitted_spec(self) -> Seq<i64> {
        self.emitted@
    }

    /// The stream is out of buffered records and needs one bulk read.
    pub open spec fn needs_refill(self) -> bool {
        !self.finished_spec() && self.offset_spec() >= self.buffer_spec().len()
    }

    /// Creates a stream whose first bulk read starts at `seed_cursor`.
    pub fn new(seed_cursor: u64) -> (r: RecordStream)
        ensures
            r.cursor_spec() == seed_cursor,
            r.buffer_spec().len() == 0,
            !r.finished_spec(),
            r.needs_refill(),
            r.emitted_spec() == Seq::<i64>::empty(),
    {
        RecordStream {
            buffer: Vec::new(),
            offset: 0,
            cursor: seed_cursor,
            finished: false,
            emitted: Ghost(Seq::empty()),
        }
    }

    /// Reads the continuation cursor the next bulk read must start from.
    pub fn next_cursor(&self) -> (r: u64)
        ensures
            r == self.cursor_spec(),
    {
        self.cursor
    }

    /// Accepts the buffer one bulk read filled.
    ///
    /// The new continuation cursor is captured from the first eight bytes
    /// before any record is interpreted, and the walk resumes immediately
    /// past them. A buffer holding nothing past the cursor is the
    /// channel's way of reporting no more data: the sequence ends without
    /// an error. A buffer too short to hold the cursor is malformed
    /// continuation data and leaves the stream unchanged.
    pub fn ingest(&mut self, data: Vec<u8>) -> (r: Result<(), UsnError>)
        requires
            !old(self).finished_spec(),
        ensures
            data@.len() > CURSOR_LEN ==> {
                &&& r is Ok
                &&& final(self).cursor_spec() == le_u64_at(data@, 0)
                &&& final(self).buffer_spec() == data@
                &&& final(self).offset_spec() == CURSOR_LEN
                &&& !final(self).finished_spec()
                &&& final(self).emitted_spec() == old(self).emitted_spec()
            },
            data@.len() == CURSOR_LEN ==> {
                &&& r is Ok
                &&& final(self).cursor_spec() == le_u64_at(data@, 0)
                &&& final(self).finished_spec()
                &&& final(self).emitted_spec() == old(self).emitted_spec()
            },
            data@.len() < CURSOR_LEN ==> {
                &&& (r matches Err(UsnError::OtherError(m)) && m@ == "malformed continuation data"@)
                &&& *final(self) == *old(self)
            },
    {
        if data.len() < CURSOR_LEN {
            return Err(UsnError::OtherError(String::from_str("malformed continuation data")));
        }
        self.cursor = read_le_u64(data.as_slice(), 0);
        if data.len() == CURSOR_LEN {
            self.finished = true;
            return Ok(());
        }
        self.buffer = data;
        self.offset = CURSOR_LEN;
        Ok(())
    }

    /// Records that the channel reported end of data: the sequence ends,
    /// and no error is produced.
    pub fn finish(&mut self)
        ensures
            final(self).finished_spec(),
            final(self).emitted_spec() == old(self).emitted_spec(),
            final(self).cursor_spec() == old(self).cursor_spec(),
    {
        self.finished = true;
    }

    /// Takes the next record out of the buffer.
    ///
    /// Walks to the record at the current offset and advances by the
    /// record's self-reported length. A record that fails validation is
    /// fatal: the error is returned and the stream ends.
    pub fn next_record(&mut self) -> (r: Result<NextStep, UsnError>)
        ensures
            old(self).finished_spec() ==> {
                &&& r matches Ok(NextStep::Done)
                &&& *final(self) == *old(self)
            },
            old(self).needs_refill() ==> {
                &&& r matches Ok(NextStep::NeedData)
                &&& *final(self) == *old(self)
            },
            (!old(self).finished_spec() && old(self).offset_spec() < old(self).buffer_spec().len()
                && valid_record_at(old(self).buffer_spec(), old(self).offset_spec())) ==> {
                &&& r matches Ok(NextStep::Record(rec))
                &&& rec.is_record_at(old(self).buffer_spec(), old(self).offset_spec())
                &&& final(self).offset_spec() == old(self).offset_spec() + rec.record_length
                &&& final(self).buffer_spec() == old(self).buffer_spec()
                &&& final(self).cursor_spec() == old(self).cursor_spec()
                &&& !final(self).finished_spec()
                &&& final(self).emitted_spec() == old(self).emitted_spec().push(rec.usn)
            },
            (!old(self).finished_spec() && old(self).offset_spec() < old(self).buffer_spec().len()
                && !valid_record_at(old(self).buffer_spec(), old(self).offset_spec())) ==> {
                &&& r is Err
                &&& final(self).finished_spec()
                &&& final(self).emitted_spec() == old(self).emitted_spec()
            },
    {
        if self.finished {
            return Ok(NextStep::Done);
        }
        if self.offset >= self.buffer.len() {
            return Ok(NextStep::NeedData);
        }
        match decode_record(self.buffer.as_slice(), self.offset) {
            Ok(rec) => {
                proof {
                    assert(rec.record_length >= RECORD_HEADER_LEN);
                }
                self.offset = self.offset + (rec.record_length as usize);
                proof {
                    self.emitted@ = self.emitted@.push(rec.usn);
                }
                Ok(NextStep::Record(rec))
            },
            Err(e) => {
                self.finished = true;
                Err(e)
            },
        }
    }
}

/// A strictly increasing history stays strictly increasing when a record
/// with a larger sequence number is produced.
///
/// Within one enumeration session the channel stamps each record with a
/// sequence number above every earlier one; under that assumption this
/// lemma, applied at each `Record` step, shows the stream's whole emitted
/// history strictly increasing.
pub proof fn lemma_emitted_stays_increasing(history: Seq<i64>, next: i64)
    requires
        forall|i: int, j: int| 0 <= i < j < history.len() ==> history[i] < history[j],
        history.len() > 0 ==> history.last() < next,
    ensures
        forall|i: int, j: int|
            0 <= i < j < history.push(next).len() ==> history.push(next)[i] < history.push(next)[j],
{
    assert forall|i: int, j: int| 0 <= i < j < history.push(next).len() implies history.push(
        next,
    )[i] < history.push(next)[j] by {
        if j < history.len() {
        } else {
            assert(history.push(next)[j] == next);
            if i < history.len() {
                assert(history[history.len() - 1] < next);
                if i < history.len() - 1 {
                    assert(history[i] < history[history.len() - 1]);
                }
            }
        }
    }
}


/// A history in which every sequence number exceeds its predecessor is
/// strictly increasing throughout.
///
/// Together with `lemma_emitted_stays_increasing` this closes the law
/// for a whole session: every `Record` step appends one sequence number
/// to the emitted history, so when the channel stamps each record above
/// its predecessor, the history the stream emits is strictly increasing.
pub proof fn lemma_adjacent_increasing_implies_sorted(s: Seq<i64>)
    requires
        forall|i: int| 0 < i < s.len() ==> #[trigger] s[i - 1] < s[i],
    ensures
        forall|i: int, j: int| 0 <= i < j < s.len() ==> s[i] < s[j],
    decreases s.len(),
{
    if s.len() > 1 {
        lemma_adjacent_increasing_implies_sorted(s.drop_last());
        assert forall|i: int, j: int| 0 <= i < j < s.len() implies s[i] < s[j] by {
            if j < s.len() - 1 {
                assert(s.drop_last()[i] < s.drop_last()[j]);
            } else {
                let last: int = s.len() - 1;
                assert(s[last - 1] < s[last]);
                if i < s.len() - 2 {
                    assert(s.drop_last()[i] < s.drop_last()[s.len() - 2]);
                }
            }
        }
    }
}

} // verus!
