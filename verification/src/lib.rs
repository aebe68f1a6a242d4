//! Safe enumeration and path resolution over a filesystem change journal
//! and master record table.
//!
//! The crate decodes the variable-length binary records that a volume's
//! bulk-read channel produces, walks them through a reusable buffer with
//! continuation-cursor handling, and resolves parent-pointer chains into
//! full paths using a bounded least-recently-used cache.

use vstd::prelude::*;

pub mod bytes;
pub mod errors;
pub mod journal;
pub mod mft;
pub mod path;
pub mod reader;
pub mod record;
pub mod text;
pub mod time;
pub mod volume;

verus! {

/// Update sequence number: a monotonically increasing counter stamped on
/// each journal record at write time.
pub type Usn = i64;

/// Default size of the reusable read buffer, in bytes.
pub const DEFAULT_BUFFER_SIZE: usize = 65536;

/// Default maximum size of a newly created journal, in bytes.
pub const DEFAULT_JOURNAL_MAX_SIZE: u64 = 33554432;

/// Default growth increment of a newly created journal, in bytes.
pub const DEFAULT_JOURNAL_ALLOCATION_DELTA: u64 = 8388608;

/// Reason mask that accepts every change reason.
pub const USN_REASON_MASK_ALL: u32 = 0xFFFF_FFFF;

} // verus!
