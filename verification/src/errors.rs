//! Error taxonomy for journal and table-scan operations.

use vstd::prelude::*;
use vstd::string::*;
use crate::text::{decimal_of, decimal_string};

verus! {

/// Error type for journal, table-scan and path-resolution operations.
///
/// System failures are carried as plain values: an I/O failure as its
/// message, a platform failure as its numeric error code, so that callers
/// can inspect the code.
#[derive(Debug, Clone, PartialEq, Eq)]
pub enum UsnError {
    /// The caller does not hold the elevated privilege the operation needs.
    PermissionError,
    /// The supplied path does not resolve to a volume.
    InvalidMountPointError(String),
    /// An underlying I/O failure, carried as its message.
    IoError(String),
    /// A platform call failed; the numeric error code is preserved for
    /// caller inspection.
    WinApiError(u32),
    /// Any other failure, such as malformed continuation data or a
    /// negative timestamp.
    OtherError(String),
}

impl UsnError {
    /// The human-readable message of this error.
    pub open spec fn message_spec(self) -> Seq<char> {
        match self {
            UsnError::PermissionError => "Access denied: Administrator privileges required."@,
            UsnError::InvalidMountPointError(p) => "Invalid mount point: "@ + p@,
            UsnError::IoError(m) => "IO error: "@ + m@,
            UsnError::WinApiError(c) => "Windows API error: "@ + decimal_of(c as u64),
            UsnError::OtherError(m) => "Other error: "@ + m@,
        }
    }

    /// Renders the error as a human-readable message.
    pub fn message(&self) -> (r: String)
        ensures
            r@ == self.message_spec(),
    {
        match self {
            UsnError::PermissionError => String::from_str(
                "Access denied: Administrator privileges required.",
            ),
            UsnError::InvalidMountPointError(p) => String::from_str("Invalid mount point: ").concat(
                p.as_str(),
            ),
            UsnError::IoError(m) => String::from_str("IO error: ").concat(m.as_str()),
            UsnError::WinApiError(c) => String::from_str("Windows API error: ").concat(
                decimal_string(*c as u64).as_str(),
            ),
            UsnError::OtherError(m) => String::from_str("Other error: ").concat(m.as_str()),
        }
    }
}

} // verus!
