//! The error taxonomy every fallible operation of this crate reports.

use vstd::prelude::*;

verus! {

/// `std::io::Error` is carried opaquely inside [`SerialError::IoError`];
/// the library never inspects it.
#[verifier::external_type_specification]
#[verifier::external_body]
pub struct ExIoError(std::io::Error);

/// Serial port error type
#[derive(Debug)]
pub enum SerialError {
    /// IO Error
    IoError(std::io::Error),
    /// OS Specific error
    OsError {
        /// OS Error code
        code: u32,
        /// OS Error description
        desc: String,
    },
    /// Internal library error
    LibraryError(String),
}

impl SerialError {
    /// True exactly when this is a [`SerialError::LibraryError`] whose
    /// message is `msg`.
    pub open spec fn is_library_error(self, msg: Seq<char>) -> bool {
        self matches SerialError::LibraryError(m) && m@ == msg
    }
}

/// Serial port result type
pub type SerialResult<T> = Result<T, SerialError>;

} // verus!
