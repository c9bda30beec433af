//! Errors of the archive writer.

use vstd::prelude::*;

verus! {

/// Why an operation on the archive writer was refused or failed.
#[derive(Clone, Copy, PartialEq, Eq, Structural, Debug)]
pub enum ZipError {
    /// A streamed entry is still open.
    EntryOpen,
    /// No streamed entry is open to take data or to be finished.
    NoEntryOpen,
    /// An entry of the same file name was already written.
    DuplicateName,
    /// A length, size, offset or count does not fit its field in the records.
    FieldTooLarge,
    /// The compressor reported a failure.
    CompressionFailed,
}

impl ZipError {
    /// A short description of the error.
    pub fn description(&self) -> String {
        match self {
            ZipError::EntryOpen => "a streamed entry is still open".to_string(),
            ZipError::NoEntryOpen => "no streamed entry is open".to_string(),
            ZipError::DuplicateName => "an entry of this file name was already written".to_string(),
            ZipError::FieldTooLarge => "a value does not fit its field in the ZIP records".to_string(),
            ZipError::CompressionFailed => "the compressor failed".to_string(),
        }
    }
}

} // verus!
