//! Writing ZIP archives incrementally into a byte sink that never seeks.
//!
//! The archive logic is free of I/O: every byte produced is queued in the
//! writer and handed out with `ZipFileWriter::take_output`, so any transport
//! (blocking or asynchronous) can carry it.

pub mod compress;
pub mod error;
pub mod offset_writer;
pub mod write;
pub mod header;
pub mod lemmas;

pub use header::{
    CentralDirectoryHeader, DataDescriptor, EndOfCentralDirectoryHeader, LocalFileHeader,
};
pub use compress::Compression;
pub use error::ZipError;
pub use write::{EntryOptions, ZipFileWriter};
