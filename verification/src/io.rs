//! File system data types.  Opening, reading and writing are host calls
//! outside the library; here stand the modes, errors and entry records
//! they exchange.

use vstd::prelude::*;

use crate::clock::DateTime;

verus! {

/// How a file is opened.
#[derive(Clone, Copy, Debug)]
pub enum FileMode {
    Read,
    Write,
}

/// Where a seek offset is measured from.
#[derive(Clone, Copy, Debug)]
pub enum SeekOrigin {
    Begin,
    Current,
    End,
}

/// Why a file system operation failed.
#[derive(Clone, Copy, Debug)]
pub enum IOError {
    TooManyFilesOpen,
    ReadOnlyFileSystem,
    FileNotFound,
    DirectoryNotFound,
    NoSuchDevice,
    NotSupported,
    InvalidSeek,
    FileTooBig,
    FileAlreadyExists,
    NoSpaceOnDevice,
    ReachedEndOfFile,
}

/// An open file held by the host; the handle is assigned by the host.
pub struct FileStream {
    pub handle: i32,
}

/// One entry of a directory listing.
pub struct DirectoryEntry {
    pub name: String,
    pub is_directory: bool,
    pub size: i32,
    pub created: DateTime,
    pub modified: DateTime,
}

/// An open directory listing held by the host.
pub struct DirectoryInfo {
    pub handle: i32,
}

/// A directory entry in the host's own wire layout.
pub struct NativeDirectoryInfo {
    pub name: [i8; 32],
    pub created: u64,
    pub modified: u64,
    pub size: i32,
    pub is_directory: u32,
}

} // verus!
