//! Errors that end a run.
use vstd::prelude::*;

verus! {

/// Why a run stopped before all of its posts were processed.
#[derive(Debug)]
pub enum QueueError {
    /// The output directory could not be created.
    DirCreationError { message: String },
    /// The archive file could not be created or prepared.
    ArchiveCreationError { message: String },
    /// An entry could not be written into the archive.
    ZipFileWriteError { message: String },
    /// The archive could not be finalized; the file is not a valid archive.
    ZipFinishError { message: String },
}

} // verus!
