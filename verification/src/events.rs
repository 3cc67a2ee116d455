//! The vocabulary of the event sequence: the status events one hashing
//! invocation delivers to its consumer, and the closed set of failure kinds.

use vstd::prelude::*;
use crate::digest_map::DigestMap;

verus! {

/// The ways the hashing operation can fail.
///
/// `ErrCollectingFiles` is fatal: the directory tree could not be walked, and
/// the event sequence ends right after it.  `ErrHashingFile` is local to one
/// file: the pipeline reports it, records the empty sentinel digest for that
/// file, and goes on with the rest.
#[derive(Clone, Copy, Debug, PartialEq, Eq, Structural)]
pub enum ProgressHashingError {
    ErrHashingFile,
    ErrCollectingFiles,
}

/// One progress notification: the file just hashed, and how many files had
/// been hashed before it (the pre-increment value of the shared counter).
#[derive(Clone, Debug)]
pub struct CurrentFileUpdate {
    pub current_file: String,
    pub total_hashed_files: usize,
}

/// A status event of one hashing invocation.
///
/// A well-formed sequence is either a single `Error(ErrCollectingFiles)`, or
/// `Started(n)` followed by `n` file-level events (`Progress` or
/// `Error(ErrHashingFile)`) and one terminal `Result` whose mapping has `n`
/// entries.
#[derive(Clone, Debug)]
pub enum WorkStatus {
    Started(usize),
    Progress(CurrentFileUpdate),
    Result(DigestMap),
    Error(ProgressHashingError),
}

} // verus!
