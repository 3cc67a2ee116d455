//! Concurrent file-hashing pipeline: walk a directory, hash every regular
//! file, and report progress as an ordered sequence of status events.
//!
//! This crate holds the verified core: the event vocabulary, the digest
//! mapping, the content hasher, and the pipeline state machine that decides
//! which event is emitted at each step.  The unverified shell around it
//! performs the directory walk, the file reads, and the async delivery.

pub mod digest_map;
pub mod events;
pub mod hashing;
pub mod pipeline;

pub use digest_map::DigestMap;
pub use events::{CurrentFileUpdate, ProgressHashingError, WorkStatus};
pub use hashing::ContentHasher;
pub use pipeline::PipelineRun;
