//! Upload-slot registry and ingestion pipeline for a file intake service.
//!
//! The registry hands out slot identifiers and admits at most one upload per
//! slot. The pipeline turns the fields of one upload request into a hashed,
//! tagged record, one event at a time, and says after each event what the
//! caller has to do next.

pub mod clock;
pub mod digest;
pub mod file_allocator;
pub mod file_id;
pub mod ingest;
pub mod record;
pub mod tag_buffer;
pub mod trace;
pub mod upload;

pub use file_allocator::{FileAllocator, FileState};
pub use file_id::FileId;
pub use ingest::{Action, Event, Ingestion, Outcome};
pub use record::{IndexedFile, IndexedTag};
pub use upload::{Rejection, Reply};
