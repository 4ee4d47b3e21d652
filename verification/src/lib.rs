//! Drivers for the stateful protocols of a cloud drive service: resumable
//! upload, copy monitoring and paged listing, with the byte ranges, field
//! descriptors and query options they are built from.
//!
//! A driver makes no request itself. Each operation has two halves: one that
//! checks the call and says what to request, and one that takes the outcome
//! of the request and moves the driver on. Whoever performs the requests
//! calls the two in turn.

pub mod conflict;
pub mod copy;
pub mod error;
pub mod fetch;
pub mod option;
pub mod range;
pub mod resource;
pub mod text;
pub mod upload;

pub use conflict::ConflictBehavior;
pub use copy::{CopyProgressMonitor, CopyStatus};
pub use error::Error;
pub use fetch::{ListChildrenFetcher, TrackChangeFetcher};
pub use range::ExpectRange;
pub use resource::{DriveId, ItemId, Tag};
pub use upload::UploadSession;
