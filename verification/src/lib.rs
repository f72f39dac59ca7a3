//! Client-side core of an epoch-aware, replicated, append-only journal.
//!
//! A journal is divided into named streams; time within a stream is divided
//! into epochs, and each epoch has at most one leader that may append.  This
//! crate holds the verified core of the client: the timestamp wire codec, the
//! event and epoch-state models, the request builders and batch decoder of the
//! remote stream client, the release watermark, and the mapping of transport
//! faults into domain errors.  The asynchronous transport itself lives outside
//! the verified library.

pub mod error;
pub mod event;
pub mod remote;
pub mod shared;
pub mod timestamp;
pub mod watermark;
pub mod write_batch;

pub use error::JournalError;
pub use error::ErrorKind;
pub use event::Event;
pub use remote::Stream;
pub use shared::EpochState;
pub use shared::Role;
pub use timestamp::Timestamp;
pub use write_batch::WriteBatch;
