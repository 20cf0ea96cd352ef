//! Reading Petra GRD grid files behind a typed, verified boundary.
//!
//! The byte-level decoder is the `petra_grid` crate, treated as a black box:
//! it is reached only through a trusted wrapper, and everything around it —
//! the stream-source bookkeeping, the guard that screens malformed streams,
//! the exposition of the decoded record, and the error taxonomy — is
//! verified.

pub mod extern_types;
pub mod units;
pub mod record;
pub mod error;
pub mod stream;
pub mod grid;
pub mod decode;

pub use units::UnitOfMeasure;
pub use record::{
    Timestamp, GridHeader, GridBounds, GridMetadata, GridData, GridRecord, DataModel, RecordModel,
};
pub use error::{GridError, ErrorModel};
pub use stream::StreamPos;
pub use grid::GridValue;
pub use decode::read_grid_bytes;
