//! Chunked data retrieval and export engine for a time-series database.
//!
//! The library decodes tabular query responses, paginates a dataset in
//! bounded-size chunks with an offset cursor, streams full-dataset exports
//! chunk by chunk to a record sink, and keeps a display cache whose string
//! projection never diverges from the raw rows. All network and file I/O is
//! left to the surrounding application, which hands the engine plain values.

pub mod cache;
pub mod client;
pub mod error;
pub mod export;
pub mod numfmt;
pub mod paginate;
pub mod value;

pub use error::QueryError;
pub use value::CellValue;
