//! Runtime core of a multi-pattern matching engine.
//!
//! A compiled pattern database is scanned against input, either in one call
//! over a whole buffer (block mode) or chunk by chunk through a long-lived
//! stream.  Every scan call needs a scratch workspace sized for the database
//! it runs against.  Matches are handed, one at a time and in increasing
//! end-offset order, to a caller-supplied callback, whose answer may stop
//! the scan early.  Engine status codes are translated into the closed
//! [`errors::Error`] taxonomy at every call boundary.

pub mod database;
pub mod errors;
pub mod scan;
pub mod scratch;
pub mod stream;

pub use database::{Database, DbMode, Pattern};
pub use errors::{AsCompileResult, AsResult, CompileError, Error};
pub use scan::{scan, MatchEvent, MatchEventCallback, Matching};
pub use scratch::Scratch;
pub use stream::Stream;
