//! The verified core of a reader for Redis RDB dump files built on librdb.
//!
//! librdb parses the file and reports what it finds through callbacks. This
//! crate holds the decisions around those callbacks: the typed values a
//! handler receives, what a handler's result tells librdb, and what a parse
//! reports when it ends.

pub mod decimal;
pub mod dispatch;
pub mod laws;
pub mod parser;
pub mod raw;
pub mod types;

pub use dispatch::HandlerState;
pub use parser::Parser;
pub use types::{
    DataType, KeyInfo, RdbError, SlotInfo, StreamConsumerMeta, StreamGroupMeta, StreamId,
    StreamIdmpMeta, StreamMeta, StreamPendingEntry,
};

use vstd::prelude::*;

verus! {

/// The result of a parser step or of a callback handler.
pub type Result<T> = core::result::Result<T, RdbError>;

} // verus!
