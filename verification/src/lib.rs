//! The host-independent core of a binding that lets a single-threaded host drive
//! an asynchronous key-value client: the host-value model, argument decoding,
//! range building, error classification and result conversion.

pub mod host;
pub mod error;
pub mod utils;
pub mod range;
pub mod command;
pub mod raw;
pub mod transaction;
