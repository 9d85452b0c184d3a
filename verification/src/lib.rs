//! An in-process broker that turns request/response traffic into a pull-based,
//! batch-read source: producers enqueue one message per request, a single
//! consumer reads batches and later acknowledges offsets, and each
//! acknowledgement releases the producer that is waiting on that message.
//!
//! The broker is written without I/O: the caller owns the queues and the clock,
//! feeds arrivals and clock readings in, and performs what the broker asks for.

pub mod actor;
pub mod error;
pub mod laws;
pub mod message;
pub mod source;
pub mod string_map;
pub mod text;
