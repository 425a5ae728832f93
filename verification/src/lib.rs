//! The decision logic of a uTP byte stream.
//!
//! A stream keeps, for each kind of operation (read, write, flush, close), at most
//! one future in flight. Each poll of the stream either starts a new operation or
//! resumes the one already in flight, and the outcome of that poll decides what
//! happens to the stored future. This crate holds that bookkeeping as a verified
//! state machine; driving the futures themselves is left to the caller.

pub mod laws;
pub mod stream;

pub use crate::stream::{Op, Outcome, Readiness, Slot, UtpStream, UtpStreamFutures};
