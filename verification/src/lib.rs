//! Background buffering of disk images.
//!
//! A worker takes image paths from a request queue, one at a time, has each
//! image read into a shared buffer, and publishes a status flag that readers
//! poll to learn when the buffered bytes may be used. This crate holds the
//! rules of that hand-off: the status values, the worker's decisions as a
//! state machine, what each decision does to the buffer, and the proofs that
//! a reader who honours the flag never sees a half-written buffer. Threads,
//! locks, the queue and the file reads are the caller's.

pub mod buffer;
pub mod error_view;
pub mod loader;
pub mod protocol;
pub mod status;
pub mod worker;
