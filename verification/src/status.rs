//! The status flag that the worker publishes beside the buffer.

use vstd::prelude::*;

verus! {

/// No load has been requested yet.
pub const IDLE: usize = 0;

/// A load is in flight: the buffer may be overwritten at any moment.
pub const PROCESSING: usize = 1;

/// The most recent load succeeded: the buffer holds its path and bytes.
pub const COMPLETED: usize = 2;

/// The most recent load failed: the buffer must not be trusted.
pub const ERRORED: usize = 3;

/// Reserved for whoever parks the worker; the worker never publishes it.
pub const SLEEPING: usize = 4;

/// A status that ends a request.
pub open spec fn terminal(status: usize) -> bool {
    status == COMPLETED || status == ERRORED
}

/// The only changes of the flag that the worker makes: a request moves it
/// from `IDLE` or a terminal status to `PROCESSING`, and the outcome of the
/// load moves it from `PROCESSING` to a terminal status.
pub open spec fn may_follow(from: usize, to: usize) -> bool {
    ||| (from == IDLE || terminal(from)) && to == PROCESSING
    ||| from == PROCESSING && terminal(to)
}

/// Whether `status` ends a request.
pub fn is_terminal(status: usize) -> (yes: bool)
    ensures
        yes == terminal(status),
{
    status == COMPLETED || status == ERRORED
}

/// Whether a reader that observes `status` may use the buffer: only after a
/// load that succeeded. A reader checks once before taking the lock and once
/// more while holding it.
pub fn is_ready(status: usize) -> (yes: bool)
    ensures
        yes == (status == COMPLETED),
{
    status == COMPLETED
}

} // verus!
