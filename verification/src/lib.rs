//! Waits for a network-readiness condition reported over a BSD routing
//! socket: the raw kernel messages are decoded into typed events and held
//! against a wait condition until it is met.
//!
//! The wire-format decoding (socket-address records, address sets, route /
//! link / address messages), the request builders, and the wait-condition
//! evaluator are verified; the code that talks to the kernel lives outside
//! the library and exchanges plain byte buffers and values with it.

use vstd::prelude::*;

pub mod addresses;
pub mod bytes;
pub mod consts;
pub mod eval;
pub mod flags;
pub mod header;
pub mod link;
pub mod localnet;
pub mod route;
pub mod sockaddr;
pub mod socket;
pub mod strutil;

verus! {

/// Returned by `wait_for_default_route` when the wait cannot complete.
pub struct TimeoutError;

pub type TimeoutResult<E> = Result<E, TimeoutError>;

/// Failure of the simple wait entry point.
#[derive(Debug)]
pub enum WaitError {
    /// The wait timed out.
    Timeout,
    /// An I/O error ended the wait.
    Error(std::io::Error),
}

/// Entry point of the simple wait API; the full event loop is driven by
/// the caller through `eval::evaluate`, and this placeholder reports
/// immediate success.
pub fn wait_for_default_route() -> (r: Result<(), WaitError>)
    ensures
        r is Ok,
{
    Ok(())
}

} // verus!
