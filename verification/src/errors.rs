//! Error conditions surfaced by the driver.

use vstd::prelude::*;

verus! {

/// A bus-level failure (no acknowledgment, arbitration loss, timeout, general
/// I/O failure) reported by the transport during a read or write transaction.
/// It is always propagated to the caller, never swallowed or retried.
#[derive(Clone, Copy, Debug, PartialEq, Eq, Structural)]
pub struct TransportError;

/// A data-integrity failure: a raw register value whose 2-bit channel field
/// lies outside the four valid codes. Recoverable by the caller; it is only
/// reachable when decoding data that originated from the hardware.
#[derive(Clone, Copy, Debug, PartialEq, Eq, Structural)]
pub struct InvalidChannelCode;

} // verus!
