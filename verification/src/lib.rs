//! A multiplexed RPC correlation engine.
//!
//! Many concurrent callers share one duplex connection. Each logical call is
//! tagged with a correlation identifier allocated by the single bus loop that
//! owns the connection; inbound messages are matched back to the caller that
//! issued them. The decision logic of that loop, the registry of outstanding
//! calls, the client-side call ritual and the wire codec are all verified
//! here; the asynchronous plumbing that feeds events into the loop lives
//! outside the library.

pub mod bus;
pub mod call;
pub mod codec;
pub mod compat;
pub mod registry;
pub mod service;
pub mod stream;
pub mod test_api;
pub mod tunnel;

use vstd::prelude::*;

verus! {

/// The first correlation identifier every fresh epoch hands out.
pub const FIRST_CORRELATION_ID: u64 = 0;

} // verus!
