//! Marker traits that stand for the send/sync bounds the asynchronous
//! plumbing above this crate needs. On targets with real threads they are
//! satisfied by everything that is `Send` respectively `Sync`; nothing in
//! the verified core depends on them beyond their names.

use vstd::prelude::*;

verus! {

/// Marks what may be shared with the plumbing's executor.
pub trait NetfnSync {

}

impl<T> NetfnSync for T {

}

/// Marks what may be handed to the plumbing's executor.
pub trait NetfnSend {

}

impl<T> NetfnSend for T {

}

} // verus!
