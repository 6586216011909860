//! Correlation over a typed duplex stream.
//!
//! A simpler sibling of the full tunnel: each outgoing request is wrapped in
//! a [`StreamReq`] under an identifier the listening loop allocates itself,
//! and each inbound [`StreamRes`] carries the identifier of the request it
//! answers. The loop that owns such a stream keeps its decisions in a
//! [`crate::bus::BusState`]: it allocates with
//! [`crate::bus::BusState::on_ref_request`] right before writing, registers
//! or fails the waiter with [`crate::bus::BusState::on_send`], and resolves
//! inbound responses with [`crate::bus::BusState::on_inbound`] under the
//! metadata [`stream_refs`] reads off the envelope.

use vstd::prelude::*;

use crate::tunnel::PartialRefs;

verus! {

/// One outgoing request and the identifier its answer must carry.
#[derive(Clone, Debug, PartialEq, Eq)]
pub struct StreamReq<Req> {
    pub req: Req,
    pub id: u64,
}

/// One inbound response and the identifier of the request it answers.
#[derive(Clone, Debug, PartialEq, Eq)]
pub struct StreamRes<Res> {
    pub res: Res,
    pub id: u64,
}

/// Wraps a request under its freshly allocated identifier.
pub fn make_stream_req<Req>(req: Req, id: u64) -> (r: StreamReq<Req>)
    ensures
        r === (StreamReq { req, id }),
{
    StreamReq { req, id }
}

/// The routing metadata of an inbound stream response: the correlation
/// identifier it answers, and no stream handle.
pub fn stream_refs<Res>(m: &StreamRes<Res>) -> (r: PartialRefs)
    ensures
        r === (PartialRefs { msg_ref: Some(m.id), handle: None }),
{
    PartialRefs { msg_ref: Some(m.id), handle: None }
}

} // verus!
