//! The wire envelope: the tagged messages exchanged over one multiplexed
//! duplex connection.
//!
//! A request or stream-open message carries a correlation identifier
//! (`msg_ref`); a response or call error answers that identifier; messages of
//! an established stream carry the stream's `handle` instead. The payload of
//! a message is left generic: the codec layer fixes it to raw bytes, a typed
//! layer above may use richer values.

use vstd::prelude::*;
use vstd::string::StringExecFns;

verus! {

/// A named call and its payload, as a service sees it: the routing envelope
/// around one operation invocation.
#[derive(Clone, Debug, PartialEq, Eq)]
pub struct CallResponseRequest<T> {
    pub service: String,
    pub call: T,
}

/// A failure reported by the remote side of a call, as a machine-readable
/// code and a human-readable message.
#[derive(Clone, Debug, PartialEq, Eq)]
pub struct GenericError {
    pub code: String,
    pub message: String,
}

impl GenericError {
    /// The error rendered as `[code] message`.
    pub fn describe(&self) -> (r: String)
        ensures
            r@ === seq!['['] + self.code@ + seq![']', ' '] + self.message@,
    {
        let mut r = String::new();
        r.append("[");
        r.append(self.code.as_str());
        r.append("] ");
        r.append(self.message.as_str());
        proof {
            reveal_strlit("[");
            reveal_strlit("] ");
            assert(r@ =~= seq!['['] + self.code@ + seq![']', ' '] + self.message@);
        }
        r
    }
}

/// Everything that can travel over the tunnel, in either direction.
#[derive(Clone, Debug, PartialEq, Eq)]
pub enum TunnelMessage<T> {
    /// A new call: expects exactly one answer under the same `msg_ref`.
    Request(TunnelRequest<T>),
    /// The successful answer to a call.
    Response(TunnelResponse<T>),
    /// A request to open a stream; answered under `msg_ref` like a call.
    StreamOpen(TunnelStreamOpen<T>),
    /// The acknowledgement of a stream-open, binding a fresh `handle`.
    StreamReady(TunnelStreamReady),
    /// One message of an established stream.
    StreamMessage(TunnelStreamMessage<T>),
    /// The orderly end of an established stream.
    StreamClose(TunnelStreamClose),
    /// The failing answer to a call.
    Error(TunnelCallError),
    /// A failure of an established stream.
    StreamError(TunnelStreamError),
}

/// A new call under a fresh correlation identifier.
#[derive(Clone, Debug, PartialEq, Eq)]
pub struct TunnelRequest<T> {
    pub msg_ref: u64,
    pub payload: CallResponseRequest<T>,
}

/// The successful answer to the call issued under `msg_ref`.
#[derive(Clone, Debug, PartialEq, Eq)]
pub struct TunnelResponse<T> {
    pub msg_ref: u64,
    pub data: T,
}

/// A request to open a stream, correlated like a call.
#[derive(Clone, Debug, PartialEq, Eq)]
pub struct TunnelStreamOpen<T> {
    pub msg_ref: u64,
    pub payload: CallResponseRequest<T>,
}

/// The answer to a stream-open: the stream now lives under `handle`.
#[derive(Clone, Debug, PartialEq, Eq)]
pub struct TunnelStreamReady {
    pub msg_ref: u64,
    pub handle: u64,
}

/// One message of the established stream `handle`.
#[derive(Clone, Debug, PartialEq, Eq)]
pub struct TunnelStreamMessage<T> {
    pub handle: u64,
    pub data: T,
}

/// The orderly end of the established stream `handle`.
#[derive(Clone, Debug, PartialEq, Eq)]
pub struct TunnelStreamClose {
    pub handle: u64,
}

/// The failing answer to the call issued under `msg_ref`.
#[derive(Clone, Debug, PartialEq, Eq)]
pub struct TunnelCallError {
    pub msg_ref: u64,
    pub error: GenericError,
}

/// A failure of the established stream `handle`.
#[derive(Clone, Debug, PartialEq, Eq)]
pub struct TunnelStreamError {
    pub handle: u64,
    pub error: GenericError,
}

/// One message on a WebSocket, in either of the framings a codec may pick:
/// JSON text or a binary packing.
#[derive(Clone, Debug, PartialEq, Eq)]
pub enum WebSocketMessage {
    Json(String),
    MessagePack(Vec<u8>),
}

/// The routing metadata of one envelope: which call it answers, or which
/// stream it belongs to. This is all a receiver needs in order to find the
/// waiting caller, before it knows the payload's type.
#[derive(Clone, Copy, Debug, PartialEq, Eq)]
pub struct PartialRefs {
    pub msg_ref: Option<u64>,
    pub handle: Option<u64>,
}

/// The routing metadata each kind of message carries.
pub open spec fn spec_refs_of<T>(m: TunnelMessage<T>) -> PartialRefs {
    match m {
        TunnelMessage::Request(r) => PartialRefs { msg_ref: Some(r.msg_ref), handle: None },
        TunnelMessage::Response(r) => PartialRefs { msg_ref: Some(r.msg_ref), handle: None },
        TunnelMessage::StreamOpen(r) => PartialRefs { msg_ref: Some(r.msg_ref), handle: None },
        TunnelMessage::StreamReady(r) => PartialRefs {
            msg_ref: Some(r.msg_ref),
            handle: Some(r.handle),
        },
        TunnelMessage::StreamMessage(r) => PartialRefs { msg_ref: None, handle: Some(r.handle) },
        TunnelMessage::StreamClose(r) => PartialRefs { msg_ref: None, handle: Some(r.handle) },
        TunnelMessage::Error(r) => PartialRefs { msg_ref: Some(r.msg_ref), handle: None },
        TunnelMessage::StreamError(r) => PartialRefs { msg_ref: None, handle: Some(r.handle) },
    }
}

/// Reads the routing metadata straight off a message.
pub fn refs_of<T>(m: &TunnelMessage<T>) -> (r: PartialRefs)
    ensures
        r == spec_refs_of(*m),
{
    match m {
        TunnelMessage::Request(r) => PartialRefs { msg_ref: Some(r.msg_ref), handle: None },
        TunnelMessage::Response(r) => PartialRefs { msg_ref: Some(r.msg_ref), handle: None },
        TunnelMessage::StreamOpen(r) => PartialRefs { msg_ref: Some(r.msg_ref), handle: None },
        TunnelMessage::StreamReady(r) => PartialRefs {
            msg_ref: Some(r.msg_ref),
            handle: Some(r.handle),
        },
        TunnelMessage::StreamMessage(r) => PartialRefs { msg_ref: None, handle: Some(r.handle) },
        TunnelMessage::StreamClose(r) => PartialRefs { msg_ref: None, handle: Some(r.handle) },
        TunnelMessage::Error(r) => PartialRefs { msg_ref: Some(r.msg_ref), handle: None },
        TunnelMessage::StreamError(r) => PartialRefs { msg_ref: None, handle: Some(r.handle) },
    }
}

} // verus!
