//! The reference wire codec: a binary framing of the tunnel envelope over
//! raw payload bytes.
//!
//! Every frame starts with a tag byte and the routing identifiers of its
//! kind, so a receiver can extract the correlation identifier or stream
//! handle -- [`partial_decode`] -- without touching the payload; the
//! variable-length fields follow, each prefixed with its length. Encoding is
//! total; [`decode`] accepts exactly the frames [`encode`] produces, and
//! decoding an encoded message gives the message back.

use vstd::prelude::*;
use vstd::bytes::{
    lemma_auto_spec_u64_to_from_le_bytes, spec_u64_from_le_bytes, spec_u64_to_le_bytes,
    u64_from_le_bytes, u64_to_le_bytes,
};
use vstd::slice::{slice_subrange, slice_to_vec};
use vstd::utf8::{
    decode_utf8, encode_utf8, encode_utf8_decode_utf8, encode_utf8_valid_utf8, valid_utf8,
};

use crate::tunnel::{
    CallResponseRequest, GenericError, PartialRefs, TunnelCallError, TunnelMessage, TunnelRequest,
    TunnelResponse, TunnelStreamClose, TunnelStreamError, TunnelStreamMessage, TunnelStreamOpen,
    TunnelStreamReady,
};

verus! {

/// The frame could not be read back as a tunnel message.
#[derive(Clone, Copy, Debug, PartialEq, Eq)]
pub struct DecodeError;

pub const TAG_REQUEST: u8 = 1;

pub const TAG_RESPONSE: u8 = 2;

pub const TAG_STREAM_OPEN: u8 = 3;

pub const TAG_STREAM_READY: u8 = 4;

pub const TAG_STREAM_MESSAGE: u8 = 5;

pub const TAG_STREAM_CLOSE: u8 = 6;

pub const TAG_ERROR: u8 = 7;

pub const TAG_STREAM_ERROR: u8 = 8;

/// A tunnel message reduced to its mathematical content: identifiers as
/// numbers, text as character sequences, payloads as byte sequences.
pub ghost enum WireModel {
    Request { msg_ref: u64, service: Seq<char>, call: Seq<u8> },
    Response { msg_ref: u64, data: Seq<u8> },
    StreamOpen { msg_ref: u64, service: Seq<char>, call: Seq<u8> },
    StreamReady { msg_ref: u64, handle: u64 },
    StreamMessage { handle: u64, data: Seq<u8> },
    StreamClose { handle: u64 },
    CallError { msg_ref: u64, code: Seq<char>, message: Seq<char> },
    StreamError { handle: u64, code: Seq<char>, message: Seq<char> },
}

/// What a byte-payload tunnel message says, as a [`WireModel`].
pub open spec fn wire_model(m: TunnelMessage<Vec<u8>>) -> WireModel {
    match m {
        TunnelMessage::Request(t) => WireModel::Request {
            msg_ref: t.msg_ref,
            service: t.payload.service@,
            call: t.payload.call@,
        },
        TunnelMessage::Response(t) => WireModel::Response { msg_ref: t.msg_ref, data: t.data@ },
        TunnelMessage::StreamOpen(t) => WireModel::StreamOpen {
            msg_ref: t.msg_ref,
            service: t.payload.service@,
            call: t.payload.call@,
        },
        TunnelMessage::StreamReady(t) => WireModel::StreamReady {
            msg_ref: t.msg_ref,
            handle: t.handle,
        },
        TunnelMessage::StreamMessage(t) => WireModel::StreamMessage {
            handle: t.handle,
            data: t.data@,
        },
        TunnelMessage::StreamClose(t) => WireModel::StreamClose { handle: t.handle },
        TunnelMessage::Error(t) => WireModel::CallError {
            msg_ref: t.msg_ref,
            code: t.error.code@,
            message: t.error.message@,
        },
        TunnelMessage::StreamError(t) => WireModel::StreamError {
            handle: t.handle,
            code: t.error.code@,
            message: t.error.message@,
        },
    }
}

/// The routing identifiers each kind of message advertises in its header.
pub open spec fn model_refs(m: WireModel) -> PartialRefs {
    match m {
        WireModel::Request { msg_ref, .. } => PartialRefs { msg_ref: Some(msg_ref), handle: None },
        WireModel::Response { msg_ref, .. } => PartialRefs { msg_ref: Some(msg_ref), handle: None },
        WireModel::StreamOpen { msg_ref, .. } => PartialRefs {
            msg_ref: Some(msg_ref),
            handle: None,
        },
        WireModel::StreamReady { msg_ref, handle } => PartialRefs {
            msg_ref: Some(msg_ref),
            handle: Some(handle),
        },
        WireModel::StreamMessage { handle, .. } => PartialRefs {
            msg_ref: None,
            handle: Some(handle),
        },
        WireModel::StreamClose { handle } => PartialRefs { msg_ref: None, handle: Some(handle) },
        WireModel::CallError { msg_ref, .. } => PartialRefs {
            msg_ref: Some(msg_ref),
            handle: None,
        },
        WireModel::StreamError { handle, .. } => PartialRefs {
            msg_ref: None,
            handle: Some(handle),
        },
    }
}

/// A length-prefixed byte field.
pub open spec fn spec_enc_blob(b: Seq<u8>) -> Seq<u8> {
    spec_u64_to_le_bytes(b.len() as u64) + b
}

/// A length-prefixed text field, as UTF-8 bytes.
pub open spec fn spec_enc_text(s: Seq<char>) -> Seq<u8> {
    spec_enc_blob(encode_utf8(s))
}

/// Whether every variable-length field of the message fits its length
/// prefix. Every message built from in-memory values does.
pub open spec fn fits(m: WireModel) -> bool {
    match m {
        WireModel::Request { service, call, .. } => encode_utf8(service).len() <= u64::MAX
            && call.len() <= u64::MAX,
        WireModel::Response { data, .. } => data.len() <= u64::MAX,
        WireModel::StreamOpen { service, call, .. } => encode_utf8(service).len() <= u64::MAX
            && call.len() <= u64::MAX,
        WireModel::StreamReady { .. } => true,
        WireModel::StreamMessage { data, .. } => data.len() <= u64::MAX,
        WireModel::StreamClose { .. } => true,
        WireModel::CallError { code, message, .. } => encode_utf8(code).len() <= u64::MAX
            && encode_utf8(message).len() <= u64::MAX,
        WireModel::StreamError { code, message, .. } => encode_utf8(code).len() <= u64::MAX
            && encode_utf8(message).len() <= u64::MAX,
    }
}

/// The frame a message encodes to.
pub open spec fn spec_encode(m: WireModel) -> Seq<u8> {
    match m {
        WireModel::Request { msg_ref, service, call } => seq![TAG_REQUEST] + spec_u64_to_le_bytes(
            msg_ref,
        ) + spec_enc_text(service) + spec_enc_blob(call),
        WireModel::Response { msg_ref, data } => seq![TAG_RESPONSE] + spec_u64_to_le_bytes(msg_ref)
            + spec_enc_blob(data),
        WireModel::StreamOpen { msg_ref, service, call } => seq![TAG_STREAM_OPEN]
            + spec_u64_to_le_bytes(msg_ref) + spec_enc_text(service) + spec_enc_blob(call),
        WireModel::StreamReady { msg_ref, handle } => seq![TAG_STREAM_READY]
            + spec_u64_to_le_bytes(msg_ref) + spec_u64_to_le_bytes(handle),
        WireModel::StreamMessage { handle, data } => seq![TAG_STREAM_MESSAGE]
            + spec_u64_to_le_bytes(handle) + spec_enc_blob(data),
        WireModel::StreamClose { handle } => seq![TAG_STREAM_CLOSE] + spec_u64_to_le_bytes(handle),
        WireModel::CallError { msg_ref, code, message } => seq![TAG_ERROR] + spec_u64_to_le_bytes(
            msg_ref,
        ) + spec_enc_text(code) + spec_enc_text(message),
        WireModel::StreamError { handle, code, message } => seq![TAG_STREAM_ERROR]
            + spec_u64_to_le_bytes(handle) + spec_enc_text(code) + spec_enc_text(message),
    }
}

/// The payload a frame carries if it is a well-formed response, and nothing
/// otherwise.
pub open spec fn frame_payload(b: Seq<u8>) -> Option<Seq<u8>> {
    match spec_decode(b) {
        Some(WireModel::Response { data, .. }) => Some(data),
        _ => None,
    }
}

/// Reads a little-endian word off the front of a frame.
pub open spec fn take_u64(b: Seq<u8>) -> Option<(u64, Seq<u8>)> {
    if b.len() >= 8 {
        Some((spec_u64_from_le_bytes(b.take(8)), b.skip(8)))
    } else {
        None
    }
}

/// Reads a length-prefixed byte field off the front of a frame.
pub open spec fn take_blob(b: Seq<u8>) -> Option<(Seq<u8>, Seq<u8>)> {
    match take_u64(b) {
        Some((n, rest)) => if rest.len() >= n {
            Some((rest.take(n as int), rest.skip(n as int)))
        } else {
            None
        },
        None => None,
    }
}

/// Reads a length-prefixed UTF-8 text field off the front of a frame.
pub open spec fn take_text(b: Seq<u8>) -> Option<(Seq<char>, Seq<u8>)> {
    match take_blob(b) {
        Some((bytes, rest)) => if valid_utf8(bytes) {
            Some((decode_utf8(bytes), rest))
        } else {
            None
        },
        None => None,
    }
}

/// The message a frame decodes to, if any: the unique message whose encoding
/// is exactly this frame.
pub open spec fn spec_decode(b: Seq<u8>) -> Option<WireModel> {
    if b.len() < 1 {
        None
    } else {
        let tag = b[0];
        let body = b.skip(1);
        if tag == TAG_REQUEST {
            match take_u64(body) {
                Some((msg_ref, b1)) => match take_text(b1) {
                    Some((service, b2)) => match take_blob(b2) {
                        Some((call, b3)) => if b3.len() == 0 {
                            Some(WireModel::Request { msg_ref, service, call })
                        } else {
                            None
                        },
                        None => None,
                    },
                    None => None,
                },
                None => None,
            }
        } else if tag == TAG_RESPONSE {
            match take_u64(body) {
                Some((msg_ref, b1)) => match take_blob(b1) {
                    Some((data, b2)) => if b2.len() == 0 {
                        Some(WireModel::Response { msg_ref, data })
                    } else {
                        None
                    },
                    None => None,
                },
                None => None,
            }
        } else if tag == TAG_STREAM_OPEN {
            match take_u64(body) {
                Some((msg_ref, b1)) => match take_text(b1) {
                    Some((service, b2)) => match take_blob(b2) {
                        Some((call, b3)) => if b3.len() == 0 {
                            Some(WireModel::StreamOpen { msg_ref, service, call })
                        } else {
                            None
                        },
                        None => None,
                    },
                    None => None,
                },
                None => None,
            }
        } else if tag == TAG_STREAM_READY {
            match take_u64(body) {
                Some((msg_ref, b1)) => match take_u64(b1) {
                    Some((handle, b2)) => if b2.len() == 0 {
                        Some(WireModel::StreamReady { msg_ref, handle })
                    } else {
                        None
                    },
                    None => None,
                },
                None => None,
            }
        } else if tag == TAG_STREAM_MESSAGE {
            match take_u64(body) {
                Some((handle, b1)) => match take_blob(b1) {
                    Some((data, b2)) => if b2.len() == 0 {
                        Some(WireModel::StreamMessage { handle, data })
                    } else {
                        None
                    },
                    None => None,
                },
                None => None,
            }
        } else if tag == TAG_STREAM_CLOSE {
            match take_u64(body) {
                Some((handle, b1)) => if b1.len() == 0 {
                    Some(WireModel::StreamClose { handle })
                } else {
                    None
                },
                None => None,
            }
        } else if tag == TAG_ERROR {
            match take_u64(body) {
                Some((msg_ref, b1)) => match take_text(b1) {
                    Some((code, b2)) => match take_text(b2) {
                        Some((message, b3)) => if b3.len() == 0 {
                            Some(WireModel::CallError { msg_ref, code, message })
                        } else {
                            None
                        },
                        None => None,
                    },
                    None => None,
                },
                None => None,
            }
        } else if tag == TAG_STREAM_ERROR {
            match take_u64(body) {
                Some((handle, b1)) => match take_text(b1) {
                    Some((code, b2)) => match take_text(b2) {
                        Some((message, b3)) => if b3.len() == 0 {
                            Some(WireModel::StreamError { handle, code, message })
                        } else {
                            None
                        },
                        None => None,
                    },
                    None => None,
                },
                None => None,
            }
        } else {
            None
        }
    }
}

/// The routing identifiers a frame advertises, read from its header alone:
/// the tag and the fixed-width identifier words, never the payload.
pub open spec fn spec_partial_decode(b: Seq<u8>) -> Option<PartialRefs> {
    if b.len() < 1 {
        None
    } else {
        let tag = b[0];
        let body = b.skip(1);
        if tag == TAG_REQUEST || tag == TAG_RESPONSE || tag == TAG_STREAM_OPEN || tag
            == TAG_ERROR {
            match take_u64(body) {
                Some((msg_ref, _)) => Some(PartialRefs { msg_ref: Some(msg_ref), handle: None }),
                None => None,
            }
        } else if tag == TAG_STREAM_READY {
            match take_u64(body) {
                Some((msg_ref, b1)) => match take_u64(b1) {
                    Some((handle, _)) => Some(PartialRefs {
                        msg_ref: Some(msg_ref),
                        handle: Some(handle),
                    }),
                    None => None,
                },
                None => None,
            }
        } else if tag == TAG_STREAM_MESSAGE || tag == TAG_STREAM_CLOSE || tag
            == TAG_STREAM_ERROR {
            match take_u64(body) {
                Some((handle, _)) => Some(PartialRefs { msg_ref: None, handle: Some(handle) }),
                None => None,
            }
        } else {
            None
        }
    }
}

/// Appends one little-endian word.
fn push_u64(out: &mut Vec<u8>, x: u64)
    ensures
        final(out)@ === old(out)@ + spec_u64_to_le_bytes(x),
{
    let mut b = u64_to_le_bytes(x);
    out.append(&mut b);
}

/// Appends one length-prefixed byte field.
fn push_blob(out: &mut Vec<u8>, b: &Vec<u8>)
    ensures
        final(out)@ === old(out)@ + spec_enc_blob(b@),
        b@.len() <= u64::MAX,
{
    push_u64(out, b.len() as u64);
    out.extend_from_slice(b.as_slice());
    proof {
        assert(out@ =~= old(out)@ + spec_enc_blob(b@));
    }
}

/// Appends one length-prefixed text field as UTF-8.
fn push_text(out: &mut Vec<u8>, s: &String)
    ensures
        final(out)@ === old(out)@ + spec_enc_text(s@),
        encode_utf8(s@).len() <= u64::MAX,
{
    let bytes = s.as_str().as_bytes();
    push_u64(out, bytes.len() as u64);
    out.extend_from_slice(bytes);
    proof {
        assert(out@ =~= old(out)@ + spec_enc_text(s@));
    }
}

/// Encodes a message into one frame. Total: every message has a frame.
pub fn encode(m: &TunnelMessage<Vec<u8>>) -> (r: Vec<u8>)
    ensures
        r@ === spec_encode(wire_model(*m)),
        fits(wire_model(*m)),
{
    let mut out: Vec<u8> = Vec::new();
    match m {
        TunnelMessage::Request(t) => {
            out.push(TAG_REQUEST);
            push_u64(&mut out, t.msg_ref);
            push_text(&mut out, &t.payload.service);
            push_blob(&mut out, &t.payload.call);
            proof {
                assert(out@ =~= spec_encode(wire_model(*m)));
            }
        },
        TunnelMessage::Response(t) => {
            out.push(TAG_RESPONSE);
            push_u64(&mut out, t.msg_ref);
            push_blob(&mut out, &t.data);
            proof {
                assert(out@ =~= spec_encode(wire_model(*m)));
            }
        },
        TunnelMessage::StreamOpen(t) => {
            out.push(TAG_STREAM_OPEN);
            push_u64(&mut out, t.msg_ref);
            push_text(&mut out, &t.payload.service);
            push_blob(&mut out, &t.payload.call);
            proof {
                assert(out@ =~= spec_encode(wire_model(*m)));
            }
        },
        TunnelMessage::StreamReady(t) => {
            out.push(TAG_STREAM_READY);
            push_u64(&mut out, t.msg_ref);
            push_u64(&mut out, t.handle);
            proof {
                assert(out@ =~= spec_encode(wire_model(*m)));
            }
        },
        TunnelMessage::StreamMessage(t) => {
            out.push(TAG_STREAM_MESSAGE);
            push_u64(&mut out, t.handle);
            push_blob(&mut out, &t.data);
            proof {
                assert(out@ =~= spec_encode(wire_model(*m)));
            }
        },
        TunnelMessage::StreamClose(t) => {
            out.push(TAG_STREAM_CLOSE);
            push_u64(&mut out, t.handle);
            proof {
                assert(out@ =~= spec_encode(wire_model(*m)));
            }
        },
        TunnelMessage::Error(t) => {
            out.push(TAG_ERROR);
            push_u64(&mut out, t.msg_ref);
            push_text(&mut out, &t.error.code);
            push_text(&mut out, &t.error.message);
            proof {
                assert(out@ =~= spec_encode(wire_model(*m)));
            }
        },
        TunnelMessage::StreamError(t) => {
            out.push(TAG_STREAM_ERROR);
            push_u64(&mut out, t.handle);
            push_text(&mut out, &t.error.code);
            push_text(&mut out, &t.error.message);
            proof {
                assert(out@ =~= spec_encode(wire_model(*m)));
            }
        },
    }
    out
}

/// Relies on `String::from_utf8`: it succeeds exactly on valid UTF-8 input
/// and then returns the string those bytes spell, the correspondence vstd's
/// own UTF-8 model states for `str::from_utf8_unchecked`.
#[verifier::external_body]
fn bytes_to_string(v: Vec<u8>) -> (r: Option<String>)
    ensures
        r matches Some(s) ==> valid_utf8(v@) && s@ === decode_utf8(v@),
        r is None ==> !valid_utf8(v@),
{
    String::from_utf8(v).ok()
}

/// Reads the little-endian word at `pos`.
fn read_u64_at(b: &Vec<u8>, pos: usize) -> (r: Option<(u64, usize)>)
    requires
        pos <= b@.len(),
    ensures
        match r {
            Some((x, np)) => np == pos + 8 && np <= b@.len() && take_u64(b@.skip(pos as int))
                === Some((x, b@.skip(np as int))),
            None => take_u64(b@.skip(pos as int)) is None,
        },
{
    if b.len() - pos >= 8 {
        let s = slice_subrange(b.as_slice(), pos, pos + 8);
        let x = u64_from_le_bytes(s);
        proof {
            assert(b@.skip(pos as int).take(8) =~= s@);
            assert(b@.skip(pos as int).skip(8) =~= b@.skip(pos as int + 8));
        }
        Some((x, pos + 8))
    } else {
        None
    }
}

/// Reads the length-prefixed byte field at `pos`.
fn read_blob_at(b: &Vec<u8>, pos: usize) -> (r: Option<(Vec<u8>, usize)>)
    requires
        pos <= b@.len(),
    ensures
        match r {
            Some((v, np)) => pos <= np <= b@.len() && take_blob(b@.skip(pos as int)) === Some(
                (v@, b@.skip(np as int)),
            ),
            None => take_blob(b@.skip(pos as int)) is None,
        },
{
    match read_u64_at(b, pos) {
        None => None,
        Some((n, p1)) => {
            let remaining = b.len() - p1;
            if n <= remaining as u64 {
                let nn = n as usize;
                let v = slice_to_vec(slice_subrange(b.as_slice(), p1, p1 + nn));
                proof {
                    assert(b@.skip(p1 as int).take(n as int) =~= v@);
                    assert(b@.skip(p1 as int).skip(n as int) =~= b@.skip(p1 as int + nn));
                }
                Some((v, p1 + nn))
            } else {
                None
            }
        },
    }
}

/// Reads the length-prefixed UTF-8 text field at `pos`.
fn read_text_at(b: &Vec<u8>, pos: usize) -> (r: Option<(String, usize)>)
    requires
        pos <= b@.len(),
    ensures
        match r {
            Some((s, np)) => pos <= np <= b@.len() && take_text(b@.skip(pos as int)) === Some(
                (s@, b@.skip(np as int)),
            ),
            None => take_text(b@.skip(pos as int)) is None,
        },
{
    match read_blob_at(b, pos) {
        None => None,
        Some((v, np)) => match bytes_to_string(v) {
            Some(s) => Some((s, np)),
            None => None,
        },
    }
}

/// Decodes one frame back into a message: accepts exactly the output of
/// [`encode`], and returns the one message that encodes to this frame.
pub fn decode(bytes: &Vec<u8>) -> (r: Result<TunnelMessage<Vec<u8>>, DecodeError>)
    ensures
        match spec_decode(bytes@) {
            Some(mm) => r matches Ok(m) && wire_model(m) === mm,
            None => r === Err(DecodeError),
        },
{
    if bytes.len() < 1 {
        return Err(DecodeError);
    }
    let tag = bytes[0];
    proof {
        assert(bytes@.skip(0).skip(1) =~= bytes@.skip(1));
    }
    if tag == TAG_REQUEST {
        match read_u64_at(bytes, 1) {
            None => Err(DecodeError),
            Some((msg_ref, p1)) => match read_text_at(bytes, p1) {
                None => Err(DecodeError),
                Some((service, p2)) => match read_blob_at(bytes, p2) {
                    None => Err(DecodeError),
                    Some((call, p3)) => if p3 == bytes.len() {
                        Ok(
                            TunnelMessage::Request(
                                TunnelRequest {
                                    msg_ref,
                                    payload: CallResponseRequest { service, call },
                                },
                            ),
                        )
                    } else {
                        Err(DecodeError)
                    },
                },
            },
        }
    } else if tag == TAG_RESPONSE {
        match read_u64_at(bytes, 1) {
            None => Err(DecodeError),
            Some((msg_ref, p1)) => match read_blob_at(bytes, p1) {
                None => Err(DecodeError),
                Some((data, p2)) => if p2 == bytes.len() {
                    Ok(TunnelMessage::Response(TunnelResponse { msg_ref, data }))
                } else {
                    Err(DecodeError)
                },
            },
        }
    } else if tag == TAG_STREAM_OPEN {
        match read_u64_at(bytes, 1) {
            None => Err(DecodeError),
            Some((msg_ref, p1)) => match read_text_at(bytes, p1) {
                None => Err(DecodeError),
                Some((service, p2)) => match read_blob_at(bytes, p2) {
                    None => Err(DecodeError),
                    Some((call, p3)) => if p3 == bytes.len() {
                        Ok(
                            TunnelMessage::StreamOpen(
                                TunnelStreamOpen {
                                    msg_ref,
                                    payload: CallResponseRequest { service, call },
                                },
                            ),
                        )
                    } else {
                        Err(DecodeError)
                    },
                },
            },
        }
    } else if tag == TAG_STREAM_READY {
        match read_u64_at(bytes, 1) {
            None => Err(DecodeError),
            Some((msg_ref, p1)) => match read_u64_at(bytes, p1) {
                None => Err(DecodeError),
                Some((handle, p2)) => if p2 == bytes.len() {
                    Ok(TunnelMessage::StreamReady(TunnelStreamReady { msg_ref, handle }))
                } else {
                    Err(DecodeError)
                },
            },
        }
    } else if tag == TAG_STREAM_MESSAGE {
        match read_u64_at(bytes, 1) {
            None => Err(DecodeError),
            Some((handle, p1)) => match read_blob_at(bytes, p1) {
                None => Err(DecodeError),
                Some((data, p2)) => if p2 == bytes.len() {
                    Ok(TunnelMessage::StreamMessage(TunnelStreamMessage { handle, data }))
                } else {
                    Err(DecodeError)
                },
            },
        }
    } else if tag == TAG_STREAM_CLOSE {
        match read_u64_at(bytes, 1) {
            None => Err(DecodeError),
            Some((handle, p1)) => if p1 == bytes.len() {
                Ok(TunnelMessage::StreamClose(TunnelStreamClose { handle }))
            } else {
                Err(DecodeError)
            },
        }
    } else if tag == TAG_ERROR {
        match read_u64_at(bytes, 1) {
            None => Err(DecodeError),
            Some((msg_ref, p1)) => match read_text_at(bytes, p1) {
                None => Err(DecodeError),
                Some((code, p2)) => match read_text_at(bytes, p2) {
                    None => Err(DecodeError),
                    Some((message, p3)) => if p3 == bytes.len() {
                        Ok(
                            TunnelMessage::Error(
                                TunnelCallError { msg_ref, error: GenericError { code, message } },
                            ),
                        )
                    } else {
                        Err(DecodeError)
                    },
                },
            },
        }
    } else if tag == TAG_STREAM_ERROR {
        match read_u64_at(bytes, 1) {
            None => Err(DecodeError),
            Some((handle, p1)) => match read_text_at(bytes, p1) {
                None => Err(DecodeError),
                Some((code, p2)) => match read_text_at(bytes, p2) {
                    None => Err(DecodeError),
                    Some((message, p3)) => if p3 == bytes.len() {
                        Ok(
                            TunnelMessage::StreamError(
                                TunnelStreamError {
                                    handle,
                                    error: GenericError { code, message },
                                },
                            ),
                        )
                    } else {
                        Err(DecodeError)
                    },
                },
            },
        }
    } else {
        Err(DecodeError)
    }
}

/// Extracts the routing identifiers from a frame's header without touching
/// its payload: succeeds on every frame whose tag and identifier words are
/// intact, whatever follows them.
pub fn partial_decode(bytes: &Vec<u8>) -> (r: Result<PartialRefs, DecodeError>)
    ensures
        match spec_partial_decode(bytes@) {
            Some(p) => r === Ok(p),
            None => r === Err(DecodeError),
        },
{
    if bytes.len() < 1 {
        return Err(DecodeError);
    }
    let tag = bytes[0];
    if tag == TAG_REQUEST || tag == TAG_RESPONSE || tag == TAG_STREAM_OPEN || tag == TAG_ERROR {
        match read_u64_at(bytes, 1) {
            None => Err(DecodeError),
            Some((msg_ref, _p)) => Ok(PartialRefs { msg_ref: Some(msg_ref), handle: None }),
        }
    } else if tag == TAG_STREAM_READY {
        match read_u64_at(bytes, 1) {
            None => Err(DecodeError),
            Some((msg_ref, p1)) => match read_u64_at(bytes, p1) {
                None => Err(DecodeError),
                Some((handle, _p)) => Ok(
                    PartialRefs { msg_ref: Some(msg_ref), handle: Some(handle) },
                ),
            },
        }
    } else if tag == TAG_STREAM_MESSAGE || tag == TAG_STREAM_CLOSE || tag == TAG_STREAM_ERROR {
        match read_u64_at(bytes, 1) {
            None => Err(DecodeError),
            Some((handle, _p)) => Ok(PartialRefs { msg_ref: None, handle: Some(handle) }),
        }
    } else {
        Err(DecodeError)
    }
}

/// A little-endian word is read back intact from the front of a frame.
proof fn lemma_take_u64(x: u64, rest: Seq<u8>)
    ensures
        take_u64(spec_u64_to_le_bytes(x) + rest) === Some((x, rest)),
{
    lemma_auto_spec_u64_to_from_le_bytes();
    let b = spec_u64_to_le_bytes(x) + rest;
    assert(b.take(8) =~= spec_u64_to_le_bytes(x));
    assert(b.skip(8) =~= rest);
}

/// A length-prefixed byte field is read back intact from the front of a
/// frame.
proof fn lemma_take_blob(p: Seq<u8>, rest: Seq<u8>)
    requires
        p.len() <= u64::MAX,
    ensures
        take_blob(spec_enc_blob(p) + rest) === Some((p, rest)),
{
    assert(spec_enc_blob(p) + rest =~= spec_u64_to_le_bytes(p.len() as u64) + (p + rest));
    lemma_take_u64(p.len() as u64, p + rest);
    assert((p + rest).take(p.len() as int) =~= p);
    assert((p + rest).skip(p.len() as int) =~= rest);
}

/// A length-prefixed text field is read back intact from the front of a
/// frame: its UTF-8 bytes are valid and decode to the characters that were
/// encoded.
proof fn lemma_take_text(s: Seq<char>, rest: Seq<u8>)
    requires
        encode_utf8(s).len() <= u64::MAX,
    ensures
        take_text(spec_enc_text(s) + rest) === Some((s, rest)),
{
    lemma_take_blob(encode_utf8(s), rest);
    encode_utf8_valid_utf8(s);
    encode_utf8_decode_utf8(s);
}

/// The codec round trip: a message whose fields fit their length prefixes
/// -- every message that exists in memory does -- decodes from its own
/// encoding back to exactly itself. With the contracts of [`encode`] and
/// [`decode`], decoding an encoded message returns a message of the same
/// content.
pub proof fn lemma_round_trip(m: WireModel)
    requires
        fits(m),
    ensures
        spec_decode(spec_encode(m)) === Some(m),
{
    lemma_auto_spec_u64_to_from_le_bytes();
    let e = spec_encode(m);
    let none: Seq<u8> = Seq::empty();
    match m {
        WireModel::Request { msg_ref, service, call } => {
            let rest2 = spec_enc_blob(call);
            let rest1 = spec_enc_text(service) + rest2;
            assert(e[0] == TAG_REQUEST);
            assert(e.skip(1) =~= spec_u64_to_le_bytes(msg_ref) + rest1);
            lemma_take_u64(msg_ref, rest1);
            lemma_take_text(service, rest2);
            assert(rest2 =~= spec_enc_blob(call) + none);
            lemma_take_blob(call, none);
        },
        WireModel::Response { msg_ref, data } => {
            let rest1 = spec_enc_blob(data) + none;
            assert(e[0] == TAG_RESPONSE);
            assert(e.skip(1) =~= spec_u64_to_le_bytes(msg_ref) + rest1);
            lemma_take_u64(msg_ref, rest1);
            lemma_take_blob(data, none);
        },
        WireModel::StreamOpen { msg_ref, service, call } => {
            let rest2 = spec_enc_blob(call);
            let rest1 = spec_enc_text(service) + rest2;
            assert(e[0] == TAG_STREAM_OPEN);
            assert(e.skip(1) =~= spec_u64_to_le_bytes(msg_ref) + rest1);
            lemma_take_u64(msg_ref, rest1);
            lemma_take_text(service, rest2);
            assert(rest2 =~= spec_enc_blob(call) + none);
            lemma_take_blob(call, none);
        },
        WireModel::StreamReady { msg_ref, handle } => {
            let rest1 = spec_u64_to_le_bytes(handle) + none;
            assert(e[0] == TAG_STREAM_READY);
            assert(e.skip(1) =~= spec_u64_to_le_bytes(msg_ref) + rest1);
            lemma_take_u64(msg_ref, rest1);
            lemma_take_u64(handle, none);
            assert(rest1 =~= spec_u64_to_le_bytes(handle) + none);
        },
        WireModel::StreamMessage { handle, data } => {
            let rest1 = spec_enc_blob(data) + none;
            assert(e[0] == TAG_STREAM_MESSAGE);
            assert(e.skip(1) =~= spec_u64_to_le_bytes(handle) + rest1);
            lemma_take_u64(handle, rest1);
            lemma_take_blob(data, none);
        },
        WireModel::StreamClose { handle } => {
            assert(e[0] == TAG_STREAM_CLOSE);
            assert(e.skip(1) =~= spec_u64_to_le_bytes(handle) + none);
            lemma_take_u64(handle, none);
        },
        WireModel::CallError { msg_ref, code, message } => {
            let rest2 = spec_enc_text(message) + none;
            let rest1 = spec_enc_text(code) + rest2;
            assert(e[0] == TAG_ERROR);
            assert(e.skip(1) =~= spec_u64_to_le_bytes(msg_ref) + rest1);
            lemma_take_u64(msg_ref, rest1);
            lemma_take_text(code, rest2);
            lemma_take_text(message, none);
        },
        WireModel::StreamError { handle, code, message } => {
            let rest2 = spec_enc_text(message) + none;
            let rest1 = spec_enc_text(code) + rest2;
            assert(e[0] == TAG_STREAM_ERROR);
            assert(e.skip(1) =~= spec_u64_to_le_bytes(handle) + rest1);
            lemma_take_u64(handle, rest1);
            lemma_take_text(code, rest2);
            lemma_take_text(message, none);
        },
    }
}

/// The partial decode agrees with the full decode on every encoded frame:
/// reading only the header of an encoded message yields exactly the routing
/// identifiers of that message.
pub proof fn lemma_partial_decode_consistent(m: WireModel)
    requires
        fits(m),
    ensures
        spec_partial_decode(spec_encode(m)) === Some(model_refs(m)),
{
    lemma_auto_spec_u64_to_from_le_bytes();
    let e = spec_encode(m);
    let none: Seq<u8> = Seq::empty();
    match m {
        WireModel::Request { msg_ref, service, call } => {
            let rest1 = spec_enc_text(service) + spec_enc_blob(call);
            assert(e[0] == TAG_REQUEST);
            assert(e.skip(1) =~= spec_u64_to_le_bytes(msg_ref) + rest1);
            lemma_take_u64(msg_ref, rest1);
        },
        WireModel::Response { msg_ref, data } => {
            let rest1 = spec_enc_blob(data);
            assert(e[0] == TAG_RESPONSE);
            assert(e.skip(1) =~= spec_u64_to_le_bytes(msg_ref) + rest1);
            lemma_take_u64(msg_ref, rest1);
        },
        WireModel::StreamOpen { msg_ref, service, call } => {
            let rest1 = spec_enc_text(service) + spec_enc_blob(call);
            assert(e[0] == TAG_STREAM_OPEN);
            assert(e.skip(1) =~= spec_u64_to_le_bytes(msg_ref) + rest1);
            lemma_take_u64(msg_ref, rest1);
        },
        WireModel::StreamReady { msg_ref, handle } => {
            let rest1 = spec_u64_to_le_bytes(handle) + none;
            assert(e[0] == TAG_STREAM_READY);
            assert(e.skip(1) =~= spec_u64_to_le_bytes(msg_ref) + rest1);
            lemma_take_u64(msg_ref, rest1);
            lemma_take_u64(handle, none);
        },
        WireModel::StreamMessage { handle, data } => {
            let rest1 = spec_enc_blob(data);
            assert(e[0] == TAG_STREAM_MESSAGE);
            assert(e.skip(1) =~= spec_u64_to_le_bytes(handle) + rest1);
            lemma_take_u64(handle, rest1);
        },
        WireModel::StreamClose { handle } => {
            assert(e[0] == TAG_STREAM_CLOSE);
            assert(e.skip(1) =~= spec_u64_to_le_bytes(handle) + none);
            lemma_take_u64(handle, none);
        },
        WireModel::CallError { msg_ref, code, message } => {
            let rest1 = spec_enc_text(code) + spec_enc_text(message);
            assert(e[0] == TAG_ERROR);
            assert(e.skip(1) =~= spec_u64_to_le_bytes(msg_ref) + rest1);
            lemma_take_u64(msg_ref, rest1);
        },
        WireModel::StreamError { handle, code, message } => {
            let rest1 = spec_enc_text(code) + spec_enc_text(message);
            assert(e[0] == TAG_STREAM_ERROR);
            assert(e.skip(1) =~= spec_u64_to_le_bytes(handle) + rest1);
            lemma_take_u64(handle, rest1);
        },
    }
}

/// The identifiers the header advertises are the identifiers the message
/// itself carries.
pub proof fn lemma_model_refs_agree(m: TunnelMessage<Vec<u8>>)
    ensures
        model_refs(wire_model(m)) === crate::tunnel::spec_refs_of(m),
{
}

} // verus!
