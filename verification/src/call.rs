//! The client side of one call: the two-phase ritual and the retry policy.
//!
//! A caller first asks the bus loop for a fresh correlation identifier, then
//! hands the loop the encoded request together with a waiter, and finally
//! waits for that waiter to resolve. What arrives on the waiter decides the
//! call: a delivered frame settles it (well-formed response or decode
//! failure), a sink failure settles it as failed, and only a closed bus
//! sends the caller back to the top -- against the next epoch, under a
//! freshly allocated identifier. A decode or sink failure is never retried
//! here: retrying a real but garbled answer could run the remote operation
//! twice, and a refused write is for the layer above to reconnect from.
//!
//! This makes the engine's delivery policy at-least-once across
//! reconnects: a call whose request was already written when the
//! connection died is drained with the closed-bus failure and resent
//! against the next epoch, so a remote operation may run twice if its
//! first answer was lost with the connection. Operations behind this
//! engine should tolerate that, or the layer above must deduplicate.

use vstd::prelude::*;

use crate::codec::{decode, encode, frame_payload, spec_encode, DecodeError, WireModel};
use crate::tunnel::{CallResponseRequest, TunnelMessage, TunnelRequest};

verus! {

/// How one attempt settles, as delivered on the caller's waiter.
#[derive(Debug, PartialEq, Eq)]
pub enum AttemptOutcome<E> {
    /// The loop matched an inbound frame to this call and handed it over.
    Delivered(Vec<u8>),
    /// The outbound sink refused the write; the request never left.
    SinkFailed(E),
    /// The loop terminated before this call was answered.
    BusClosed,
}

/// Why a call failed for good.
#[derive(Debug, PartialEq, Eq)]
pub enum CallError<E> {
    /// A frame was delivered but was not a well-formed response: a real
    /// answer arrived and could not be understood, so retrying might run
    /// the remote operation twice.
    Decode(DecodeError),
    /// The transport refused the write; reconnecting, if any, is the
    /// caller's policy.
    Sink(E),
}

/// What the caller does after one attempt.
#[derive(Debug, PartialEq, Eq)]
pub enum CallProgress<E> {
    /// The call is settled, well or badly; hand this to the caller.
    Finished(Result<Vec<u8>, CallError<E>>),
    /// The bus closed under the call: allocate a fresh identifier from the
    /// next epoch and send again.
    RetryNewEpoch,
}

/// Builds the frame of one call attempt: the request envelope under the
/// identifier the loop allocated, around the encoded argument payload.
pub fn build_request(msg_ref: u64, service: String, call: Vec<u8>) -> (r: Vec<u8>)
    ensures
        r@ === spec_encode(WireModel::Request { msg_ref, service: service@, call: call@ }),
{
    encode(
        &TunnelMessage::Request(
            TunnelRequest { msg_ref, payload: CallResponseRequest { service, call } },
        ),
    )
}

/// Settles a delivered frame: the payload of a well-formed response, or a
/// decode failure for anything else.
pub fn settle_delivered<E>(frame: Vec<u8>) -> (r: Result<Vec<u8>, CallError<E>>)
    ensures
        match frame_payload(frame@) {
            Some(data) => r matches Ok(d) && d@ === data,
            None => r === Err(CallError::Decode(DecodeError)),
        },
{
    match decode(&frame) {
        Ok(TunnelMessage::Response(t)) => Ok(t.data),
        _ => Err(CallError::Decode(DecodeError)),
    }
}

/// The retry policy, decided for one attempt: only a closed bus sends the
/// caller back for another round; everything else settles the call.
pub fn resolve_attempt<E>(outcome: AttemptOutcome<E>) -> (r: CallProgress<E>)
    ensures
        match outcome {
            AttemptOutcome::Delivered(frame) => match frame_payload(frame@) {
                Some(data) => r matches CallProgress::Finished(Ok(d)) && d@ === data,
                None => r === CallProgress::Finished(Err(CallError::Decode(DecodeError))),
            },
            AttemptOutcome::SinkFailed(e) => r === CallProgress::Finished(
                Err(CallError::Sink(e)),
            ),
            AttemptOutcome::BusClosed => r === CallProgress::RetryNewEpoch,
        },
{
    match outcome {
        AttemptOutcome::Delivered(frame) => CallProgress::Finished(settle_delivered(frame)),
        AttemptOutcome::SinkFailed(e) => CallProgress::Finished(Err(CallError::Sink(e))),
        AttemptOutcome::BusClosed => CallProgress::RetryNewEpoch,
    }
}

/// The position of the first attempt that settles the call: the first
/// outcome that is not a closed bus.
pub open spec fn spec_first_decisive<E>(s: Seq<AttemptOutcome<E>>) -> Option<int>
    decreases s.len(),
{
    if s.len() == 0 {
        None
    } else if !(s[0] is BusClosed) {
        Some(0int)
    } else {
        match spec_first_decisive(s.skip(1)) {
            Some(i) => Some(i + 1),
            None => None,
        }
    }
}

/// Drives one call through a sequence of attempt outcomes: every closed-bus
/// outcome is retried past, and the first decisive outcome settles the
/// call. `None` means every attempt found the bus closed and the call is
/// still to be retried against the next epoch.
pub fn run_call<E>(outcomes: Vec<AttemptOutcome<E>>) -> (r: Option<
    Result<Vec<u8>, CallError<E>>,
>)
    ensures
        match spec_first_decisive(outcomes@) {
            None => r is None,
            Some(i) => {
                &&& 0 <= i < outcomes@.len()
                &&& forall|j: int| 0 <= j < i ==> outcomes@[j] is BusClosed
                &&& match outcomes@[i] {
                    AttemptOutcome::Delivered(frame) => match frame_payload(frame@) {
                        Some(data) => r matches Some(Ok(d)) && d@ === data,
                        None => r === Some(Err(CallError::Decode(DecodeError))),
                    },
                    AttemptOutcome::SinkFailed(e) => r === Some(Err(CallError::Sink(e))),
                    AttemptOutcome::BusClosed => false,
                }
            },
        },
{
    let mut rest = outcomes;
    let ghost orig = rest@;
    let ghost done: int = 0;
    proof {
        lemma_first_decisive_bounds(orig);
        assert(orig.skip(0) =~= orig);
    }
    while rest.len() > 0
        invariant
            orig === outcomes@,
            0 <= done <= orig.len(),
            rest@ === orig.skip(done),
            forall|j: int| 0 <= j < done ==> orig[j] is BusClosed,
            spec_first_decisive(orig) is None <==> spec_first_decisive(rest@) is None,
            spec_first_decisive(orig) is Some ==> spec_first_decisive(orig).unwrap()
                == spec_first_decisive(rest@).unwrap() + done && 0 <= spec_first_decisive(
                rest@,
            ).unwrap() < rest@.len(),
        decreases rest@.len(),
    {
        let ghost pre = rest@;
        let o = rest.remove(0);
        proof {
            assert(pre.skip(1) =~= rest@);
            assert(orig.skip(done + 1) =~= rest@);
            lemma_first_decisive_bounds(pre);
        }
        match o {
            AttemptOutcome::BusClosed => {
                proof {
                    assert(pre[0] is BusClosed);
                    lemma_first_decisive_bounds(rest@);
                    assert(spec_first_decisive(pre) === match spec_first_decisive(rest@) {
                        Some(i) => Some(i + 1),
                        None => None,
                    });
                    done = done + 1;
                }
            },
            AttemptOutcome::Delivered(frame) => {
                proof {
                    assert(spec_first_decisive(pre) === Some(0int));
                    assert(orig[done] === o);
                }
                return Some(settle_delivered(frame));
            },
            AttemptOutcome::SinkFailed(e) => {
                proof {
                    assert(spec_first_decisive(pre) === Some(0int));
                    assert(orig[done] === o);
                }
                return Some(Err(CallError::Sink(e)));
            },
        }
    }
    None
}

/// A decisive position lies inside the sequence.
proof fn lemma_first_decisive_bounds<E>(s: Seq<AttemptOutcome<E>>)
    ensures
        spec_first_decisive(s) is Some ==> 0 <= spec_first_decisive(s).unwrap() < s.len(),
    decreases s.len(),
{
    if s.len() > 0 && s[0] is BusClosed {
        lemma_first_decisive_bounds(s.skip(1));
    }
}

} // verus!
