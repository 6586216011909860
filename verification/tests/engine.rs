//! Scenarios against the bus loop's decision core and the correlation
//! registry: identifier allocation, out-of-order delivery, stray answers,
//! and the close-time drain.

use netfn::bus::{BusState, IgnoreReason, InboundDisposition, SendOutcome};
use netfn::registry::Registry;
use netfn::stream::{make_stream_req, stream_refs, StreamRes};
use netfn::tunnel::PartialRefs;
use netfn::FIRST_CORRELATION_ID;

fn refs(id: u64) -> PartialRefs {
    PartialRefs {
        msg_ref: Some(id),
        handle: None,
    }
}

#[test]
fn fresh_loop_allocates_from_zero() {
    let mut bus: BusState<u64> = BusState::new();
    assert_eq!(bus.peek_counter(), FIRST_CORRELATION_ID);
    assert_eq!(bus.on_ref_request(), Some(0));
    assert_eq!(bus.on_ref_request(), Some(1));
    assert_eq!(bus.on_ref_request(), Some(2));
}

#[test]
fn concurrent_calls_get_distinct_ids() {
    let mut bus: BusState<u64> = BusState::new();
    let a = bus.on_ref_request().unwrap();
    let b = bus.on_ref_request().unwrap();
    let c = bus.on_ref_request().unwrap();
    assert_ne!(a, b);
    assert_ne!(a, c);
    assert_ne!(b, c);
}

#[test]
fn epoch_reset_after_reconnect() {
    // A first epoch advances its counter well past zero.
    let mut old_bus: BusState<u64> = BusState::new();
    for _ in 0..5 {
        old_bus.on_ref_request().unwrap();
    }
    assert_eq!(old_bus.peek_counter(), 5);
    let _ = old_bus.on_close();

    // A retried call against a newly constructed loop starts from the new
    // loop's own counter, independent of the old one's final value.
    let mut new_bus: BusState<u64> = BusState::new();
    assert_eq!(new_bus.on_ref_request(), Some(FIRST_CORRELATION_ID));
}

#[test]
fn out_of_order_delivery_reaches_the_right_callers() {
    let mut bus: BusState<&'static str> = BusState::new();
    let a = bus.on_ref_request().unwrap();
    let b = bus.on_ref_request().unwrap();
    assert_eq!(a, 0);
    assert_eq!(b, 1);
    assert_eq!(bus.on_send(a, "caller a", true), SendOutcome::Registered);
    assert_eq!(bus.on_send(b, "caller b", true), SendOutcome::Registered);

    // B's answer arrives first, then A's: each resolves its own caller.
    assert_eq!(
        bus.on_inbound(refs(b)),
        InboundDisposition::Deliver(b, "caller b")
    );
    assert_eq!(
        bus.on_inbound(refs(a)),
        InboundDisposition::Deliver(a, "caller a")
    );
}

#[test]
fn answer_is_delivered_at_most_once() {
    let mut bus: BusState<u64> = BusState::new();
    let a = bus.on_ref_request().unwrap();
    assert_eq!(bus.on_send(a, 7, true), SendOutcome::Registered);
    assert_eq!(bus.on_inbound(refs(a)), InboundDisposition::Deliver(a, 7));
    // A duplicate answer finds nothing outstanding.
    assert_eq!(
        bus.on_inbound(refs(a)),
        InboundDisposition::Ignored(IgnoreReason::Unmatched)
    );
}

#[test]
fn unmatched_inbound_disturbs_nothing() {
    let mut bus: BusState<u64> = BusState::new();
    let a = bus.on_ref_request().unwrap();
    assert_eq!(bus.on_send(a, 7, true), SendOutcome::Registered);

    // An answer to an identifier nobody is waiting on is dropped...
    assert_eq!(
        bus.on_inbound(refs(9999)),
        InboundDisposition::Ignored(IgnoreReason::Unmatched)
    );
    // ...a stream message finds no established mapping...
    assert_eq!(
        bus.on_inbound(PartialRefs {
            msg_ref: None,
            handle: Some(3),
        }),
        InboundDisposition::Ignored(IgnoreReason::UnknownStream)
    );
    // ...and the loop keeps running: the outstanding call still resolves.
    assert_eq!(bus.on_inbound(refs(a)), InboundDisposition::Deliver(a, 7));
}

#[test]
fn close_fails_every_outstanding_call() {
    let mut bus: BusState<&'static str> = BusState::new();
    let mut ids = Vec::new();
    for waiter in ["first", "second", "third"] {
        let id = bus.on_ref_request().unwrap();
        assert_eq!(bus.on_send(id, waiter, true), SendOutcome::Registered);
        ids.push(id);
    }
    let drained = bus.on_close();
    // All three waiters come back, in registration order, to be failed
    // with the closed-bus error; none hangs, none gets an answer.
    assert_eq!(drained, vec!["first", "second", "third"]);
    // Closing again is a no-op.
    assert_eq!(bus.on_close(), Vec::<&'static str>::new());
}

#[test]
fn close_before_reply_fails_the_call() {
    let mut bus: BusState<&'static str> = BusState::new();
    let id = bus.on_ref_request().unwrap();
    assert_eq!(bus.on_send(id, "the caller", true), SendOutcome::Registered);
    let drained = bus.on_close();
    assert_eq!(drained, vec!["the caller"]);
    // The loop is closed: no more identifiers are handed out, and a send
    // still queued is handed back to be failed as closed.
    assert_eq!(bus.on_ref_request(), None);
    assert_eq!(
        bus.on_send(id, "late caller", false),
        SendOutcome::Closed("late caller")
    );
}

#[test]
fn failed_write_never_registers_the_id() {
    let mut bus: BusState<u64> = BusState::new();
    let id = bus.on_ref_request().unwrap();
    assert_eq!(bus.on_send(id, 5, false), SendOutcome::SinkRejected(5));
    // Nothing was registered: an answer under that identifier is stray.
    assert_eq!(
        bus.on_inbound(refs(id)),
        InboundDisposition::Ignored(IgnoreReason::Unmatched)
    );
    // The identifier may still be used for a later, successful write.
    assert_eq!(bus.on_send(id, 6, true), SendOutcome::Registered);
    assert_eq!(bus.on_inbound(refs(id)), InboundDisposition::Deliver(id, 6));
}

#[test]
fn duplicate_or_unallocated_ids_are_refused() {
    let mut bus: BusState<u64> = BusState::new();
    let id = bus.on_ref_request().unwrap();
    assert_eq!(bus.on_send(id, 1, true), SendOutcome::Registered);
    // The same identifier cannot be outstanding twice.
    assert_eq!(bus.on_send(id, 2, true), SendOutcome::Refused(2));
    // An identifier the loop never allocated is refused outright.
    assert_eq!(bus.on_send(1234, 3, true), SendOutcome::Refused(3));
}

#[test]
fn registry_tracks_outstanding_calls() {
    let mut reg: Registry<&'static str> = Registry::new();
    assert_eq!(reg.peek_counter(), 0);
    let a = reg.allocate_id();
    let b = reg.allocate_id();
    assert_eq!((a, b), (0, 1));
    assert_eq!(reg.outstanding(), 0);

    assert!(reg.register(a, "one").is_ok());
    assert!(reg.register(b, "two").is_ok());
    assert_eq!(reg.outstanding(), 2);
    assert!(reg.contains_id(a));

    // Registering under a taken or never-allocated identifier fails.
    assert_eq!(reg.register(a, "again"), Err("again"));
    assert_eq!(reg.register(77, "stray"), Err("stray"));

    assert_eq!(reg.resolve(b), Some("two"));
    assert_eq!(reg.resolve(b), None);
    assert_eq!(reg.outstanding(), 1);

    assert_eq!(reg.drain(), vec!["one"]);
    assert_eq!(reg.outstanding(), 0);
    // The counter survives the drain: identifiers are not reused.
    assert_eq!(reg.peek_counter(), 2);
}

#[test]
fn stream_loop_correlates_over_the_bus_core() {
    // The stream transport's listener allocates right before writing and
    // resolves inbound responses by their identifier.
    let mut bus: BusState<&'static str> = BusState::new();

    let id = bus.on_ref_request().unwrap();
    let envelope = make_stream_req("the request payload", id);
    assert_eq!(envelope.id, id);
    assert_eq!(envelope.req, "the request payload");
    assert_eq!(bus.on_send(id, "the waiter", true), SendOutcome::Registered);

    let answer = StreamRes {
        res: "the answer payload",
        id,
    };
    assert_eq!(
        stream_refs(&answer),
        PartialRefs {
            msg_ref: Some(id),
            handle: None,
        }
    );
    assert_eq!(
        bus.on_inbound(stream_refs(&answer)),
        InboundDisposition::Deliver(id, "the waiter")
    );
}
