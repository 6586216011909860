//! The wire codec, the client call ritual, and the dispatch contract, on
//! concrete values.

use netfn::bus::{BusState, InboundDisposition, SendOutcome};
use netfn::call::{
    build_request, resolve_attempt, run_call, settle_delivered, AttemptOutcome, CallError,
    CallProgress,
};
use netfn::codec::{decode, encode, partial_decode, DecodeError};
use netfn::service::Service;
use netfn::test_api::{
    TestApiBarArgs, TestApiBazArgs, TestApiFooArgs, TestApiQazArgs, TestApiRequest,
    TestApiResponse, TestService,
};
use netfn::tunnel::{
    refs_of, CallResponseRequest, GenericError, PartialRefs, TunnelCallError, TunnelMessage,
    TunnelRequest, TunnelResponse, TunnelStreamClose, TunnelStreamError, TunnelStreamMessage,
    TunnelStreamOpen, TunnelStreamReady,
};

fn sample_messages() -> Vec<TunnelMessage<Vec<u8>>> {
    vec![
        TunnelMessage::Request(TunnelRequest {
            msg_ref: 7,
            payload: CallResponseRequest {
                service: "TestApi".to_string(),
                call: vec![1, 2, 3],
            },
        }),
        TunnelMessage::Response(TunnelResponse {
            msg_ref: 7,
            data: vec![42, 0, 255],
        }),
        TunnelMessage::StreamOpen(TunnelStreamOpen {
            msg_ref: 8,
            payload: CallResponseRequest {
                service: "Events".to_string(),
                call: Vec::new(),
            },
        }),
        TunnelMessage::StreamReady(TunnelStreamReady {
            msg_ref: 8,
            handle: 101,
        }),
        TunnelMessage::StreamMessage(TunnelStreamMessage {
            handle: 101,
            data: vec![9, 9],
        }),
        TunnelMessage::StreamClose(TunnelStreamClose { handle: 101 }),
        TunnelMessage::Error(TunnelCallError {
            msg_ref: 7,
            error: GenericError {
                code: "bad_call".to_string(),
                message: "no such operation".to_string(),
            },
        }),
        TunnelMessage::StreamError(TunnelStreamError {
            handle: 101,
            error: GenericError {
                code: "gone".to_string(),
                message: "stream fell over".to_string(),
            },
        }),
    ]
}

#[test]
fn round_trip_every_message_kind() {
    for m in sample_messages() {
        let frame = encode(&m);
        assert_eq!(decode(&frame), Ok(m));
    }
}

#[test]
fn round_trip_keeps_non_ascii_text() {
    let m = TunnelMessage::Request(TunnelRequest {
        msg_ref: 1,
        payload: CallResponseRequest {
            service: "Übersetzung-サービス".to_string(),
            call: vec![0xde, 0xad],
        },
    });
    let frame = encode(&m);
    assert_eq!(decode(&frame), Ok(m));
}

#[test]
fn partial_decode_reads_the_header_alone() {
    for m in sample_messages() {
        let frame = encode(&m);
        assert_eq!(partial_decode(&frame), Ok(refs_of(&m)));
    }
}

#[test]
fn partial_decode_survives_a_garbled_payload() {
    // Corrupt the service text of a request to invalid UTF-8: the full
    // decode must fail, but the header still routes.
    let m = TunnelMessage::Request(TunnelRequest {
        msg_ref: 55,
        payload: CallResponseRequest {
            service: "x".to_string(),
            call: Vec::new(),
        },
    });
    let mut frame = encode(&m);
    // tag (1) + msg_ref (8) + text length (8) puts the single service
    // byte at offset 17.
    frame[17] = 0xff;
    assert_eq!(decode(&frame), Err(DecodeError));
    assert_eq!(
        partial_decode(&frame),
        Ok(PartialRefs {
            msg_ref: Some(55),
            handle: None,
        })
    );
}

#[test]
fn decode_rejects_malformed_frames() {
    // Empty frame.
    assert_eq!(decode(&Vec::new()), Err(DecodeError));
    // Unknown tag.
    assert_eq!(decode(&vec![99, 0, 0]), Err(DecodeError));
    // Truncated header.
    assert_eq!(decode(&vec![2, 1, 2, 3]), Err(DecodeError));
    // Trailing bytes after a complete message.
    let mut frame = encode(&TunnelMessage::StreamClose(TunnelStreamClose { handle: 4 }));
    frame.push(0);
    assert_eq!(decode(&frame), Err(DecodeError));
    assert_eq!(partial_decode(&Vec::new()), Err(DecodeError));
    assert_eq!(partial_decode(&vec![99, 0, 0]), Err(DecodeError));
}

#[test]
fn build_request_frames_the_call() {
    let frame = build_request(3, "TestApi".to_string(), vec![10, 20]);
    assert_eq!(
        decode(&frame),
        Ok(TunnelMessage::Request(TunnelRequest {
            msg_ref: 3,
            payload: CallResponseRequest {
                service: "TestApi".to_string(),
                call: vec![10, 20],
            },
        }))
    );
    assert_eq!(
        partial_decode(&frame),
        Ok(PartialRefs {
            msg_ref: Some(3),
            handle: None,
        })
    );
}

fn response_frame(msg_ref: u64, data: Vec<u8>) -> Vec<u8> {
    encode(&TunnelMessage::Response(TunnelResponse { msg_ref, data }))
}

#[test]
fn delivered_response_settles_the_call() {
    let frame = response_frame(0, vec![5, 6, 7]);
    assert_eq!(
        resolve_attempt::<&'static str>(AttemptOutcome::Delivered(frame)),
        CallProgress::Finished(Ok(vec![5, 6, 7]))
    );
}

#[test]
fn delivered_non_response_is_a_decode_failure() {
    // A real but ununderstandable answer must not be retried.
    let not_a_response = build_request(0, "TestApi".to_string(), Vec::new());
    assert_eq!(
        settle_delivered::<&'static str>(not_a_response),
        Err(CallError::Decode(DecodeError))
    );
    assert_eq!(
        settle_delivered::<&'static str>(vec![0xab, 0xcd]),
        Err(CallError::Decode(DecodeError))
    );
}

#[test]
fn sink_failure_settles_without_retry() {
    assert_eq!(
        resolve_attempt(AttemptOutcome::SinkFailed("connection reset")),
        CallProgress::Finished(Err(CallError::Sink("connection reset")))
    );
}

#[test]
fn closed_bus_is_the_only_retry() {
    assert_eq!(
        resolve_attempt::<&'static str>(AttemptOutcome::BusClosed),
        CallProgress::RetryNewEpoch
    );
}

#[test]
fn run_call_retries_past_closed_epochs() {
    let outcomes: Vec<AttemptOutcome<&'static str>> = vec![
        AttemptOutcome::BusClosed,
        AttemptOutcome::BusClosed,
        AttemptOutcome::Delivered(response_frame(2, vec![1])),
    ];
    assert_eq!(run_call(outcomes), Some(Ok(vec![1])));
}

#[test]
fn run_call_stops_at_a_sink_failure() {
    let outcomes: Vec<AttemptOutcome<&'static str>> = vec![
        AttemptOutcome::BusClosed,
        AttemptOutcome::SinkFailed("broken pipe"),
        AttemptOutcome::Delivered(response_frame(9, vec![1])),
    ];
    assert_eq!(run_call(outcomes), Some(Err(CallError::Sink("broken pipe"))));
}

#[test]
fn run_call_reports_nothing_decisive() {
    let outcomes: Vec<AttemptOutcome<&'static str>> =
        vec![AttemptOutcome::BusClosed, AttemptOutcome::BusClosed];
    assert_eq!(run_call(outcomes), None);
    assert_eq!(run_call(Vec::<AttemptOutcome<&'static str>>::new()), None);
}

#[test]
fn dispatch_baz_invokes_only_the_baz_handler() {
    let service = TestService;
    let response = service.dispatch(TestApiRequest::Baz(TestApiBazArgs {}));
    assert_eq!(response, TestApiResponse::Baz(42));
}

#[test]
fn dispatch_answers_each_variant_with_its_own() {
    let service = TestService;
    assert_eq!(
        service.dispatch(TestApiRequest::Foo(TestApiFooArgs {})),
        TestApiResponse::Foo(())
    );
    assert_eq!(
        service.dispatch(TestApiRequest::Bar(TestApiBarArgs { a0: true })),
        TestApiResponse::Bar(())
    );
    assert_eq!(
        service.dispatch(TestApiRequest::Qaz(TestApiQazArgs {
            a0: "anything".to_string(),
        })),
        TestApiResponse::Qaz(vec!["a".to_string(), "b".to_string()])
    );
}

#[test]
fn service_trait_routes_like_the_dispatcher() {
    let service = TestService;
    assert_eq!(service.name(), "TestApi");
    assert_eq!(
        service.call(TestApiRequest::Baz(TestApiBazArgs {})),
        TestApiResponse::Baz(42)
    );
}

#[test]
fn one_call_end_to_end() {
    let mut bus: BusState<&'static str> = BusState::new();

    // The caller obtains an identifier from the loop and frames its call.
    let id = bus.on_ref_request().unwrap();
    let frame = build_request(id, "TestApi".to_string(), vec![8]);
    assert_eq!(bus.on_send(id, "the caller", true), SendOutcome::Registered);

    // The remote side reads the call and answers under the same identifier.
    let decoded = decode(&frame).unwrap();
    let msg_ref = match &decoded {
        TunnelMessage::Request(t) => t.msg_ref,
        other => panic!("expected a request, got {:?}", other),
    };
    let reply = encode(&TunnelMessage::Response(TunnelResponse {
        msg_ref,
        data: vec![99],
    }));

    // The loop routes the reply by its header to the waiting caller.
    let header = partial_decode(&reply).unwrap();
    assert_eq!(
        bus.on_inbound(header),
        InboundDisposition::Deliver(id, "the caller")
    );

    // The caller settles the delivered frame into its payload.
    assert_eq!(
        resolve_attempt::<&'static str>(AttemptOutcome::Delivered(reply)),
        CallProgress::Finished(Ok(vec![99]))
    );
}

#[test]
fn generic_error_describes_itself() {
    let err = GenericError {
        code: "bad_call".to_string(),
        message: "no such operation".to_string(),
    };
    assert_eq!(err.describe(), "[bad_call] no such operation");
}

#[test]
fn refs_of_names_the_routing_fields() {
    let response: TunnelMessage<Vec<u8>> = TunnelMessage::Response(TunnelResponse {
        msg_ref: 12,
        data: Vec::new(),
    });
    assert_eq!(
        refs_of(&response),
        PartialRefs {
            msg_ref: Some(12),
            handle: None,
        }
    );
    let stream_msg: TunnelMessage<Vec<u8>> = TunnelMessage::StreamMessage(TunnelStreamMessage {
        handle: 3,
        data: Vec::new(),
    });
    assert_eq!(
        refs_of(&stream_msg),
        PartialRefs {
            msg_ref: None,
            handle: Some(3),
        }
    );
    let ready: TunnelMessage<Vec<u8>> =
        TunnelMessage::StreamReady(TunnelStreamReady { msg_ref: 5, handle: 6 });
    assert_eq!(
        refs_of(&ready),
        PartialRefs {
            msg_ref: Some(5),
            handle: Some(6),
        }
    );
}
