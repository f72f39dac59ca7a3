use shared_journal::error::classify_status;
use shared_journal::error::error_from_json;
use shared_journal::error::error_from_status;
use shared_journal::error::into_status;
use shared_journal::error::status_parts_of;
use shared_journal::remote::decode_batch;
use shared_journal::remote::decode_read_message;
use shared_journal::remote::ReadEventsResponse;
use shared_journal::remote::Stream;
use shared_journal::remote::WireEvent;
use shared_journal::timestamp::Timestamp;
use shared_journal::ErrorKind;
use shared_journal::Event;
use shared_journal::JournalError;

fn wire(ts: u64, data: &[u8]) -> WireEvent {
    WireEvent { ts: Timestamp::new(ts).serialize(), data: data.to_vec() }
}

#[test]
fn request_builders_carry_name_position_and_payload() {
    let stream = Stream::new(String::from("orders"));
    assert_eq!(stream.name().as_str(), "orders");

    let read = stream.read_request(Timestamp::new(5));
    assert_eq!(read.stream, "orders");
    assert_eq!(read.ts, Timestamp::new(5).serialize());

    let append = stream.append_request(Event { ts: Timestamp::new(9), data: b"x".to_vec() });
    assert_eq!(append.stream, "orders");
    assert_eq!(append.ts, Timestamp::new(9).serialize());
    assert_eq!(append.data, b"x".to_vec());

    let release = stream.release_request(Timestamp::new(7));
    assert_eq!(release.stream, "orders");
    assert_eq!(release.ts, Timestamp::new(7).serialize());
}

#[test]
fn appended_event_comes_back_through_decode() {
    // An append of {ts: T0, data: b"x"} puts exactly that pair on the wire,
    // and a read from T0 that receives it back decodes it unchanged.
    let t0 = Timestamp::new(100);
    let stream = Stream::new(String::from("s"));
    let append = stream.append_request(Event { ts: t0, data: b"x".to_vec() });

    let batch = ReadEventsResponse { events: vec![WireEvent { ts: append.ts, data: append.data }] };
    let events = decode_batch(t0, batch).unwrap();
    assert_eq!(events.len(), 1);
    assert_eq!(events[0].ts, t0);
    assert_eq!(events[0].data, b"x".to_vec());
}

#[test]
fn decode_keeps_order_and_payloads() {
    let batch = ReadEventsResponse {
        events: vec![wire(3, b"a"), wire(4, b"bb"), wire(9, b"")],
    };
    let events = decode_batch(Timestamp::new(0), batch).unwrap();
    let got: Vec<(u64, Vec<u8>)> = events.iter().map(|e| (e.ts.value, e.data.clone())).collect();
    assert_eq!(got, vec![(3, b"a".to_vec()), (4, b"bb".to_vec()), (9, Vec::new())]);
}

#[test]
fn decode_never_yields_below_from() {
    let batch = ReadEventsResponse {
        events: vec![wire(1, b"old"), wire(5, b"keep"), wire(2, b"stale"), wire(8, b"new")],
    };
    let events = decode_batch(Timestamp::new(5), batch).unwrap();
    let got: Vec<u64> = events.iter().map(|e| e.ts.value).collect();
    assert_eq!(got, vec![5, 8]);
    for e in &events {
        assert!(e.ts.value >= 5);
    }
}

#[test]
fn decode_rejects_malformed_position() {
    let batch = ReadEventsResponse {
        events: vec![wire(3, b"ok"), WireEvent { ts: vec![1, 2, 3], data: b"bad".to_vec() }],
    };
    let r = decode_batch(Timestamp::new(0), batch);
    assert!(matches!(r, Err(JournalError::MalformedTimestamp)));
}

#[test]
fn reads_after_release_keep_everything_above_the_watermark() {
    // After releasing up to T5 the server may drop events at or below T5,
    // but a read from T0 must still surface every retained event above T5.
    let t0 = Timestamp::new(0);
    let retained = ReadEventsResponse { events: vec![wire(6, b"f"), wire(7, b"g")] };
    let events = decode_batch(t0, retained).unwrap();
    let got: Vec<u64> = events.iter().map(|e| e.ts.value).collect();
    assert_eq!(got, vec![6, 7]);
}

#[test]
fn open_failure_surfaces_as_transport_error() {
    // A failed read delivers exactly one explicit error item; the status of
    // an unreachable endpoint maps to the transport-failure kind.
    let status = tonic::Status::new(tonic::Code::Unavailable, "connect refused");
    let item = decode_read_message(Timestamp::new(0), Err(status));
    match item {
        Err(JournalError::TransportFailure { message }) => {
            assert_eq!(message, "connect refused");
        },
        other => panic!("expected a transport failure, got {:?}", other),
    }
}

#[test]
fn decode_read_message_passes_batches_through() {
    let batch = ReadEventsResponse { events: vec![wire(11, b"z")] };
    let events = decode_read_message(Timestamp::new(10), Ok(batch)).unwrap();
    assert_eq!(events.len(), 1);
    assert_eq!(events[0].ts.value, 11);
}

#[test]
fn status_codes_classify_by_kind() {
    for code in [1, 4, 14] {
        let e = classify_status(code, String::from("m"));
        assert_eq!(e.kind(), ErrorKind::TransportFailure);
    }
    for code in [0, 2, 3, 5, 7, 9, 13, 16] {
        let e = classify_status(code, String::from("m"));
        match e {
            JournalError::RequestRejected { code: c, message } => {
                assert_eq!(c, code);
                assert_eq!(message, "m");
            },
            other => panic!("expected a rejection, got {:?}", other),
        }
    }
}

#[test]
fn status_round_trip_through_domain_error() {
    let status = tonic::Status::new(tonic::Code::PermissionDenied, "not the leader");
    let e = error_from_status(status);
    match &e {
        JournalError::RequestRejected { code, message } => {
            assert_eq!(*code, 7);
            assert_eq!(message, "not the leader");
        },
        other => panic!("expected a rejection, got {:?}", other),
    }
    let back = into_status(&e);
    assert_eq!(back.code(), tonic::Code::PermissionDenied);
    assert_eq!(back.message(), "not the leader");
}

#[test]
fn domain_errors_report_back_as_statuses() {
    let (code, _) = status_parts_of(&JournalError::MalformedTimestamp);
    assert_eq!(code, 3);
    let (code, message) =
        status_parts_of(&JournalError::TransportFailure { message: String::from("down") });
    assert_eq!(code, 13);
    assert_eq!(message, "down");
    let (code, _) = status_parts_of(&JournalError::StreamEnded);
    assert_eq!(code, 10);
    let ended = into_status(&JournalError::StreamEnded);
    assert_eq!(ended.code(), tonic::Code::Aborted);
}

#[test]
fn json_faults_are_rejections() {
    let bad: Result<serde_json::Value, serde_json::Error> = serde_json::from_str("{");
    let e = error_from_json(bad.unwrap_err());
    match e {
        JournalError::RequestRejected { code, .. } => assert_eq!(code, 3),
        other => panic!("expected a rejection, got {:?}", other),
    }
}

#[test]
fn stream_ended_is_its_own_kind() {
    assert_eq!(JournalError::StreamEnded.kind(), ErrorKind::StreamEnded);
    assert_eq!(JournalError::MalformedTimestamp.kind(), ErrorKind::MalformedTimestamp);
}
