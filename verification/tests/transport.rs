use editor_core::dap::codec::{encode_frame, FrameReader};
use editor_core::dap::payload::{
    decode_payload, EncodeError, Event, Payload, ProtocolViolation, Request, Response,
};
use editor_core::dap::transport::{Incoming, SendError, Transport};

fn request(seq: u64, command: &str) -> Request {
    Request { seq, command: command.to_string(), arguments: None }
}

fn response(request_seq: u64, success: bool) -> Response {
    Response { request_seq, success, message: None, body: None }
}

fn response_body(request_seq: u64) -> Vec<u8> {
    format!(
        "{{\"type\":\"response\",\"seq\":1,\"request_seq\":{},\"success\":true}}",
        request_seq
    )
    .into_bytes()
}

fn reply_of(incoming: Incoming<&'static str>) -> (&'static str, Response) {
    match incoming {
        Incoming::Reply { reply, response } => (reply, response),
        Incoming::Forward(p) => panic!("forwarded {:?}", p),
        Incoming::Dropped(v) => panic!("dropped {:?}", v),
    }
}

fn dropped(incoming: Incoming<&'static str>) -> ProtocolViolation {
    match incoming {
        Incoming::Dropped(v) => v,
        Incoming::Forward(p) => panic!("forwarded {:?}", p),
        Incoming::Reply { reply, .. } => panic!("replied to {}", reply),
    }
}

#[test]
fn a_new_transport_is_open_and_empty() {
    let transport: Transport<u8> = Transport::new();
    assert!(!transport.is_closed());
    assert_eq!(transport.pending_len(), 0);
    assert!(!transport.is_pending(1));
}

#[test]
fn send_registers_the_reply_and_returns_the_frame() {
    let mut transport = Transport::new();
    let frame = match transport.send(&request(1, "pause"), "caller") {
        Ok(frame) => frame,
        Err(_) => panic!("rejected"),
    };
    assert!(transport.is_pending(1));
    assert_eq!(transport.pending_len(), 1);
    let mut reader = FrameReader::new();
    reader.push(&frame);
    let body = match reader.next_frame() {
        Some(editor_core::dap::codec::Frame::Body(body)) => body,
        other => panic!("no frame: {:?}", other),
    };
    assert_eq!(decode_payload(&body), Ok(Payload::Request(request(1, "pause"))));
}

#[test]
fn a_response_goes_to_the_reply_registered_under_its_number() {
    let mut transport = Transport::new();
    assert!(transport.send(&request(1, "a"), "first").is_ok());
    assert!(transport.send(&request(2, "b"), "second").is_ok());
    let (reply, answer) = reply_of(transport.dispatch(Payload::Response(response(2, true))));
    assert_eq!(reply, "second");
    assert_eq!(answer, response(2, true));
    assert!(transport.is_pending(1));
    assert!(!transport.is_pending(2));
    assert_eq!(transport.pending_len(), 1);
}

#[test]
fn a_failed_response_is_delivered_too() {
    let mut transport = Transport::new();
    assert!(transport.send(&request(5, "launch"), "caller").is_ok());
    let (reply, answer) = reply_of(transport.dispatch(Payload::Response(response(5, false))));
    assert_eq!(reply, "caller");
    assert!(!answer.success);
}

#[test]
fn a_second_response_to_the_same_request_is_dropped() {
    let mut transport = Transport::new();
    assert!(transport.send(&request(1, "a"), "first").is_ok());
    assert!(transport.send(&request(2, "b"), "second").is_ok());
    let (reply, _) = reply_of(transport.dispatch(Payload::Response(response(1, true))));
    assert_eq!(reply, "first");
    assert_eq!(
        dropped(transport.dispatch(Payload::Response(response(1, false)))),
        ProtocolViolation::UnknownResponse { request_seq: 1 }
    );
    assert_eq!(transport.pending_len(), 1);
    assert!(transport.is_pending(2));
}

#[test]
fn a_response_that_nothing_waits_for_is_dropped() {
    let mut transport: Transport<&'static str> = Transport::new();
    assert_eq!(
        dropped(transport.dispatch(Payload::Response(response(99, true)))),
        ProtocolViolation::UnknownResponse { request_seq: 99 }
    );
    assert_eq!(transport.pending_len(), 0);
}

#[test]
fn events_and_reverse_requests_are_passed_on() {
    let mut transport = Transport::new();
    assert!(transport.send(&request(1, "a"), "first").is_ok());
    let event = Payload::Event(Event { event: "stopped".to_string(), body: None });
    match transport.dispatch(event.clone()) {
        Incoming::Forward(p) => assert_eq!(p, event),
        _ => panic!("not forwarded"),
    }
    let reverse = Payload::Request(request(1, "runInTerminal"));
    match transport.dispatch(reverse.clone()) {
        Incoming::Forward(p) => assert_eq!(p, reverse),
        _ => panic!("not forwarded"),
    }
    assert!(transport.is_pending(1));
}

#[test]
fn receive_decodes_and_dispatches() {
    let mut transport = Transport::new();
    assert!(transport.send(&request(3, "next"), "stepper").is_ok());
    let (reply, answer) = reply_of(transport.receive(&response_body(3)));
    assert_eq!(reply, "stepper");
    assert_eq!(answer, response(3, true));
    assert_eq!(dropped(transport.receive(b"not json")), ProtocolViolation::InvalidJson);
    assert_eq!(dropped(transport.receive(b"{\"seq\":1}")), ProtocolViolation::InvalidMessage);
    assert_eq!(
        dropped(transport.receive(&response_body(3))),
        ProtocolViolation::UnknownResponse { request_seq: 3 }
    );
}

#[test]
fn drain_takes_every_complete_frame_in_order() {
    let mut transport = Transport::new();
    assert!(transport.send(&request(1, "a"), "first").is_ok());
    assert!(transport.send(&request(2, "b"), "second").is_ok());
    let mut reader = FrameReader::new();
    reader.push(&encode_frame(&response_body(2)));
    reader.push(b"Content-Length: ?\r\n\r\n");
    reader.push(&encode_frame(b"{\"type\":\"event\",\"event\":\"output\"}"));
    reader.push(&encode_frame(b"garbage"));
    reader.push(&encode_frame(&response_body(1)));
    reader.push(b"Content-Length: 10\r\n\r\nhalf");
    let outcomes = transport.drain(&mut reader);
    assert_eq!(outcomes.len(), 5);
    let mut outcomes = outcomes.into_iter();
    assert_eq!(reply_of(outcomes.next().unwrap()).0, "second");
    assert_eq!(dropped(outcomes.next().unwrap()), ProtocolViolation::MalformedFrame);
    match outcomes.next().unwrap() {
        Incoming::Forward(Payload::Event(e)) => assert_eq!(e.event, "output"),
        _ => panic!("not forwarded"),
    }
    assert_eq!(dropped(outcomes.next().unwrap()), ProtocolViolation::InvalidJson);
    assert_eq!(reply_of(outcomes.next().unwrap()).0, "first");
    assert_eq!(reader.len(), 26);
    assert_eq!(transport.pending_len(), 0);
    assert!(transport.drain(&mut reader).is_empty());
}

#[test]
fn close_hands_back_every_waiting_reply() {
    let mut transport = Transport::new();
    for seq in 1..=5u64 {
        assert!(transport.send(&request(seq, "x"), seq * 10).is_ok());
    }
    let (reply, _) = match transport.dispatch(Payload::Response(response(3, true))) {
        Incoming::Reply { reply, response } => (reply, response),
        _ => panic!("no reply"),
    };
    assert_eq!(reply, 30);
    let cancelled = transport.close();
    assert!(transport.is_closed());
    assert_eq!(transport.pending_len(), 0);
    assert_eq!(cancelled.len(), 4);
    for seq in [1u64, 2, 4, 5] {
        assert_eq!(cancelled.get(&seq), Some(&(seq * 10)));
    }
}

#[test]
fn a_closed_transport_rejects_every_request() {
    let mut transport = Transport::new();
    assert!(transport.close().is_empty());
    match transport.send(&request(1, "initialize"), "caller") {
        Ok(_) => panic!("sent on a closed transport"),
        Err(rejected) => {
            assert_eq!(rejected.error, SendError::Closed);
            assert_eq!(rejected.reply, "caller");
        }
    }
    assert_eq!(transport.pending_len(), 0);
    match transport.enqueue(2, Ok(vec![1, 2, 3]), "other") {
        Ok(_) => panic!("sent on a closed transport"),
        Err(rejected) => assert_eq!(rejected.error, SendError::Closed),
    }
}

#[test]
fn a_late_response_after_close_is_dropped() {
    let mut transport = Transport::new();
    assert!(transport.send(&request(1, "a"), "first").is_ok());
    assert_eq!(transport.close().len(), 1);
    assert_eq!(
        dropped(transport.dispatch(Payload::Response(response(1, true)))),
        ProtocolViolation::UnknownResponse { request_seq: 1 }
    );
}

#[test]
fn enqueue_without_a_frame_gives_the_reply_back() {
    let mut transport = Transport::new();
    match transport.enqueue(1, Err(EncodeError), "caller") {
        Ok(_) => panic!("sent without a frame"),
        Err(rejected) => {
            assert_eq!(rejected.error, SendError::Encode);
            assert_eq!(rejected.reply, "caller");
        }
    }
    assert!(!transport.is_pending(1));
    assert_eq!(transport.enqueue(1, Ok(vec![9]), "caller").ok(), Some(vec![9]));
    assert!(transport.is_pending(1));
}

#[test]
fn registering_a_number_again_replaces_the_reply() {
    let mut transport = Transport::new();
    assert!(transport.send(&request(1, "a"), "old").is_ok());
    assert!(transport.send(&request(1, "b"), "new").is_ok());
    assert_eq!(transport.pending_len(), 1);
    assert_eq!(reply_of(transport.dispatch(Payload::Response(response(1, true)))).0, "new");
}
