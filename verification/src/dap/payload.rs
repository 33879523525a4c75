//! Protocol messages and their JSON form.
//!
//! Every message is a JSON object whose `type` member says what it is:
//!
//! * `request`: `seq`, `command` and optional `arguments`;
//! * `response`: `request_seq`, `success`, optional `body` and `message`;
//! * `event`: `event` and optional `body`.
//!
//! An optional member that is `null` counts as absent. Members that are not
//! named here are passed over.
use vstd::prelude::*;
use serde_json::Value;
use crate::json::{
    bool_member, json_of, json_parse, json_text, map_new, opt_json_of, opt_str_view,
    optional_member, or_null, or_null_value, parse_json, present, print_json, put, string,
    string_member, u64_member, value_object, value_u64, Json, JsonNumber,
};
use crate::dap::codec::{encode_frame, frame};

verus! {

/// A command sent to the adapter, or one that the adapter sends to the
/// client.
#[derive(Debug, Clone, PartialEq)]
pub struct Request {
    pub seq: u64,
    pub command: String,
    pub arguments: Option<Value>,
}

/// The adapter's answer to the request with sequence number `request_seq`.
#[derive(Debug, Clone, PartialEq)]
pub struct Response {
    pub request_seq: u64,
    pub success: bool,
    pub message: Option<String>,
    pub body: Option<Value>,
}

/// Something the adapter reports on its own.
#[derive(Debug, Clone, PartialEq)]
pub struct Event {
    pub event: String,
    pub body: Option<Value>,
}

/// One protocol message.
#[derive(Debug, Clone, PartialEq)]
pub enum Payload {
    Request(Request),
    Response(Response),
    Event(Event),
}

/// What a [`Request`] holds.
pub struct RequestView {
    pub seq: u64,
    pub command: Seq<char>,
    pub arguments: Option<Json>,
}

/// What a [`Response`] holds.
pub struct ResponseView {
    pub request_seq: u64,
    pub success: bool,
    pub message: Option<Seq<char>>,
    pub body: Option<Json>,
}

/// What an [`Event`] holds.
pub struct EventView {
    pub event: Seq<char>,
    pub body: Option<Json>,
}

/// What a [`Payload`] holds.
pub enum PayloadView {
    Request(RequestView),
    Response(ResponseView),
    Event(EventView),
}

impl View for Request {
    type V = RequestView;

    open spec fn view(&self) -> RequestView {
        RequestView {
            seq: self.seq,
            command: self.command@,
            arguments: opt_json_of(self.arguments),
        }
    }
}

impl View for Response {
    type V = ResponseView;

    open spec fn view(&self) -> ResponseView {
        ResponseView {
            request_seq: self.request_seq,
            success: self.success,
            message: opt_str_view(self.message),
            body: opt_json_of(self.body),
        }
    }
}

impl View for Event {
    type V = EventView;

    open spec fn view(&self) -> EventView {
        EventView { event: self.event@, body: opt_json_of(self.body) }
    }
}

impl View for Payload {
    type V = PayloadView;

    open spec fn view(&self) -> PayloadView {
        match self {
            Payload::Request(r) => PayloadView::Request(r@),
            Payload::Response(r) => PayloadView::Response(r@),
            Payload::Event(e) => PayloadView::Event(e@),
        }
    }
}

/// The view of an optional payload.
pub open spec fn opt_payload_view(p: Option<Payload>) -> Option<PayloadView> {
    match p {
        Some(x) => Some(x@),
        None => None,
    }
}

/// Why a message from the adapter was dropped.
#[derive(Clone, Copy, Debug, PartialEq, Eq, Structural)]
pub enum ProtocolViolation {
    /// A header block without a usable length.
    MalformedFrame,
    /// The body of the frame is no JSON text.
    InvalidJson,
    /// The JSON value is neither a request nor a response nor an event.
    InvalidMessage,
    /// A response to a request that is not waiting for one.
    UnknownResponse { request_seq: u64 },
}

/// The JSON object of a request. Absent arguments are written as `null`.
pub open spec fn request_json(r: RequestView) -> Json {
    Json::Object(
        Map::<Seq<char>, Json>::empty().insert("type"@, Json::String("request"@)).insert(
            "seq"@,
            Json::Number(JsonNumber::PosInt(r.seq)),
        ).insert("command"@, Json::String(r.command)).insert("arguments"@, or_null(r.arguments)),
    )
}

/// The request that an object of type `request` holds.
pub open spec fn request_of_json(j: Json) -> Option<RequestView> {
    match (j.u64_member("seq"@), j.str_member("command"@)) {
        (Some(seq), Some(command)) => Some(
            RequestView { seq, command, arguments: j.optional_member("arguments"@) },
        ),
        _ => None,
    }
}

/// The response that an object of type `response` holds.
pub open spec fn response_of_json(j: Json) -> Option<ResponseView> {
    match (j.u64_member("request_seq"@), j.bool_member("success"@)) {
        (Some(request_seq), Some(success)) => Some(
            ResponseView {
                request_seq,
                success,
                message: j.str_member("message"@),
                body: j.optional_member("body"@),
            },
        ),
        _ => None,
    }
}

/// The event that an object of type `event` holds.
pub open spec fn event_of_json(j: Json) -> Option<EventView> {
    match j.str_member("event"@) {
        Some(event) => Some(EventView { event, body: j.optional_member("body"@) }),
        None => None,
    }
}

/// The message that a JSON value holds, if it holds one.
pub open spec fn payload_of_json(j: Json) -> Option<PayloadView> {
    match j.str_member("type"@) {
        Some(t) => if t == "request"@ {
            match request_of_json(j) {
                Some(r) => Some(PayloadView::Request(r)),
                None => None,
            }
        } else if t == "response"@ {
            match response_of_json(j) {
                Some(r) => Some(PayloadView::Response(r)),
                None => None,
            }
        } else if t == "event"@ {
            match event_of_json(j) {
                Some(e) => Some(PayloadView::Event(e)),
                None => None,
            }
        } else {
            None
        },
        None => None,
    }
}

/// What decoding the body of a frame gives.
pub open spec fn spec_decode_payload(body: Seq<u8>) -> Result<PayloadView, ProtocolViolation> {
    match json_parse(body) {
        None => Err(ProtocolViolation::InvalidJson),
        Some(j) => match payload_of_json(j) {
            Some(p) => Ok(p),
            None => Err(ProtocolViolation::InvalidMessage),
        },
    }
}

impl Request {
    /// The JSON object that goes on the wire for this request.
    pub fn to_value(&self) -> (r: Value)
        ensures
            json_of(r) == request_json(self@),
    {
        let mut m = map_new();
        put(&mut m, "type", string("request"));
        put(&mut m, "seq", value_u64(self.seq));
        put(&mut m, "command", string(self.command.as_str()));
        let arguments = match &self.arguments {
            Some(a) => Some(a.clone()),
            None => None,
        };
        put(&mut m, "arguments", or_null_value(arguments));
        value_object(m)
    }

    fn from_value(v: &Value) -> (r: Option<Request>)
        ensures
            match r {
                Some(x) => request_of_json(json_of(*v)) == Some(x@),
                None => request_of_json(json_of(*v)) is None,
            },
    {
        match (u64_member(v, "seq"), string_member(v, "command")) {
            (Some(seq), Some(command)) => Some(
                Request { seq, command, arguments: optional_member(v, "arguments") },
            ),
            _ => None,
        }
    }
}

impl Response {
    fn from_value(v: &Value) -> (r: Option<Response>)
        ensures
            match r {
                Some(x) => response_of_json(json_of(*v)) == Some(x@),
                None => response_of_json(json_of(*v)) is None,
            },
    {
        match (u64_member(v, "request_seq"), bool_member(v, "success")) {
            (Some(request_seq), Some(success)) => Some(
                Response {
                    request_seq,
                    success,
                    message: string_member(v, "message"),
                    body: optional_member(v, "body"),
                },
            ),
            _ => None,
        }
    }
}

impl Event {
    fn from_value(v: &Value) -> (r: Option<Event>)
        ensures
            match r {
                Some(x) => event_of_json(json_of(*v)) == Some(x@),
                None => event_of_json(json_of(*v)) is None,
            },
    {
        match string_member(v, "event") {
            Some(event) => Some(Event { event, body: optional_member(v, "body") }),
            None => None,
        }
    }
}

impl Payload {
    /// Reads a message out of a JSON value.
    pub fn from_value(v: &Value) -> (r: Option<Payload>)
        ensures
            opt_payload_view(r) == payload_of_json(json_of(*v)),
    {
        let tag = match string_member(v, "type") {
            Some(t) => t,
            None => {
                return None;
            },
        };
        if tag == "request".to_owned() {
            match Request::from_value(v) {
                Some(r) => Some(Payload::Request(r)),
                None => None,
            }
        } else if tag == "response".to_owned() {
            match Response::from_value(v) {
                Some(r) => Some(Payload::Response(r)),
                None => None,
            }
        } else if tag == "event".to_owned() {
            match Event::from_value(v) {
                Some(e) => Some(Payload::Event(e)),
                None => None,
            }
        } else {
            None
        }
    }
}

/// The view of a decoding outcome.
pub open spec fn decoded_view(r: Result<Payload, ProtocolViolation>) -> Result<
    PayloadView,
    ProtocolViolation,
> {
    match r {
        Ok(p) => Ok(p@),
        Err(e) => Err(e),
    }
}

/// Makes a message of a parsed body: the message that the value holds, or
/// the reason why there is none.
pub fn payload_from_parsed(parsed: Result<Value, serde_json::Error>) -> (r: Result<
    Payload,
    ProtocolViolation,
>)
    ensures
        decoded_view(r) == match parsed {
            Ok(v) => match payload_of_json(json_of(v)) {
                Some(p) => Ok(p),
                None => Err(ProtocolViolation::InvalidMessage),
            },
            Err(_) => Err(ProtocolViolation::InvalidJson),
        },
{
    match parsed {
        Ok(v) => match Payload::from_value(&v) {
            Some(p) => Ok(p),
            None => Err(ProtocolViolation::InvalidMessage),
        },
        Err(_) => Err(ProtocolViolation::InvalidJson),
    }
}

/// Decodes the body of one frame.
pub fn decode_payload(body: &[u8]) -> (r: Result<Payload, ProtocolViolation>)
    ensures
        decoded_view(r) == spec_decode_payload(body@),
{
    payload_from_parsed(parse_json(body))
}

/// A request could not be written as JSON text.
#[derive(Clone, Copy, Debug, PartialEq, Eq, Structural)]
pub struct EncodeError;

/// Puts the JSON text of a message into a frame.
pub fn frame_printed(printed: Result<Vec<u8>, serde_json::Error>) -> (r: Result<
    Vec<u8>,
    EncodeError,
>)
    ensures
        match printed_bytes(printed) {
            Some(text) => r matches Ok(bytes) && bytes@ == frame(text),
            None => r is Err,
        },
{
    match printed {
        Ok(text) => Ok(encode_frame(text.as_slice())),
        Err(_) => Err(EncodeError),
    }
}

/// The bytes of a printing outcome.
pub open spec fn printed_bytes(printed: Result<Vec<u8>, serde_json::Error>) -> Option<Seq<u8>> {
    match printed {
        Ok(text) => Some(text@),
        Err(_) => None,
    }
}

/// Encodes a request as one frame: the frame around the JSON text of the
/// request's object. It fails where the JSON printer has no text for that
/// object, and only there.
pub fn encode_request(request: &Request) -> (r: Result<Vec<u8>, EncodeError>)
    ensures
        match r {
            Ok(bytes) => spec_encode_request(request@) == Some(bytes@),
            Err(_) => spec_encode_request(request@) is None,
        },
{
    let value = request.to_value();
    frame_printed(print_json(&value))
}

/// The frame that a request travels in: the frame around the JSON text of
/// its object, where the object has a text.
pub open spec fn spec_encode_request(r: RequestView) -> Option<Seq<u8>> {
    match json_text(request_json(r)) {
        Some(text) => Some(frame(text)),
        None => None,
    }
}

/// A request with `null` arguments counted as absent: what a reader of the
/// wire form can tell.
pub open spec fn on_the_wire(r: RequestView) -> RequestView {
    RequestView { seq: r.seq, command: r.command, arguments: present(r.arguments) }
}

/// Reading the JSON object of a request gives the request back: the same
/// sequence number, the same command and the same arguments, where `null`
/// arguments count as absent.
pub proof fn lemma_request_json_round_trip(r: RequestView)
    ensures
        payload_of_json(request_json(r)) == Some(PayloadView::Request(on_the_wire(r))),
{
    reveal_strlit("type");
    reveal_strlit("seq");
    reveal_strlit("command");
    reveal_strlit("arguments");
    reveal_strlit("request");
    let j = request_json(r);
    assert("type"@ != "seq"@ && "type"@ != "command"@ && "type"@ != "arguments"@) by {
        assert("type"@.len() == 4);
    }
    assert("seq"@ != "command"@ && "seq"@ != "arguments"@) by {
        assert("seq"@.len() == 3);
    }
    assert("command"@ != "arguments"@) by {
        assert("command"@.len() == 7);
    }
}

/// A request that was encoded, sent and decoded again is the request that
/// was sent, whatever follows it in the stream. This leans on one property
/// of the JSON library that is stated here as a premise and not taken for
/// granted: that parsing the text it printed for the request gives the same
/// tree.
pub proof fn lemma_request_round_trip(r: RequestView, rest: Seq<u8>)
    requires
        spec_encode_request(r) is Some,
        spec_encode_request(r)->0.len() + rest.len() <= usize::MAX,
    ensures
        ({
            let text = json_text(request_json(r))->0;
            let stream = spec_encode_request(r)->0 + rest;
            let start = frame(text).len() - text.len();
            let end = frame(text).len() as int;
            &&& crate::dap::codec::spec_decode_frame(stream)
                == (crate::dap::codec::FrameStatus::Complete {
                start: start as usize,
                end: end as usize,
            })
            &&& json_parse(text) == Some(request_json(r)) ==> spec_decode_payload(
                stream.subrange(start, end),
            ) == Ok::<PayloadView, ProtocolViolation>(PayloadView::Request(on_the_wire(r)))
        }),
{
    let text = json_text(request_json(r))->0;
    crate::dap::codec::lemma_frame_round_trip(text, rest);
    lemma_request_json_round_trip(r);
}

} // verus!
