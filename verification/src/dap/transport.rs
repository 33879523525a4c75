//! Matching responses to the requests that wait for them.
//!
//! A [`Transport`] holds, for every request that was sent and not yet
//! answered, the reply handle of whoever waits for the answer. The handle is
//! whatever the caller likes, typically the sending half of a one-shot
//! channel. A response is handed to the one handle registered under its
//! `request_seq`, which leaves the table at that moment; events and requests
//! from the adapter are passed on; everything else is dropped with a reason.
//! Closing the transport hands every waiting handle back, so that no caller
//! waits for an answer that cannot come.
use vstd::prelude::*;
use std::collections::HashMap;
use crate::dap::payload::{
    decode_payload, encode_request, spec_decode_payload, spec_encode_request, EncodeError, Payload,
    PayloadView, ProtocolViolation, Request, Response, ResponseView,
};
use crate::dap::codec::{frame, spec_next_frame, Frame, FrameReader, FrameView};

verus! {

broadcast use vstd::std_specs::hash::group_hash_axioms;

/// The table of waiting requests and whether the stream is still open.
pub struct Transport<T> {
    pending: HashMap<u64, T>,
    closed: bool,
}

/// What a [`Transport`] holds.
pub struct TransportView<T> {
    /// The reply handle of each request that waits for its response, by the
    /// request's sequence number.
    pub pending: Map<u64, T>,
    /// Whether the transport was closed.
    pub closed: bool,
}

/// Why a request was not sent.
#[derive(Clone, Copy, Debug, PartialEq, Eq, Structural)]
pub enum SendError {
    /// The transport is closed.
    Closed,
    /// The request could not be written as JSON text.
    Encode,
}

/// A request that was not sent, with the reply handle that came with it.
pub struct Rejected<T> {
    pub error: SendError,
    pub reply: T,
}

/// What is to be done with a message from the adapter.
pub enum Incoming<T> {
    /// Hand the response to this reply handle.
    Reply { reply: T, response: Response },
    /// Pass the event or request on to the client.
    Forward(Payload),
    /// Log the reason and go on.
    Dropped(ProtocolViolation),
}

/// What an [`Incoming`] holds.
pub enum IncomingView<T> {
    Reply { reply: T, response: ResponseView },
    Forward(PayloadView),
    Dropped(ProtocolViolation),
}

impl<T> View for Incoming<T> {
    type V = IncomingView<T>;

    open spec fn view(&self) -> IncomingView<T> {
        match self {
            Incoming::Reply { reply, response } => IncomingView::Reply {
                reply: *reply,
                response: response@,
            },
            Incoming::Forward(p) => IncomingView::Forward(p@),
            Incoming::Dropped(v) => IncomingView::Dropped(*v),
        }
    }
}

impl<T> TransportView<T> {
    /// An open transport on which nothing waits.
    pub open spec fn fresh() -> Self {
        TransportView { pending: Map::empty(), closed: false }
    }

    /// The transport after `reply` was registered under `seq`.
    pub open spec fn register(self, seq: u64, reply: T) -> Self {
        TransportView { pending: self.pending.insert(seq, reply), closed: self.closed }
    }

    /// The transport after a message arrived, and what is to be done with
    /// the message.
    pub open spec fn dispatch(self, p: PayloadView) -> (Self, IncomingView<T>) {
        match p {
            PayloadView::Response(r) => if self.pending.contains_key(r.request_seq) {
                (
                    TransportView {
                        pending: self.pending.remove(r.request_seq),
                        closed: self.closed,
                    },
                    IncomingView::Reply { reply: self.pending[r.request_seq], response: r },
                )
            } else {
                (
                    self,
                    IncomingView::Dropped(
                        ProtocolViolation::UnknownResponse { request_seq: r.request_seq },
                    ),
                )
            },
            other => (self, IncomingView::Forward(other)),
        }
    }

    /// The transport after the body of a frame arrived, and what is to be
    /// done with it.
    pub open spec fn receive(self, body: Seq<u8>) -> (Self, IncomingView<T>) {
        match spec_decode_payload(body) {
            Ok(p) => self.dispatch(p),
            Err(v) => (self, IncomingView::Dropped(v)),
        }
    }

    /// The transport after something was taken off the stream, and what is
    /// to be done with it.
    pub open spec fn take(self, taken: FrameView) -> (Self, IncomingView<T>) {
        match taken {
            FrameView::Body(body) => self.receive(body),
            FrameView::Malformed => (
                self,
                IncomingView::Dropped(ProtocolViolation::MalformedFrame),
            ),
        }
    }

    /// The transport after every complete frame of `buf` was taken, the
    /// bytes that stay behind, and what is to be done with each frame, in
    /// the order of the stream.
    pub open spec fn drain(self, buf: Seq<u8>) -> (Self, Seq<u8>, Seq<IncomingView<T>>)
        decreases buf.len(),
    {
        match spec_next_frame(buf) {
            (rest, Some(taken)) => if rest.len() < buf.len() {
                let (next, outcome) = self.take(taken);
                let (last, left, outcomes) = next.drain(rest);
                (last, left, seq![outcome] + outcomes)
            } else {
                (self, buf, Seq::empty())
            },
            (_, None) => (self, buf, Seq::empty()),
        }
    }

    /// The transport after it was closed.
    pub open spec fn close(self) -> Self {
        TransportView { pending: Map::empty(), closed: true }
    }
}

/// The view of each of a list of outcomes.
pub open spec fn incoming_views<T>(outcomes: Seq<Incoming<T>>) -> Seq<IncomingView<T>> {
    Seq::new(outcomes.len(), |i: int| outcomes[i]@)
}

impl<T> View for Transport<T> {
    type V = TransportView<T>;

    closed spec fn view(&self) -> TransportView<T> {
        TransportView { pending: self.pending@, closed: self.closed }
    }
}

impl<T> Transport<T> {
    /// An open transport on which nothing waits.
    pub fn new() -> (r: Self)
        ensures
            r@ == TransportView::<T>::fresh(),
    {
        Transport { pending: HashMap::new(), closed: false }
    }

    /// Whether the transport was closed.
    pub fn is_closed(&self) -> (r: bool)
        ensures
            r == self@.closed,
    {
        self.closed
    }

    /// Whether a request with this sequence number waits for its response.
    pub fn is_pending(&self, seq: u64) -> (r: bool)
        ensures
            r == self@.pending.contains_key(seq),
    {
        self.pending.contains_key(&seq)
    }

    /// The number of requests that wait for a response.
    pub fn pending_len(&self) -> (r: usize)
        ensures
            r == self@.pending.len(),
    {
        self.pending.len()
    }

    /// Registers the reply handle of a request whose frame is ready, and
    /// hands the frame out for writing. Nothing is registered, and the handle
    /// comes back, where the transport is closed or there is no frame.
    pub fn enqueue(&mut self, seq: u64, framed: Result<Vec<u8>, EncodeError>, reply: T) -> (r:
        Result<Vec<u8>, Rejected<T>>)
        ensures
            match r {
                Ok(bytes) => !old(self)@.closed && framed == Ok::<Vec<u8>, EncodeError>(bytes)
                    && final(self)@ == old(self)@.register(seq, reply),
                Err(rejected) => rejected.reply == reply && final(self)@ == old(self)@
                    && rejected.error == (if old(self)@.closed {
                    SendError::Closed
                } else {
                    SendError::Encode
                }) && (old(self)@.closed || framed is Err),
            },
    {
        if self.closed {
            return Err(Rejected { error: SendError::Closed, reply });
        }
        match framed {
            Ok(bytes) => {
                let _ = self.pending.insert(seq, reply);
                Ok(bytes)
            },
            Err(_) => Err(Rejected { error: SendError::Encode, reply }),
        }
    }

    /// Sends a request: registers `reply` under the request's sequence
    /// number and returns the frame to write to the adapter.
    ///
    /// On a closed transport the request is rejected at once. Otherwise it is
    /// rejected where the JSON printer has no text for it, and only there. A
    /// rejected request leaves the table as it was and gets its reply handle
    /// back.
    pub fn send(&mut self, request: &Request, reply: T) -> (r: Result<Vec<u8>, Rejected<T>>)
        ensures
            match r {
                Ok(bytes) => !old(self)@.closed && spec_encode_request(request@) == Some(bytes@)
                    && final(self)@ == old(self)@.register(request.seq, reply),
                Err(rejected) => rejected.reply == reply && final(self)@ == old(self)@
                    && rejected.error == (if old(self)@.closed {
                    SendError::Closed
                } else {
                    SendError::Encode
                }) && (old(self)@.closed || spec_encode_request(request@) is None),
            },
    {
        if self.closed {
            return Err(Rejected { error: SendError::Closed, reply });
        }
        let framed = encode_request(request);
        self.enqueue(request.seq, framed, reply)
    }

    /// Decides what is done with a message from the adapter.
    ///
    /// A response goes to the reply handle registered under its
    /// `request_seq`, and that entry leaves the table. A response that
    /// nothing waits for is dropped. Events and requests are passed on, so
    /// what is passed on is never a response.
    pub fn dispatch(&mut self, payload: Payload) -> (r: Incoming<T>)
        ensures
            (final(self)@, r@) == old(self)@.dispatch(payload@),
    {
        match payload {
            Payload::Response(response) => {
                match self.pending.remove(&response.request_seq) {
                    Some(reply) => Incoming::Reply { reply, response },
                    None => {
                        assert(self.pending@ =~= old(self).pending@);
                        Incoming::Dropped(
                            ProtocolViolation::UnknownResponse {
                                request_seq: response.request_seq,
                            },
                        )
                    },
                }
            },
            other => Incoming::Forward(other),
        }
    }

    /// Decodes the body of a frame and decides what is done with it. A body
    /// that holds no message is dropped and leaves the table as it was.
    pub fn receive(&mut self, body: &[u8]) -> (r: Incoming<T>)
        ensures
            (final(self)@, r@) == old(self)@.receive(body@),
    {
        match decode_payload(body) {
            Ok(payload) => self.dispatch(payload),
            Err(violation) => Incoming::Dropped(violation),
        }
    }

    /// Decides what is done with what was taken off the stream: a body is
    /// decoded and dispatched, a malformed header block is dropped.
    pub fn take(&mut self, taken: Frame) -> (r: Incoming<T>)
        ensures
            (final(self)@, r@) == old(self)@.take(taken@),
    {
        match taken {
            Frame::Body(body) => self.receive(body.as_slice()),
            Frame::Malformed => Incoming::Dropped(ProtocolViolation::MalformedFrame),
        }
    }

    /// Takes every complete frame off the reader and decides what is done
    /// with each, in the order of the stream. One bad frame does not stop
    /// the reading: it is dropped, and the next frame is taken. What stays
    /// in the reader is the start of a frame that is not complete yet.
    pub fn drain(&mut self, reader: &mut FrameReader) -> (r: Vec<Incoming<T>>)
        ensures
            (final(self)@, final(reader)@, incoming_views(r@)) == old(self)@.drain(old(reader)@),
    {
        let mut out: Vec<Incoming<T>> = Vec::new();
        loop
            invariant_except_break
                old(self)@.drain(old(reader)@) == (
                    self@.drain(reader@).0,
                    self@.drain(reader@).1,
                    incoming_views(out@) + self@.drain(reader@).2,
                ),
            ensures
                (self@, reader@, incoming_views(out@)) == old(self)@.drain(old(reader)@),
            decreases reader@.len(),
        {
            match reader.next_frame() {
                None => {
                    break ;
                },
                Some(taken) => {
                    let outcome = self.take(taken);
                    out.push(outcome);
                },
            }
        }
        out
    }

    /// Closes the transport and hands back the reply handle of every request
    /// that still waits, by sequence number. From now on nothing can be
    /// sent, and no response finds a handle.
    pub fn close(&mut self) -> (r: HashMap<u64, T>)
        ensures
            r@ == old(self)@.pending,
            final(self)@ == old(self)@.close(),
    {
        let mut taken: HashMap<u64, T> = HashMap::new();
        std::mem::swap(&mut self.pending, &mut taken);
        self.closed = true;
        taken
    }
}

/// Each request is answered at most once. The first response to a waiting
/// request goes to the handle that was registered for it. A second response
/// with the same sequence number finds no handle: it is dropped and changes
/// nothing, so it cannot disturb what the first one delivered.
pub proof fn lemma_one_reply_per_request<T>(
    s: TransportView<T>,
    seq: u64,
    reply: T,
    first: ResponseView,
    second: ResponseView,
)
    requires
        first.request_seq == seq,
        second.request_seq == seq,
    ensures
        ({
            let registered = s.register(seq, reply);
            let (after_first, first_outcome) = registered.dispatch(PayloadView::Response(first));
            let (after_second, second_outcome) = after_first.dispatch(
                PayloadView::Response(second),
            );
            &&& first_outcome == (IncomingView::Reply { reply, response: first })
            &&& !after_first.pending.contains_key(seq)
            &&& second_outcome == IncomingView::<T>::Dropped(
                ProtocolViolation::UnknownResponse { request_seq: seq },
            )
            &&& after_second == after_first
        }),
{
}

/// A response never takes the handle of another request: whatever arrives,
/// the requests it does not answer go on waiting with the handles they had.
pub proof fn lemma_dispatch_keeps_other_requests<T>(s: TransportView<T>, p: PayloadView, seq: u64)
    requires
        s.pending.contains_key(seq),
        !(p matches PayloadView::Response(r) && r.request_seq == seq),
    ensures
        s.dispatch(p).0.pending.contains_key(seq),
        s.dispatch(p).0.pending[seq] == s.pending[seq],
{
}

/// Closing leaves no request waiting, however many there were: the table is
/// empty, the transport is closed and stays so, and a response that arrives
/// later is dropped.
pub proof fn lemma_close_leaves_nothing_waiting<T>(s: TransportView<T>, late: ResponseView)
    ensures
        s.close().closed,
        s.close().pending.len() == 0,
        forall|seq: u64| !s.close().pending.contains_key(seq),
        s.close().dispatch(PayloadView::Response(late)) == (
            s.close(),
            IncomingView::<T>::Dropped(
                ProtocolViolation::UnknownResponse { request_seq: late.request_seq },
            ),
        ),
{
}

/// Responses are matched by sequence number, never by the order in which
/// they arrive: whichever of two waiting requests is answered first, each
/// response goes to the handle of its own request, and the table ends up the
/// same.
pub proof fn lemma_replies_in_any_order<T>(
    s: TransportView<T>,
    to_a: ResponseView,
    to_b: ResponseView,
)
    requires
        to_a.request_seq != to_b.request_seq,
        s.pending.contains_key(to_a.request_seq),
        s.pending.contains_key(to_b.request_seq),
    ensures
        ({
            let a = PayloadView::Response(to_a);
            let b = PayloadView::Response(to_b);
            let reply_a = IncomingView::Reply { reply: s.pending[to_a.request_seq], response: to_a };
            let reply_b = IncomingView::Reply { reply: s.pending[to_b.request_seq], response: to_b };
            &&& s.dispatch(a).1 == reply_a
            &&& s.dispatch(a).0.dispatch(b).1 == reply_b
            &&& s.dispatch(b).1 == reply_b
            &&& s.dispatch(b).0.dispatch(a).1 == reply_a
            &&& s.dispatch(a).0.dispatch(b).0 == s.dispatch(b).0.dispatch(a).0
        }),
{
    let a = PayloadView::Response(to_a);
    let b = PayloadView::Response(to_b);
    assert(s.dispatch(a).0.dispatch(b).0.pending =~= s.dispatch(b).0.dispatch(a).0.pending);
}

/// Responses never reach the client: what is passed on is an event or a
/// request, as it came, and passing it on leaves the table as it was.
pub proof fn lemma_responses_are_never_forwarded<T>(s: TransportView<T>, p: PayloadView)
    ensures
        match s.dispatch(p).1 {
            IncomingView::Forward(q) => q == p && !(q is Response) && s.dispatch(p).0 == s,
            IncomingView::Reply { response, .. } => p == PayloadView::Response(response),
            IncomingView::Dropped(_) => p is Response && s.dispatch(p).0 == s,
        },
{
}

/// Draining a stream that begins with an encoded frame is receiving the
/// body of that frame and then draining what follows it.
pub proof fn lemma_drain_takes_the_first_frame<T>(s: TransportView<T>, body: Seq<u8>, rest: Seq<u8>)
    requires
        frame(body).len() + rest.len() <= usize::MAX,
    ensures
        s.drain(frame(body) + rest) == (
            s.receive(body).0.drain(rest).0,
            s.receive(body).0.drain(rest).1,
            seq![s.receive(body).1] + s.receive(body).0.drain(rest).2,
        ),
{
    crate::dap::codec::lemma_next_frame_round_trip(body, rest);
}

} // verus!
