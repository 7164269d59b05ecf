//! The ntfy notification: the HTTP request it sends, and the decisions of the
//! exchange with the server.
use vstd::prelude::*;
use vstd::string::StringSliceAdditionalSpecFns;
use vstd::utf8::encode_utf8;

use crate::time::{elapsed_micros, Instant};
use crate::utils::{decimal, digit_fold, law_decimal_is_canonical};

verus! {

/// The capacity in bytes of the buffer the request is written into.
pub const REQUEST_CAPACITY: usize = 512;

/// The body of the notification.
pub const NOTIFY_BODY: &'static str = "Laundry cycle complete!";

#[verifier::external_type_specification]
#[verifier::external_body]
pub struct ExHeaplessString<const N: usize>(heapless::String<N>);

/// The bytes held by a request buffer, a `heapless::String<512>`.
pub uninterp spec fn request_buffer_bytes(buf: heapless::String<512>) -> Seq<u8>;

/// `heapless::String::new`: an empty string.
#[verifier::external_body]
fn request_buffer_new() -> (buf: heapless::String<512>)
    ensures
        request_buffer_bytes(buf) == Seq::<u8>::empty(),
{
    heapless::String::new()
}

/// `heapless::String::push_str`: appends the bytes of `s` when they fit in
/// the capacity that is left; otherwise fails and leaves the string unchanged.
#[verifier::external_body]
fn request_buffer_push_str(buf: &mut heapless::String<512>, s: &str) -> (ok: bool)
    ensures
        ok == (request_buffer_bytes(*old(buf)).len() + s.spec_bytes().len() <= 512),
        ok ==> request_buffer_bytes(*final(buf)) == request_buffer_bytes(*old(buf)) + s.spec_bytes(),
        !ok ==> request_buffer_bytes(*final(buf)) == request_buffer_bytes(*old(buf)),
{
    buf.push_str(s).is_ok()
}

/// `heapless::String::push`: appends the UTF-8 encoding of `c` when it fits
/// in the capacity that is left; otherwise fails and leaves the string
/// unchanged.
#[verifier::external_body]
fn request_buffer_push(buf: &mut heapless::String<512>, c: char) -> (ok: bool)
    ensures
        ok == (request_buffer_bytes(*old(buf)).len() + encode_utf8(seq![c]).len() <= 512),
        ok ==> request_buffer_bytes(*final(buf)) == request_buffer_bytes(*old(buf)) + encode_utf8(
            seq![c],
        ),
        !ok ==> request_buffer_bytes(*final(buf)) == request_buffer_bytes(*old(buf)),
{
    buf.push(c).is_ok()
}

/// The request does not fit in the request buffer.
#[derive(Clone, Copy, Debug, PartialEq, Eq, Structural)]
pub struct RequestTooLong;

/// An IPv4 address in dotted decimal, as `Display` writes it.
pub open spec fn dotted_quad(host: [u8; 4]) -> Seq<u8> {
    decimal(host[0] as nat) + ".".spec_bytes() + decimal(host[1] as nat) + ".".spec_bytes()
        + decimal(host[2] as nat) + ".".spec_bytes() + decimal(host[3] as nat)
}

/// The HTTP/1.0 POST that publishes the notification body to `topic` on the
/// ntfy server at `host:port`.
pub open spec fn ntfy_request(topic: Seq<u8>, host: [u8; 4], port: u16) -> Seq<u8> {
    "POST /".spec_bytes() + topic + " HTTP/1.0\r\nHost: ".spec_bytes() + dotted_quad(host)
        + ":".spec_bytes() + decimal(port as nat)
        + "\r\nContent-Type: text/plain\r\nTitle: Laundry Done\r\nContent-Length: ".spec_bytes()
        + decimal(NOTIFY_BODY.spec_bytes().len()) + "\r\n\r\n".spec_bytes()
        + NOTIFY_BODY.spec_bytes()
}

/// The character of the decimal digit `d`.
fn digit_char(d: u64) -> (c: char)
    requires
        d < 10,
    ensures
        encode_utf8(seq![c]) == seq![(48 + d) as u8],
{
    let b: u8 = 48u8 + d as u8;
    let c = b as char;
    proof {
        let v: u32 = c as u32;
        assert(v == b as u32);
        assert(v & 0x7F == v) by (bit_vector)
            requires
                v <= 0x7F,
        ;
        assert(seq![c].drop_first() =~= Seq::<char>::empty());
        reveal_with_fuel(encode_utf8, 2);
    }
    c
}

/// Appends the decimal text of `n`, or fails, leaving `buf` unchanged, when
/// it does not fit.
fn push_decimal(buf: &mut heapless::String<512>, n: u64) -> (ok: bool)
    ensures
        ok == (request_buffer_bytes(*old(buf)).len() + decimal(n as nat).len() <= 512),
        ok ==> request_buffer_bytes(*final(buf)) == request_buffer_bytes(*old(buf)) + decimal(
            n as nat,
        ),
        !ok ==> request_buffer_bytes(*final(buf)).len() <= request_buffer_bytes(*old(buf)).len()
            + decimal(n as nat).len(),
    decreases n,
{
    let ghost before = request_buffer_bytes(*buf);
    if n >= 10 {
        if !push_decimal(buf, n / 10) {
            return false;
        }
    }
    let ok = request_buffer_push(buf, digit_char(n % 10));
    proof {
        if n >= 10 {
            assert(decimal(n as nat) == decimal((n / 10) as nat) + seq![(48 + n % 10) as u8]);
        }
    }
    ok
}


/// Builds the HTTP/1.0 POST that publishes the notification to `topic` on
/// the ntfy server at `host:port`, in a buffer of `REQUEST_CAPACITY` bytes.
/// Fails exactly when the request does not fit in the buffer.
pub fn build_ntfy_request(topic: &str, host: [u8; 4], port: u16) -> (r: Result<
    heapless::String<512>,
    RequestTooLong,
>)
    ensures
        r is Ok <==> ntfy_request(topic.spec_bytes(), host, port).len() <= REQUEST_CAPACITY,
        r matches Ok(buf) ==> request_buffer_bytes(buf) == ntfy_request(
            topic.spec_bytes(),
            host,
            port,
        ),
{
    let ghost total = ntfy_request(topic.spec_bytes(), host, port);
    let mut buf = request_buffer_new();
    if !request_buffer_push_str(&mut buf, "POST /") {
        return Err(RequestTooLong);
    }
    if !request_buffer_push_str(&mut buf, topic) {
        return Err(RequestTooLong);
    }
    if !request_buffer_push_str(&mut buf, " HTTP/1.0\r\nHost: ") {
        return Err(RequestTooLong);
    }
    if !push_decimal(&mut buf, host[0] as u64) {
        return Err(RequestTooLong);
    }
    if !request_buffer_push_str(&mut buf, ".") {
        return Err(RequestTooLong);
    }
    if !push_decimal(&mut buf, host[1] as u64) {
        return Err(RequestTooLong);
    }
    if !request_buffer_push_str(&mut buf, ".") {
        return Err(RequestTooLong);
    }
    if !push_decimal(&mut buf, host[2] as u64) {
        return Err(RequestTooLong);
    }
    if !request_buffer_push_str(&mut buf, ".") {
        return Err(RequestTooLong);
    }
    if !push_decimal(&mut buf, host[3] as u64) {
        return Err(RequestTooLong);
    }
    if !request_buffer_push_str(&mut buf, ":") {
        return Err(RequestTooLong);
    }
    if !push_decimal(&mut buf, port as u64) {
        return Err(RequestTooLong);
    }
    if !request_buffer_push_str(
        &mut buf,
        "\r\nContent-Type: text/plain\r\nTitle: Laundry Done\r\nContent-Length: ",
    ) {
        return Err(RequestTooLong);
    }
    let body_len = NOTIFY_BODY.as_bytes().len();
    if !push_decimal(&mut buf, body_len as u64) {
        return Err(RequestTooLong);
    }
    if !request_buffer_push_str(&mut buf, "\r\n\r\n") {
        return Err(RequestTooLong);
    }
    if !request_buffer_push_str(&mut buf, NOTIFY_BODY) {
        return Err(RequestTooLong);
    }
    assert(request_buffer_bytes(buf) =~= total);
    Ok(buf)
}


/// The request starts with `POST /` and the topic, ends with a blank line
/// and the body, and the decimal digits just before that blank line read
/// back as the body's length in bytes (its `Content-Length`).
pub proof fn law_request_frames_body(topic: Seq<u8>, host: [u8; 4], port: u16)
    ensures
        ({
            let r = ntfy_request(topic, host, port);
            let start = "POST /".spec_bytes() + topic;
            let b = NOTIFY_BODY.spec_bytes();
            let cl = decimal(b.len());
            let tail = cl + "\r\n\r\n".spec_bytes() + b;
            &&& r.len() >= start.len() + tail.len()
            &&& r.take(start.len() as int) == start
            &&& r.skip(r.len() - tail.len()) == tail
            &&& r.skip(r.len() - b.len()) == b
            &&& forall|i: int| 0 <= i < cl.len() ==> 48 <= #[trigger] cl[i] <= 57
            &&& digit_fold(cl) == b.len()
        }),
{
    let r = ntfy_request(topic, host, port);
    let start = "POST /".spec_bytes() + topic;
    let b = NOTIFY_BODY.spec_bytes();
    let cl = decimal(b.len());
    let blank = "\r\n\r\n".spec_bytes();
    let tail = cl + blank + b;
    let mid = " HTTP/1.0\r\nHost: ".spec_bytes() + dotted_quad(host) + ":".spec_bytes() + decimal(
        port as nat,
    ) + "\r\nContent-Type: text/plain\r\nTitle: Laundry Done\r\nContent-Length: ".spec_bytes();
    assert(r =~= start + mid + tail);
    assert((start + mid + tail).take(start.len() as int) =~= start);
    assert((start + mid + tail).skip(r.len() - tail.len()) =~= tail);
    assert(tail.skip(tail.len() - b.len()) =~= b);
    assert(r.skip(r.len() - b.len()) =~= b);
    law_decimal_is_canonical(b.len());
}

/// How long, in microseconds, the server's response is drained at most.
pub const RESPONSE_BUDGET_MICROS: u64 = 5_000_000;

/// How an attempt to notify ended.
#[derive(Clone, Copy, Debug, PartialEq, Eq, Structural)]
pub enum NotifyOutcome {
    /// The request was written and the response drained.
    Sent,
    /// The TCP connection could not be opened.
    OpenFailed,
    /// The request could not be written.
    WriteFailed,
}

/// Where the exchange with the server stands.
#[derive(Clone, Copy, Debug, PartialEq, Eq, Structural)]
pub enum NotifyPhase {
    /// Waiting for the TCP connection to open.
    Connecting,
    /// Waiting for the request to be written.
    Sending,
    /// Waiting for the socket to be flushed.
    Flushing,
    /// Reading the response; the budget counts from `since`.
    Draining { since: Instant },
    /// Waiting for the socket to be disconnected.
    Closing { outcome: NotifyOutcome },
    /// Done.
    Finished { outcome: NotifyOutcome },
}

/// What the socket reported for the last action.
#[derive(Clone, Copy, Debug, PartialEq, Eq, Structural)]
pub enum NotifyEvent {
    /// The connection is open.
    Opened,
    /// The connection could not be opened.
    OpenFailed,
    /// The whole request was written.
    Written,
    /// Writing the request failed.
    WriteFailed,
    /// The socket was flushed (whatever the result), at time `now`.
    Flushed { now: Instant },
    /// Some response bytes were read, at time `now`.
    Received { now: Instant },
    /// The read returned no bytes or an error: the response is over.
    ReceiveEnded,
    /// The socket was disconnected.
    Disconnected,
}

/// What to do with the socket next.
#[derive(Clone, Copy, Debug, PartialEq, Eq, Structural)]
pub enum NotifyAction {
    /// Open a TCP connection to the server.
    Open,
    /// Write the whole request.
    Write,
    /// Flush the socket.
    Flush,
    /// Read some of the response.
    Read,
    /// Disconnect the socket.
    Disconnect,
    /// Stop; the attempt ended with `outcome`.
    Finish { outcome: NotifyOutcome },
}

/// The action that a phase waits on; it is asked for again when an event
/// comes that does not answer it.
pub open spec fn pending_action(p: NotifyPhase) -> NotifyAction {
    match p {
        NotifyPhase::Connecting => NotifyAction::Open,
        NotifyPhase::Sending => NotifyAction::Write,
        NotifyPhase::Flushing => NotifyAction::Flush,
        NotifyPhase::Draining { .. } => NotifyAction::Read,
        NotifyPhase::Closing { .. } => NotifyAction::Disconnect,
        NotifyPhase::Finished { outcome } => NotifyAction::Finish { outcome },
    }
}

/// One step of the exchange: the next phase and the action to take.
pub open spec fn notify_step(p: NotifyPhase, e: NotifyEvent) -> (NotifyPhase, NotifyAction) {
    match (p, e) {
        (NotifyPhase::Connecting, NotifyEvent::Opened) => (NotifyPhase::Sending, NotifyAction::Write),
        (NotifyPhase::Connecting, NotifyEvent::OpenFailed) => (
            NotifyPhase::Finished { outcome: NotifyOutcome::OpenFailed },
            NotifyAction::Finish { outcome: NotifyOutcome::OpenFailed },
        ),
        (NotifyPhase::Sending, NotifyEvent::Written) => (NotifyPhase::Flushing, NotifyAction::Flush),
        (NotifyPhase::Sending, NotifyEvent::WriteFailed) => (
            NotifyPhase::Closing { outcome: NotifyOutcome::WriteFailed },
            NotifyAction::Disconnect,
        ),
        (NotifyPhase::Flushing, NotifyEvent::Flushed { now }) => (
            NotifyPhase::Draining { since: now },
            NotifyAction::Read,
        ),
        (NotifyPhase::Draining { since }, NotifyEvent::Received { now }) => {
            if elapsed_micros(since.micros, now.micros) > RESPONSE_BUDGET_MICROS {
                (NotifyPhase::Closing { outcome: NotifyOutcome::Sent }, NotifyAction::Disconnect)
            } else {
                (NotifyPhase::Draining { since }, NotifyAction::Read)
            }
        },
        (NotifyPhase::Draining { .. }, NotifyEvent::ReceiveEnded) => (
            NotifyPhase::Closing { outcome: NotifyOutcome::Sent },
            NotifyAction::Disconnect,
        ),
        (NotifyPhase::Closing { outcome }, NotifyEvent::Disconnected) => (
            NotifyPhase::Finished { outcome },
            NotifyAction::Finish { outcome },
        ),
        _ => (p, pending_action(p)),
    }
}

/// The decisions of one attempt to post the notification: open the
/// connection, write the request, flush, drain the response for at most
/// `RESPONSE_BUDGET_MICROS`, disconnect. A failed open ends the attempt
/// without a disconnect; a failed write disconnects first.
pub struct NotifySession {
    phase: NotifyPhase,
}

impl View for NotifySession {
    type V = NotifyPhase;

    closed spec fn view(&self) -> NotifyPhase {
        self.phase
    }
}

impl NotifySession {
    /// A new attempt; its first action is to open the connection.
    pub fn start() -> (r: (NotifySession, NotifyAction))
        ensures
            r.0@ == NotifyPhase::Connecting,
            r.1 == NotifyAction::Open,
    {
        (NotifySession { phase: NotifyPhase::Connecting }, NotifyAction::Open)
    }

    /// Where the exchange stands.
    pub fn phase(&self) -> (p: NotifyPhase)
        ensures
            p == self@,
    {
        self.phase
    }

    /// Takes in what the socket reported and says what to do next.
    pub fn step(&mut self, event: NotifyEvent) -> (action: NotifyAction)
        ensures
            (final(self)@, action) == notify_step(old(self)@, event),
    {
        let (next, action) = match (self.phase, event) {
            (NotifyPhase::Connecting, NotifyEvent::Opened) => (
                NotifyPhase::Sending,
                NotifyAction::Write,
            ),
            (NotifyPhase::Connecting, NotifyEvent::OpenFailed) => (
                NotifyPhase::Finished { outcome: NotifyOutcome::OpenFailed },
                NotifyAction::Finish { outcome: NotifyOutcome::OpenFailed },
            ),
            (NotifyPhase::Sending, NotifyEvent::Written) => (
                NotifyPhase::Flushing,
                NotifyAction::Flush,
            ),
            (NotifyPhase::Sending, NotifyEvent::WriteFailed) => (
                NotifyPhase::Closing { outcome: NotifyOutcome::WriteFailed },
                NotifyAction::Disconnect,
            ),
            (NotifyPhase::Flushing, NotifyEvent::Flushed { now }) => (
                NotifyPhase::Draining { since: now },
                NotifyAction::Read,
            ),
            (NotifyPhase::Draining { since }, NotifyEvent::Received { now }) => {
                if now.duration_since(since).as_micros() > RESPONSE_BUDGET_MICROS {
                    (NotifyPhase::Closing { outcome: NotifyOutcome::Sent }, NotifyAction::Disconnect)
                } else {
                    (NotifyPhase::Draining { since }, NotifyAction::Read)
                }
            },
            (NotifyPhase::Draining { .. }, NotifyEvent::ReceiveEnded) => (
                NotifyPhase::Closing { outcome: NotifyOutcome::Sent },
                NotifyAction::Disconnect,
            ),
            (NotifyPhase::Closing { outcome }, NotifyEvent::Disconnected) => (
                NotifyPhase::Finished { outcome },
                NotifyAction::Finish { outcome },
            ),
            (p, _) => (p, Self::pending(p)),
        };
        self.phase = next;
        action
    }

    fn pending(p: NotifyPhase) -> (a: NotifyAction)
        ensures
            a == pending_action(p),
    {
        match p {
            NotifyPhase::Connecting => NotifyAction::Open,
            NotifyPhase::Sending => NotifyAction::Write,
            NotifyPhase::Flushing => NotifyAction::Flush,
            NotifyPhase::Draining { .. } => NotifyAction::Read,
            NotifyPhase::Closing { .. } => NotifyAction::Disconnect,
            NotifyPhase::Finished { outcome } => NotifyAction::Finish { outcome },
        }
    }
}


/// The phase after the given events, in order.
pub open spec fn notify_run(p: NotifyPhase, events: Seq<NotifyEvent>) -> NotifyPhase
    decreases events.len(),
{
    if events.len() == 0 {
        p
    } else {
        notify_run(notify_step(p, events[0]).0, events.drop_first())
    }
}

/// The actions asked for by the given events, in order.
pub open spec fn notify_actions(p: NotifyPhase, events: Seq<NotifyEvent>) -> Seq<NotifyAction>
    decreases events.len(),
{
    if events.len() == 0 {
        Seq::empty()
    } else {
        seq![notify_step(p, events[0]).1] + notify_actions(
            notify_step(p, events[0]).0,
            events.drop_first(),
        )
    }
}

/// A connection that could not be opened ends the attempt at once, with no
/// write and no disconnect.
pub proof fn law_open_failure_ends_without_disconnect()
    ensures
        notify_step(NotifyPhase::Connecting, NotifyEvent::OpenFailed) == (
            NotifyPhase::Finished { outcome: NotifyOutcome::OpenFailed },
            NotifyAction::Finish { outcome: NotifyOutcome::OpenFailed },
        ),
{
}

/// The request is only ever written on a connection that opened.
pub proof fn law_write_only_when_connected(p: NotifyPhase, e: NotifyEvent)
    requires
        notify_step(p, e).1 == NotifyAction::Write,
    ensures
        (p == NotifyPhase::Connecting && e == NotifyEvent::Opened) || p == NotifyPhase::Sending,
{
}

/// Reading the response stops once more than `RESPONSE_BUDGET_MICROS` have
/// passed since it began.
pub proof fn law_response_budget(since: Instant, now: Instant)
    requires
        elapsed_micros(since.micros, now.micros) > RESPONSE_BUDGET_MICROS,
    ensures
        notify_step(NotifyPhase::Draining { since }, NotifyEvent::Received { now }) == (
            NotifyPhase::Closing { outcome: NotifyOutcome::Sent },
            NotifyAction::Disconnect,
        ),
{
}

/// The exchange goes open, write, flush, read: an opened connection is
/// written, a written request flushed, and reading starts after the flush,
/// with the budget counted from then. Reading goes on while the budget
/// lasts and the server sends data; the end of the response disconnects,
/// and the disconnect finishes with the outcome decided before it.
pub proof fn law_exchange_order(since: Instant, now: Instant, outcome: NotifyOutcome)
    ensures
        notify_step(NotifyPhase::Connecting, NotifyEvent::Opened).1 == NotifyAction::Write,
        notify_step(NotifyPhase::Sending, NotifyEvent::Written).1 == NotifyAction::Flush,
        notify_step(NotifyPhase::Flushing, NotifyEvent::Flushed { now }) == (
            NotifyPhase::Draining { since: now },
            NotifyAction::Read,
        ),
        elapsed_micros(since.micros, now.micros) <= RESPONSE_BUDGET_MICROS ==> notify_step(
            NotifyPhase::Draining { since },
            NotifyEvent::Received { now },
        ) == (NotifyPhase::Draining { since }, NotifyAction::Read),
        notify_step(NotifyPhase::Draining { since }, NotifyEvent::ReceiveEnded) == (
            NotifyPhase::Closing { outcome: NotifyOutcome::Sent },
            NotifyAction::Disconnect,
        ),
        notify_step(NotifyPhase::Sending, NotifyEvent::WriteFailed).1 == NotifyAction::Disconnect,
        notify_step(NotifyPhase::Closing { outcome }, NotifyEvent::Disconnected) == (
            NotifyPhase::Finished { outcome },
            NotifyAction::Finish { outcome },
        ),
{
}

/// A finished attempt stays finished, whatever is reported.
pub proof fn law_finished_is_final(outcome: NotifyOutcome, events: Seq<NotifyEvent>)
    ensures
        notify_run(NotifyPhase::Finished { outcome }, events) == (NotifyPhase::Finished { outcome }),
    decreases events.len(),
{
    if events.len() > 0 {
        law_finished_is_final(outcome, events.drop_first());
    }
}

/// Every attempt whose connection opened asks for a disconnect before it
/// finishes: from the start, any run of events that ends an attempt in any
/// way but a failed open has asked for `Disconnect`.
pub proof fn law_opened_connection_is_disconnected(events: Seq<NotifyEvent>)
    requires
        notify_run(NotifyPhase::Connecting, events) matches NotifyPhase::Finished { outcome }
            && outcome != NotifyOutcome::OpenFailed,
    ensures
        notify_actions(NotifyPhase::Connecting, events).contains(NotifyAction::Disconnect),
{
    lemma_disconnect_before_finish(NotifyPhase::Connecting, events);
}

proof fn lemma_disconnect_before_finish(p: NotifyPhase, events: Seq<NotifyEvent>)
    requires
        !(p is Closing),
        !(p is Finished),
        notify_run(p, events) matches NotifyPhase::Finished { outcome }
            && outcome != NotifyOutcome::OpenFailed,
    ensures
        notify_actions(p, events).contains(NotifyAction::Disconnect),
    decreases events.len(),
{
    let (p1, a) = notify_step(p, events[0]);
    let acts = notify_actions(p, events);
    assert(acts[0] == a);
    if p1 is Closing {
        assert(a == NotifyAction::Disconnect);
    } else if p1 is Finished {
        law_finished_is_final(p1->Finished_outcome, events.drop_first());
    } else {
        lemma_disconnect_before_finish(p1, events.drop_first());
        let rest = notify_actions(p1, events.drop_first());
        let i = choose|i: int| 0 <= i < rest.len() && rest[i] == NotifyAction::Disconnect;
        assert(acts[i + 1] == rest[i]);
    }
}

} // verus!
