use laundry_monitor::notify::{
    build_ntfy_request, NotifyAction, NotifyEvent, NotifyOutcome, NotifyPhase, NotifySession,
    RequestTooLong, NOTIFY_BODY, REQUEST_CAPACITY,
};
use laundry_monitor::time::Instant;

fn expected(topic: &str, host: [u8; 4], port: u16) -> String {
    let body = "Laundry cycle complete!";
    format!(
        "POST /{} HTTP/1.0\r\nHost: {}.{}.{}.{}:{}\r\nContent-Type: text/plain\r\nTitle: Laundry Done\r\nContent-Length: {}\r\n\r\n{}",
        topic,
        host[0],
        host[1],
        host[2],
        host[3],
        port,
        body.len(),
        body
    )
}

#[test]
fn request_for_washer() {
    let req = build_ntfy_request("washer", [192, 168, 1, 100], 80).unwrap();
    assert_eq!(
        req.as_str(),
        "POST /washer HTTP/1.0\r\nHost: 192.168.1.100:80\r\nContent-Type: text/plain\r\nTitle: Laundry Done\r\nContent-Length: 23\r\n\r\nLaundry cycle complete!"
    );
}

#[test]
fn request_matches_formatted_text() {
    for (topic, host, port) in [
        ("dryer", [10, 0, 0, 1], 8080u16),
        ("", [0, 0, 0, 0], 0),
        ("wäsche", [255, 255, 255, 255], 65535),
        ("a/b", [1, 22, 133, 4], 443),
    ] {
        let req = build_ntfy_request(topic, host, port).unwrap();
        assert_eq!(req.as_bytes(), expected(topic, host, port).as_bytes());
    }
}

#[test]
fn body_is_the_completion_message() {
    assert_eq!(NOTIFY_BODY, "Laundry cycle complete!");
    assert_eq!(REQUEST_CAPACITY, 512);
}

#[test]
fn request_fits_up_to_capacity() {
    let host = [192, 168, 1, 100];
    let base = expected("", host, 80).len();
    let fits = "t".repeat(REQUEST_CAPACITY - base);
    let req = build_ntfy_request(&fits, host, 80).unwrap();
    assert_eq!(req.len(), REQUEST_CAPACITY);
    let too_long = "t".repeat(REQUEST_CAPACITY - base + 1);
    assert_eq!(build_ntfy_request(&too_long, host, 80), Err(RequestTooLong));
}

#[test]
fn request_too_long_for_a_huge_topic() {
    let topic = "x".repeat(600);
    assert_eq!(build_ntfy_request(&topic, [1, 2, 3, 4], 1), Err(RequestTooLong));
}

fn at(micros: u64) -> Instant {
    Instant::from_micros(micros)
}

#[test]
fn successful_exchange() {
    let (mut s, a) = NotifySession::start();
    assert_eq!(a, NotifyAction::Open);
    assert_eq!(s.phase(), NotifyPhase::Connecting);
    assert_eq!(s.step(NotifyEvent::Opened), NotifyAction::Write);
    assert_eq!(s.step(NotifyEvent::Written), NotifyAction::Flush);
    assert_eq!(s.step(NotifyEvent::Flushed { now: at(1_000) }), NotifyAction::Read);
    assert_eq!(s.phase(), NotifyPhase::Draining { since: at(1_000) });
    assert_eq!(s.step(NotifyEvent::Received { now: at(2_000) }), NotifyAction::Read);
    assert_eq!(s.step(NotifyEvent::ReceiveEnded), NotifyAction::Disconnect);
    assert_eq!(
        s.step(NotifyEvent::Disconnected),
        NotifyAction::Finish { outcome: NotifyOutcome::Sent }
    );
    assert_eq!(s.phase(), NotifyPhase::Finished { outcome: NotifyOutcome::Sent });
}

#[test]
fn open_failure_finishes_without_disconnect() {
    let (mut s, _) = NotifySession::start();
    assert_eq!(
        s.step(NotifyEvent::OpenFailed),
        NotifyAction::Finish { outcome: NotifyOutcome::OpenFailed }
    );
    assert_eq!(
        s.step(NotifyEvent::Disconnected),
        NotifyAction::Finish { outcome: NotifyOutcome::OpenFailed }
    );
}

#[test]
fn write_failure_disconnects_then_finishes() {
    let (mut s, _) = NotifySession::start();
    s.step(NotifyEvent::Opened);
    assert_eq!(s.step(NotifyEvent::WriteFailed), NotifyAction::Disconnect);
    assert_eq!(
        s.step(NotifyEvent::Disconnected),
        NotifyAction::Finish { outcome: NotifyOutcome::WriteFailed }
    );
}

#[test]
fn response_drain_stops_after_five_seconds() {
    let (mut s, _) = NotifySession::start();
    s.step(NotifyEvent::Opened);
    s.step(NotifyEvent::Written);
    s.step(NotifyEvent::Flushed { now: at(10_000_000) });
    assert_eq!(s.step(NotifyEvent::Received { now: at(15_000_000) }), NotifyAction::Read);
    assert_eq!(
        s.step(NotifyEvent::Received { now: at(15_000_001) }),
        NotifyAction::Disconnect
    );
    assert_eq!(s.phase(), NotifyPhase::Closing { outcome: NotifyOutcome::Sent });
}

#[test]
fn unexpected_event_repeats_the_pending_action() {
    let (mut s, _) = NotifySession::start();
    assert_eq!(s.step(NotifyEvent::Written), NotifyAction::Open);
    s.step(NotifyEvent::Opened);
    assert_eq!(s.step(NotifyEvent::ReceiveEnded), NotifyAction::Write);
    assert_eq!(s.phase(), NotifyPhase::Sending);
}
