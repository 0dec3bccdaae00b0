use pollcore::coroutine::{Coroutine, PollError};
use pollcore::future::{Future, IoAction, IoEvent, PollState};
use pollcore::http::{get_req, Http};

const REQUEST: &str = "GET /400/helloworld HTTP/1.1\r\nHost: localhost\r\nConnection: close\r\n\r\n";

#[test]
fn request_message_exact() {
    assert_eq!(get_req("/400/helloworld"), REQUEST);
    assert_eq!(
        get_req("/index"),
        "GET /index HTTP/1.1\r\nHost: localhost\r\nConnection: close\r\n\r\n"
    );
}

#[test]
fn leaf_first_poll_connects_and_yields() {
    let mut fut = Http::new("/index");
    let (out, act) = fut.poll(IoEvent::Wake);
    assert!(matches!(out, PollState::NotReady));
    match act {
        IoAction::Send(req) => assert_eq!(
            req,
            "GET /index HTTP/1.1\r\nHost: localhost\r\nConnection: close\r\n\r\n"
        ),
        _ => panic!("first poll must ask for the request to be sent"),
    }
}

#[test]
fn task_first_poll_issues_request_and_yields() {
    let mut task = Coroutine::new();
    let (out, act) = task.poll(IoEvent::Wake);
    assert!(matches!(out, PollState::NotReady));
    match act {
        IoAction::Send(req) => assert_eq!(req, REQUEST),
        _ => panic!("first poll must ask for the request to be sent"),
    }
}

#[test]
fn ok_then_close_resolves_to_ok() {
    let mut task = Coroutine::new();
    let _ = task.poll(IoEvent::Wake);
    let (out, act) = task.poll(IoEvent::Data(b"OK".to_vec()));
    assert!(matches!(out, PollState::NotReady));
    assert!(matches!(act, IoAction::Read));
    let (out, act) = task.poll(IoEvent::Eof);
    match out {
        PollState::Ready(text) => assert_eq!(text, "OK"),
        PollState::NotReady => panic!("end of stream must resolve the task"),
    }
    assert!(matches!(act, IoAction::Idle));
}

#[test]
fn chunked_reply_reassembles_in_arrival_order() {
    let mut task = Coroutine::new();
    let _ = task.poll(IoEvent::Wake);
    let _ = task.poll(IoEvent::Data(b"He".to_vec()));
    let _ = task.poll(IoEvent::Data(b"llo".to_vec()));
    let (out, _) = task.poll(IoEvent::Eof);
    match out {
        PollState::Ready(text) => assert_eq!(text, "Hello"),
        PollState::NotReady => panic!("end of stream must resolve the task"),
    }
}

#[test]
fn empty_reply_resolves_to_empty_text() {
    let mut task = Coroutine::new();
    let _ = task.poll(IoEvent::Wake);
    let (out, _) = task.poll(IoEvent::Eof);
    match out {
        PollState::Ready(text) => assert_eq!(text, ""),
        PollState::NotReady => panic!("end of stream must resolve the task"),
    }
}

#[test]
fn interruption_is_retried_without_yield() {
    let mut fut = Http::new("/index");
    let _ = fut.poll(IoEvent::Wake);
    let _ = fut.poll(IoEvent::Data(b"a".to_vec()));
    let (out, act) = fut.poll(IoEvent::Interrupted);
    assert!(matches!(out, PollState::NotReady));
    assert!(matches!(act, IoAction::Read));
    let _ = fut.poll(IoEvent::Data(b"b".to_vec()));
    let (out, _) = fut.poll(IoEvent::Eof);
    match out {
        PollState::Ready(text) => assert_eq!(text, "ab"),
        PollState::NotReady => panic!("end of stream must resolve the future"),
    }
}

#[test]
fn would_block_yields_and_keeps_progress() {
    let mut fut = Http::new("/index");
    let _ = fut.poll(IoEvent::Wake);
    let _ = fut.poll(IoEvent::Data(b"x".to_vec()));
    let (out, act) = fut.poll(IoEvent::WouldBlock);
    assert!(matches!(out, PollState::NotReady));
    assert!(matches!(act, IoAction::Idle));
    let (out, _) = fut.poll(IoEvent::Eof);
    match out {
        PollState::Ready(text) => assert_eq!(text, "x"),
        PollState::NotReady => panic!("end of stream must resolve the future"),
    }
}

#[test]
fn fatal_read_error_aborts_and_resolves() {
    let mut task = Coroutine::new();
    let _ = task.poll(IoEvent::Wake);
    let (out, act) = task.poll(IoEvent::Failed);
    assert!(matches!(out, PollState::NotReady));
    assert!(matches!(act, IoAction::Abort));
    let after = task.poll_checked(IoEvent::WouldBlock);
    assert!(matches!(after, Err(PollError::AlreadyResolved)));
}

#[test]
fn poll_after_ready_is_a_typed_error() {
    let mut task = Coroutine::new();
    let first = task.poll_checked(IoEvent::Wake);
    assert!(matches!(first, Ok((PollState::NotReady, IoAction::Send(_)))));
    let second = task.poll_checked(IoEvent::Eof);
    match second {
        Ok((PollState::Ready(text), _)) => assert_eq!(text, ""),
        _ => panic!("end of stream must resolve the task"),
    }
    let third = task.poll_checked(IoEvent::WouldBlock);
    assert!(matches!(third, Err(PollError::AlreadyResolved)));
    let fourth = task.poll_checked(IoEvent::Eof);
    assert!(matches!(fourth, Err(PollError::AlreadyResolved)));
}

#[test]
fn invalid_bytes_decode_by_substitution() {
    let mut fut = Http::new("/index");
    let _ = fut.poll(IoEvent::Wake);
    let _ = fut.poll(IoEvent::Data(vec![0xFF, b'O', b'K']));
    let (out, _) = fut.poll(IoEvent::Eof);
    match out {
        PollState::Ready(text) => assert_eq!(text, "\u{FFFD}OK"),
        PollState::NotReady => panic!("end of stream must resolve the future"),
    }
}
