use bytesize::ByteSize;
use futures::sync::oneshot::Receiver;
use futures::Future;
use loqui::client::config::Config;
use loqui::client::connection_handler::{ConnectionHandler, InternalEvent};
use loqui::error::{Failure, LoquiError, Outcome};
use loqui::frames::{DelegatedFrame, ErrorFrame, LoquiFrame, Push, Request, Response};
use loqui::sequence::IdSequence;
use loqui::waiter::ResponseWaiter;
use std::time::{Duration, Instant};
use tokio::prelude::FutureExt;
use tokio::runtime::current_thread::block_on_all;

const ENCODING: &str = "identity";

fn make_handler() -> ConnectionHandler {
    let config = Config {
        max_payload_size: ByteSize::b(5000),
        request_timeout: Duration::from_secs(5),
        handshake_timeout: Duration::from_secs(10),
        supported_encodings: &[ENCODING],
    };

    ConnectionHandler::new(config)
}

fn wait_for(timeout: Duration) -> (ResponseWaiter, Receiver<Outcome>) {
    ResponseWaiter::new(Instant::now() + timeout)
}

/// What arrived, as far as it is the payload of a response or a failure that the protocol knows.
fn outcome(rx: Receiver<Outcome>) -> Result<Vec<u8>, LoquiError> {
    match rx.wait().unwrap() {
        Ok(payload) => Ok(payload),
        Err(Failure::Loqui(e)) => Err(e),
        Err(Failure::Other(e)) => panic!("unexpected failure: {:?}", e),
    }
}

/// Makes a request with an empty payload, and returns its id and where its outcome arrives.
fn request(
    handler: &mut ConnectionHandler,
    id_sequence: &mut IdSequence,
) -> (u32, Receiver<Outcome>) {
    let (waiter, awaitable) = wait_for(Duration::from_secs(5));
    let event = InternalEvent::Request {
        payload: vec![],
        waiter,
    };
    match handler.handle_internal_event(event, id_sequence) {
        Some(LoquiFrame::Request(request)) => (request.sequence_id, awaitable),
        other => panic!("request not returned: {:?}", other),
    }
}

fn respond(handler: &mut ConnectionHandler, sequence_id: u32, payload: &[u8]) {
    let response = Response {
        sequence_id,
        flags: 0,
        payload: payload.to_vec(),
    };
    let frame = handler.handle_frame(DelegatedFrame::Response(response), ENCODING);
    assert!(frame.is_none());
}

fn refuse(handler: &mut ConnectionHandler, sequence_id: u32, payload: &[u8]) {
    let error = ErrorFrame {
        sequence_id,
        flags: 0,
        code: 1,
        payload: payload.to_vec(),
    };
    let frame = handler.handle_frame(DelegatedFrame::Error(error), ENCODING);
    assert!(frame.is_none());
}

#[test]
fn it_handles_request_response() {
    let mut handler = make_handler();
    let mut id_sequence = IdSequence::default();
    let (waiter, awaitable) = wait_for(Duration::from_secs(5));
    let payload = b"hello".to_vec();
    let request = handler
        .handle_internal_event(
            InternalEvent::Request {
                payload: payload.clone(),
                waiter,
            },
            &mut id_sequence,
        )
        .expect("no request");
    match request {
        LoquiFrame::Request(request) => {
            let response = Response {
                sequence_id: request.sequence_id,
                flags: 0,
                payload: payload.clone(),
            };
            let frame = handler.handle_frame(DelegatedFrame::Response(response), ENCODING);
            assert!(frame.is_none())
        }
        _other => panic!("request not returned"),
    }
    let result = block_on_all(awaitable).unwrap().unwrap();
    assert_eq!(result, payload)
}

#[test]
fn it_handles_request_response_diff_sequence_id() {
    let mut handler = make_handler();
    let mut id_sequence = IdSequence::default();
    let (waiter, awaitable) = wait_for(Duration::from_secs(1));
    let _request = handler
        .handle_internal_event(
            InternalEvent::Request {
                payload: vec![],
                waiter,
            },
            &mut id_sequence,
        )
        .expect("no request");
    let response = Response {
        sequence_id: id_sequence.next(),
        flags: 0,
        payload: vec![],
    };
    let _frame = handler.handle_frame(DelegatedFrame::Response(response), ENCODING);
    let result = block_on_all(awaitable.timeout(Duration::from_secs(1)));
    assert!(result.is_err())
}

#[test]
fn it_sends_requests_under_ids_that_count_up_from_one() {
    let mut handler = make_handler();
    let mut id_sequence = IdSequence::default();
    let (first, _first_rx) = request(&mut handler, &mut id_sequence);
    let (second, _second_rx) = request(&mut handler, &mut id_sequence);
    let (third, _third_rx) = request(&mut handler, &mut id_sequence);
    assert_eq!((first, second, third), (1, 2, 3));
}

#[test]
fn it_sends_the_payload_of_a_request() {
    let mut handler = make_handler();
    let mut id_sequence = IdSequence::default();
    let (waiter, _awaitable) = wait_for(Duration::from_secs(5));
    let event = InternalEvent::Request {
        payload: b"question".to_vec(),
        waiter,
    };
    assert_eq!(
        handler.handle_internal_event(event, &mut id_sequence),
        Some(LoquiFrame::Request(Request {
            payload: b"question".to_vec(),
            sequence_id: 1,
            flags: 0,
        }))
    );
}

#[test]
fn it_sends_a_push_without_an_id() {
    let mut handler = make_handler();
    let mut id_sequence = IdSequence::default();
    let event = InternalEvent::Push {
        payload: b"news".to_vec(),
    };
    assert_eq!(
        handler.handle_internal_event(event, &mut id_sequence),
        Some(LoquiFrame::Push(Push {
            payload: b"news".to_vec(),
            flags: 0,
        }))
    );
    assert_eq!(id_sequence.next(), 1);
}

#[test]
fn it_answers_each_request_by_its_own_response() {
    let mut handler = make_handler();
    let mut id_sequence = IdSequence::default();
    let (first, first_rx) = request(&mut handler, &mut id_sequence);
    let (second, second_rx) = request(&mut handler, &mut id_sequence);
    respond(&mut handler, second, b"two");
    respond(&mut handler, first, b"one");
    assert_eq!(outcome(first_rx), Ok(b"one".to_vec()));
    assert_eq!(outcome(second_rx), Ok(b"two".to_vec()));
}

#[test]
fn it_answers_a_request_once() {
    let mut handler = make_handler();
    let mut id_sequence = IdSequence::default();
    let (id, rx) = request(&mut handler, &mut id_sequence);
    respond(&mut handler, id, b"first");
    respond(&mut handler, id, b"second");
    refuse(&mut handler, id, b"third");
    assert_eq!(outcome(rx), Ok(b"first".to_vec()));
}

#[test]
fn it_ignores_answers_to_nobody() {
    let mut handler = make_handler();
    let mut id_sequence = IdSequence::default();
    respond(&mut handler, 17, b"stray");
    refuse(&mut handler, 17, b"stray");
    let (id, rx) = request(&mut handler, &mut id_sequence);
    respond(&mut handler, id, b"mine");
    assert_eq!(outcome(rx), Ok(b"mine".to_vec()));
}

#[test]
fn it_hands_on_the_reason_of_an_error() {
    let mut handler = make_handler();
    let mut id_sequence = IdSequence::default();
    let (id, rx) = request(&mut handler, &mut id_sequence);
    refuse(&mut handler, id, "kein Schl\u{fc}ssel".as_bytes());
    assert_eq!(
        outcome(rx),
        Err(LoquiError::Remote {
            reason: "kein Schl\u{fc}ssel".to_string()
        })
    );
}

#[test]
fn it_reports_a_reason_that_is_not_text() {
    let mut handler = make_handler();
    let mut id_sequence = IdSequence::default();
    let (id, rx) = request(&mut handler, &mut id_sequence);
    refuse(&mut handler, id, &[b'a', 0xff]);
    match outcome(rx) {
        Err(LoquiError::InvalidReason { error }) => {
            assert_eq!(error.utf8_error().valid_up_to(), 1);
            assert_eq!(error.into_bytes(), vec![b'a', 0xff]);
        }
        other => panic!("unexpected outcome: {:?}", other),
    }
}

#[test]
fn it_does_not_send_a_request_whose_deadline_has_come() {
    let mut handler = make_handler();
    let mut id_sequence = IdSequence::default();
    let (waiter, awaitable) = ResponseWaiter::new(Instant::now());
    let event = InternalEvent::Request {
        payload: vec![1, 2, 3],
        waiter,
    };
    assert_eq!(handler.handle_internal_event(event, &mut id_sequence), None);
    assert_eq!(
        outcome(awaitable),
        Err(LoquiError::RequestTimeout)
    );
    // The id is used up all the same.
    assert_eq!(id_sequence.next(), 2);
}

#[test]
fn it_compares_the_deadline_with_the_given_instant() {
    let mut handler = make_handler();
    let deadline = Instant::now();
    let (waiter, on_time) = ResponseWaiter::new(deadline);
    let before = deadline - Duration::from_nanos(1);
    assert!(handler.send_request_at(vec![], 1, waiter, before).is_some());
    let (waiter, too_late) = ResponseWaiter::new(deadline);
    assert!(handler.send_request_at(vec![], 2, waiter, deadline).is_none());
    respond(&mut handler, 1, b"in time");
    assert_eq!(outcome(on_time), Ok(b"in time".to_vec()));
    assert_eq!(outcome(too_late), Err(LoquiError::RequestTimeout));
}

#[test]
fn it_sweeps_the_dead_alone() {
    let mut handler = make_handler();
    let start = Instant::now();
    let (short, short_rx) = ResponseWaiter::new(start + Duration::from_secs(1));
    let (long, long_rx) = ResponseWaiter::new(start + Duration::from_secs(100));
    assert!(handler.send_request_at(vec![], 1, short, start).is_some());
    assert!(handler.send_request_at(vec![], 2, long, start).is_some());
    handler.sweep(start + Duration::from_secs(1));
    handler.sweep(start + Duration::from_secs(1));
    respond(&mut handler, 1, b"too late");
    respond(&mut handler, 2, b"in time");
    assert!(short_rx.wait().is_err());
    assert_eq!(outcome(long_rx), Ok(b"in time".to_vec()));
}

#[test]
fn it_sweeps_when_a_ping_comes() {
    let mut handler = make_handler();
    let start = Instant::now();
    let (dead, dead_rx) = ResponseWaiter::new(start);
    let (live, live_rx) = ResponseWaiter::new(start + Duration::from_secs(100));
    let before = start - Duration::from_secs(1);
    assert!(handler.send_request_at(vec![], 1, dead, before).is_some());
    assert!(handler.send_request_at(vec![], 2, live, before).is_some());
    handler.on_ping_received();
    assert!(dead_rx.wait().is_err());
    respond(&mut handler, 2, b"still here");
    assert_eq!(outcome(live_rx), Ok(b"still here".to_vec()));
}

#[test]
fn it_turns_requests_and_pushes_down() {
    let mut handler = make_handler();
    let refusal = || {
        Some(Err((
            LoquiError::InvalidOpcode {
                actual: Request::OPCODE,
                expected: None,
            },
            0,
        )))
    };
    let request = Request {
        payload: vec![],
        sequence_id: 8,
        flags: 0,
    };
    let push = Push {
        payload: vec![],
        flags: 0,
    };
    assert_eq!(
        handler.handle_frame(DelegatedFrame::Request(request), ENCODING),
        refusal()
    );
    assert_eq!(
        handler.handle_frame(DelegatedFrame::Push(push), ENCODING),
        refusal()
    );
}

#[test]
fn it_keeps_its_settings() {
    assert_eq!(make_handler().max_payload_size(), ByteSize::b(5000));
    assert!(!ConnectionHandler::SEND_GO_AWAY);
}

#[test]
fn it_gives_up_a_waiter_whose_id_is_taken() {
    let mut handler = make_handler();
    let now = Instant::now();
    let (first, first_rx) = ResponseWaiter::new(now + Duration::from_secs(100));
    let (second, second_rx) = ResponseWaiter::new(now + Duration::from_secs(100));
    assert!(handler.send_request_at(vec![], 1, first, now).is_some());
    assert!(handler.send_request_at(vec![], 1, second, now).is_some());
    assert!(first_rx.wait().is_err());
    respond(&mut handler, 1, b"second");
    assert_eq!(outcome(second_rx), Ok(b"second".to_vec()));
}

#[test]
fn it_knows_who_is_waited_for() {
    let mut handler = make_handler();
    let mut id_sequence = IdSequence::default();
    assert!(!handler.is_waiting(1));
    let (id, _rx) = request(&mut handler, &mut id_sequence);
    assert!(handler.is_waiting(id));
    assert!(!handler.is_waiting(id + 1));
    respond(&mut handler, id, b"done");
    assert!(!handler.is_waiting(id));
}

#[test]
fn it_forgets_a_waiter_without_a_word() {
    let (waiter, rx) = wait_for(Duration::from_secs(5));
    waiter.forget();
    assert!(rx.wait().is_err());
}

#[test]
fn it_hands_the_parts_of_an_event_on() {
    let mut handler = make_handler();
    assert_eq!(
        handler.send_push(b"news".to_vec()),
        Some(LoquiFrame::Push(Push {
            payload: b"news".to_vec(),
            flags: 0,
        }))
    );
    let (waiter, rx) = wait_for(Duration::from_secs(5));
    assert!(handler.send_request(vec![], 40, waiter).is_some());
    handler.handle_response(Response {
        sequence_id: 40,
        flags: 0,
        payload: b"answer".to_vec(),
    });
    assert_eq!(outcome(rx), Ok(b"answer".to_vec()));
    let (waiter, rx) = wait_for(Duration::from_secs(5));
    assert!(handler.send_request(vec![], 41, waiter).is_some());
    handler.handle_error(ErrorFrame {
        sequence_id: 41,
        flags: 0,
        code: 2,
        payload: b"no".to_vec(),
    });
    assert_eq!(
        outcome(rx),
        Err(LoquiError::Remote {
            reason: "no".to_string()
        })
    );
}
