use futures::sync::oneshot::Sender;
use futures::{Future, Stream};
use loqui::error::{Failure, LoquiError, Outcome};
use loqui::frames::{GoAway, Hello, LoquiFrame, Ping, Pong, Push, Request, Response};
use loqui::sequence::Sequencer;
use loqui::server::connection::{
    Connection, Event, EventHandler, HandleEventResult, Inner, Step,
};
use loqui::server::sender::ConnectionSender;
use loqui::waiter::ResponseWaiter;
use std::time::Instant;

/// Answers every delegated frame by a push, and remembers what it was told.
struct Recorder {
    received: Vec<LoquiFrame>,
    sent: Vec<(u32, Sender<Outcome>)>,
}

impl EventHandler for Recorder {
    fn handle_received(&mut self, frame: LoquiFrame) -> HandleEventResult {
        self.received.push(frame);
        Ok(Some(push(b"received")))
    }

    fn handle_sent(&mut self, sequence_id: u32, waiter_tx: Sender<Outcome>) {
        self.sent.push((sequence_id, waiter_tx));
    }
}

fn inner() -> Inner<Recorder> {
    Inner::new(Recorder {
        received: vec![],
        sent: vec![],
    })
}

/// Handles an event whose failure, if any, is one that the protocol knows.
fn handle(
    inner: &mut Inner<Recorder>,
    event: Event,
    sequence_id: u32,
) -> Result<Option<LoquiFrame>, LoquiError> {
    match inner.handle_event(event, sequence_id) {
        Ok(answer) => Ok(answer),
        Err(Failure::Loqui(e)) => Err(e),
        Err(Failure::Other(e)) => panic!("unexpected failure: {:?}", e),
    }
}

fn push(payload: &[u8]) -> LoquiFrame {
    LoquiFrame::Push(Push {
        payload: payload.to_vec(),
        flags: 0,
    })
}

fn ping(sequence_id: u32) -> LoquiFrame {
    LoquiFrame::Ping(Ping {
        sequence_id,
        flags: 0,
    })
}

fn pong() -> Event {
    Event::SocketReceive(LoquiFrame::Pong(Pong {
        sequence_id: 0,
        flags: 0,
    }))
}

#[test]
fn a_ping_that_is_due_is_sent() {
    let mut inner = inner();
    assert_eq!(handle(&mut inner, Event::Ping, 4), Ok(Some(ping(4))));
    assert!(!inner.pong_received);
}

#[test]
fn an_unanswered_ping_times_out() {
    let mut inner = inner();
    assert_eq!(handle(&mut inner, Event::Ping, 1), Ok(Some(ping(1))));
    assert_eq!(
        handle(&mut inner, Event::Ping, 2),
        Err(LoquiError::PingTimeout)
    );
    assert_eq!(
        handle(&mut inner, Event::Ping, 3),
        Err(LoquiError::PingTimeout)
    );
}

#[test]
fn a_pong_lets_the_next_ping_go() {
    let mut inner = inner();
    assert_eq!(handle(&mut inner, Event::Ping, 1), Ok(Some(ping(1))));
    assert_eq!(handle(&mut inner, pong(), 2), Ok(None));
    assert_eq!(handle(&mut inner, Event::Ping, 3), Ok(Some(ping(3))));
}

#[test]
fn two_pongs_allow_one_ping() {
    let mut inner = inner();
    assert_eq!(handle(&mut inner, pong(), 1), Ok(None));
    assert_eq!(handle(&mut inner, pong(), 2), Ok(None));
    assert_eq!(handle(&mut inner, Event::Ping, 3), Ok(Some(ping(3))));
    assert_eq!(
        handle(&mut inner, Event::Ping, 4),
        Err(LoquiError::PingTimeout)
    );
}

#[test]
fn a_ping_is_answered_by_its_pong() {
    let mut inner = inner();
    let event = Event::SocketReceive(LoquiFrame::Ping(Ping {
        sequence_id: 31,
        flags: 5,
    }));
    assert_eq!(
        handle(&mut inner, event, 9),
        Ok(Some(LoquiFrame::Pong(Pong {
            sequence_id: 31,
            flags: 5,
        })))
    );
    assert!(inner.event_handler.received.is_empty());
}

#[test]
fn a_go_away_fails() {
    let mut inner = inner();
    let event = Event::SocketReceive(LoquiFrame::GoAway(GoAway {
        flags: 0,
        code: 1,
        payload: vec![],
    }));
    assert_eq!(handle(&mut inner, event, 1), Err(LoquiError::GoAway));
}

#[test]
fn other_frames_are_left_to_the_handler() {
    let mut inner = inner();
    let response = || {
        LoquiFrame::Response(Response {
            flags: 0,
            sequence_id: 2,
            payload: b"yes".to_vec(),
        })
    };
    assert_eq!(
        handle(&mut inner, Event::SocketReceive(response()), 1),
        Ok(Some(push(b"received")))
    );
    assert_eq!(inner.event_handler.received, vec![response()]);
}

#[test]
fn ready_starts_the_pinging() {
    let mut inner = inner();
    assert_eq!(inner.ping_handle.interval, None);
    let event = Event::Ready {
        ping_interval: 3000,
    };
    assert_eq!(handle(&mut inner, event, 1), Ok(None));
    assert_eq!(inner.ping_handle.interval, Some(3000));
}

#[test]
fn a_request_is_sent_and_the_handler_learns_its_id() {
    let mut inner = inner();
    let (waiter, waiter_rx) = ResponseWaiter::new(Instant::now());
    let event = Event::Request {
        payload: b"question".to_vec(),
        waiter_tx: waiter.tx,
    };
    assert_eq!(
        handle(&mut inner, event, 12),
        Ok(Some(LoquiFrame::Request(Request {
            payload: b"question".to_vec(),
            sequence_id: 12,
            flags: 0,
        })))
    );
    let (id, waiter_tx) = inner.event_handler.sent.pop().unwrap();
    assert_eq!(id, 12);
    waiter_tx.send(Ok(b"answer".to_vec())).unwrap();
    assert_eq!(waiter_rx.wait().unwrap().unwrap(), b"answer".to_vec());
}

#[test]
fn pushes_and_frames_are_sent() {
    let mut inner = inner();
    let event = Event::Push {
        payload: b"news".to_vec(),
    };
    assert_eq!(handle(&mut inner, event, 1), Ok(Some(push(b"news"))));
    assert_eq!(
        handle(&mut inner, Event::SendFrame(ping(77)), 2),
        Ok(Some(ping(77)))
    );
    // Sending a frame as it is does not count as pinging.
    assert!(inner.pong_received);
}

#[test]
fn every_event_uses_up_an_id() {
    let mut inner = inner();
    let mut sequencer = Sequencer::new();
    let mut take = |item: Option<Result<Event, &'static str>>| {
        inner.handle_item(&mut sequencer, item)
    };
    assert!(matches!(take(Some(Ok(Event::Ping))), Step::Send(frame) if frame == ping(1)));
    assert!(matches!(take(Some(Ok(pong()))), Step::Wait));
    assert!(matches!(
        take(Some(Err("rx error"))),
        Step::SourceFailed("rx error")
    ));
    assert!(matches!(take(Some(Ok(Event::Ping))), Step::Send(frame) if frame == ping(3)));
    assert!(matches!(
        take(Some(Ok(Event::Ping))),
        Step::EventFailed(Failure::Loqui(LoquiError::PingTimeout))
    ));
    assert!(matches!(take(None), Step::End));
    assert_eq!(sequencer.next(), 5);
}

#[test]
fn ids_are_handed_out_in_order() {
    let mut sequencer = Sequencer::new();
    assert!(!sequencer.is_exhausted());
    let ids: Vec<u32> = (0..4).map(|_| sequencer.next()).collect();
    assert_eq!(ids, vec![1, 2, 3, 4]);
}

#[test]
fn a_connection_hears_its_senders() {
    let (sender, connection) = Connection::new("stream");
    assert_eq!(connection.tcp_stream, "stream");
    let mut sequencer = connection.sequencer;
    assert_eq!(sequencer.next(), 1);
    sender.push(b"one".to_vec()).unwrap();
    sender.clone().ready(20).unwrap();
    connection.self_sender.ping().unwrap();
    sender.hello().unwrap();
    sender.frame(ping(6)).unwrap();
    let events: Vec<Event> = connection
        .self_rx
        .take(5)
        .wait()
        .map(|event| event.unwrap())
        .collect();
    assert!(matches!(&events[0], Event::Push { payload } if payload == b"one"));
    assert!(matches!(&events[1], Event::Ready { ping_interval: 20 }));
    assert!(matches!(&events[2], Event::Ping));
    let hello = LoquiFrame::Hello(Hello {
        flags: 0,
        version: 0,
        encodings: vec!["json".to_string()],
        compressions: vec![],
    });
    assert!(matches!(&events[3], Event::SendFrame(frame) if *frame == hello));
    assert!(matches!(&events[4], Event::SendFrame(frame) if *frame == ping(6)));
}

#[test]
fn a_requester_hears_what_came_of_it() {
    let (sender, rx) = ConnectionSender::new();
    let waiter_rx = sender.request(b"question".to_vec()).unwrap();
    match rx.wait().next() {
        Some(Ok(Event::Request { payload, waiter_tx })) => {
            assert_eq!(payload, b"question".to_vec());
            waiter_tx.send(Ok(b"answer".to_vec())).unwrap();
        }
        other => panic!("unexpected event: {:?}", other),
    }
    assert_eq!(waiter_rx.wait().unwrap().unwrap(), b"answer".to_vec());
}

#[test]
fn a_sender_to_nobody_gets_the_event_back() {
    let (sender, rx) = ConnectionSender::new();
    drop(rx);
    let e = sender.push(b"lost".to_vec()).unwrap_err();
    assert!(matches!(e.event, Event::Push { payload } if payload == b"lost"));
    let e = sender.request(b"lost too".to_vec()).unwrap_err();
    assert!(matches!(e.event, Event::Request { payload, .. } if payload == b"lost too"));
}

/// Fails every delegated frame, for a reason of its own.
struct Refuser;

impl EventHandler for Refuser {
    fn handle_received(&mut self, _frame: LoquiFrame) -> HandleEventResult {
        Err(Failure::Other(failure::err_msg("not today")))
    }

    fn handle_sent(&mut self, _sequence_id: u32, waiter_tx: Sender<Outcome>) {
        let reason = Failure::Other(failure::err_msg("no capacity"));
        waiter_tx.send(Err(reason)).unwrap();
    }
}

#[test]
fn a_handler_may_fail_for_any_reason() {
    let mut inner = Inner::new(Refuser);
    match inner.handle_event(Event::SocketReceive(push(b"news")), 1) {
        Err(Failure::Other(e)) => assert_eq!(e.to_string(), "not today"),
        other => panic!("unexpected answer: {:?}", other),
    }
}

#[test]
fn a_requester_may_hear_any_reason() {
    let mut inner = Inner::new(Refuser);
    let (sender, rx) = ConnectionSender::new();
    let waiter_rx = sender.request(vec![]).unwrap();
    let event = rx.wait().next().unwrap().unwrap();
    assert!(inner.handle_event(event, 1).is_ok());
    match waiter_rx.wait().unwrap() {
        Err(Failure::Other(e)) => assert_eq!(e.to_string(), "no capacity"),
        other => panic!("unexpected outcome: {:?}", other),
    }
}

#[test]
fn an_interval_is_taken_once() {
    let mut inner = inner();
    let event = Event::Ready { ping_interval: 50 };
    assert_eq!(handle(&mut inner, event, 1), Ok(None));
    assert_eq!(inner.ping_handle.take(), Some(50));
    assert_eq!(inner.ping_handle.take(), None);
}

#[test]
fn requests_and_pings_carry_the_number_of_their_event() {
    let mut inner = inner();
    let mut sequencer = Sequencer::new();
    let mut ids: Vec<u32> = vec![];
    for n in 0..6 {
        let event = if n % 2 == 0 {
            let (waiter, _rx) = ResponseWaiter::new(Instant::now());
            Event::Request {
                payload: vec![],
                waiter_tx: waiter.tx,
            }
        } else if n == 3 {
            pong()
        } else {
            Event::Ping
        };
        match inner.handle_item::<()>(&mut sequencer, Some(Ok(event))) {
            Step::Send(LoquiFrame::Request(request)) => ids.push(request.sequence_id),
            Step::Send(LoquiFrame::Ping(ping)) => ids.push(ping.sequence_id),
            _ => {}
        }
    }
    assert_eq!(ids, vec![1, 2, 3, 5, 6]);
}
