//! What a connection makes of each event.

use crate::error::{AnyFailure, Failure, LoquiError, Outcome};
use crate::frames::{LoquiFrame, Ping, Pong, Push, Request};
use crate::sequence::{issues, Sequencer};
use crate::server::ping::Handle;
use crate::server::sender::ConnectionSender;
use futures::sync::mpsc::UnboundedReceiver;
use futures::sync::oneshot::Sender;
use vstd::prelude::*;

verus! {

/// What a connection is handed.
#[derive(Debug)]
pub enum Event {
    /// A frame came from the peer.
    SocketReceive(LoquiFrame),
    /// The handshake is over: ping every `ping_interval` milliseconds.
    Ready { ping_interval: u32 },
    /// A ping is due.
    Ping,
    /// Send `payload` and let what comes of it be told on `waiter_tx`.
    Request { payload: Vec<u8>, waiter_tx: Sender<Outcome> },
    /// Send `payload`.
    Push { payload: Vec<u8> },
    /// Send the frame.
    SendFrame(LoquiFrame),
}

/// The frame that an event is answered by, if any, or why it failed. A handler may fail for any
/// reason.
pub type HandleEventResult = Result<Option<LoquiFrame>, AnyFailure>;

/// What a connection leaves to whoever uses it.
pub trait EventHandler: Send + Sync + Sized {
    /// `handle_received` may answer `frame` by `answer` and go from `pre` to `post`. An
    /// implementation that says nothing else may do anything.
    open spec fn received(
        pre: Self,
        frame: LoquiFrame,
        post: Self,
        answer: HandleEventResult,
    ) -> bool {
        true
    }

    /// `handle_sent` may go from `pre` to `post`. An implementation that says nothing else may do
    /// anything.
    open spec fn sent(
        pre: Self,
        sequence_id: u32,
        waiter_tx: Sender<Outcome>,
        post: Self,
    ) -> bool {
        true
    }

    /// Takes a frame from the peer that is not the connection's own business.
    fn handle_received(&mut self, frame: LoquiFrame) -> (answer: HandleEventResult)
        ensures
            Self::received(*old(self), frame, *final(self), answer),
    ;

    /// Learns that a request goes out under the id `sequence_id`, and on which channel what comes
    /// of it is awaited.
    fn handle_sent(&mut self, sequence_id: u32, waiter_tx: Sender<Outcome>)
        ensures
            Self::sent(*old(self), sequence_id, waiter_tx, *final(self)),
    ;
}

/// The state of a running connection.
pub struct Inner<H: EventHandler> {
    pub ping_handle: Handle,
    /// Whether the last ping has been answered.
    pub pong_received: bool,
    pub event_handler: H,
}

/// What there is to do after a connection's events have been asked for the next item.
#[derive(Debug)]
pub enum Step<E> {
    /// Write the frame to the peer.
    Send(LoquiFrame),
    /// Wait for the next item.
    Wait,
    /// Report the failure of an event, and go on.
    EventFailed(AnyFailure),
    /// Report the failure of the source of events, and go on.
    SourceFailed(E),
    /// Give up: there are no more events.
    End,
}

impl<E> Step<E> {
    /// The step that follows from what an event was answered by.
    pub open spec fn after(answer: HandleEventResult) -> Self {
        match answer {
            Ok(Some(frame)) => Step::Send(frame),
            Ok(None) => Step::Wait,
            Err(e) => Step::EventFailed(e),
        }
    }
}

impl<H: EventHandler> Inner<H> {
    /// `frame`, which came from the peer, takes the connection from `pre` to `post` and is answered
    /// by `answer`.
    pub open spec fn receives(
        pre: Self,
        frame: LoquiFrame,
        post: Self,
        answer: HandleEventResult,
    ) -> bool {
        match frame {
            LoquiFrame::Ping(ping) => {
                &&& post == pre
                &&& answer == Ok::<Option<LoquiFrame>, AnyFailure>(
                    Some(
                        LoquiFrame::Pong(
                            Pong { flags: ping.flags, sequence_id: ping.sequence_id },
                        ),
                    ),
                )
            },
            LoquiFrame::Pong(_) => {
                &&& post == (Inner { pong_received: true, ..pre })
                &&& answer == Ok::<Option<LoquiFrame>, AnyFailure>(None)
            },
            LoquiFrame::GoAway(_) => {
                &&& post == pre
                &&& answer == Err::<Option<LoquiFrame>, AnyFailure>(
                    Failure::Loqui(LoquiError::GoAway),
                )
            },
            frame => {
                &&& post == (Inner { event_handler: post.event_handler, ..pre })
                &&& H::received(pre.event_handler, frame, post.event_handler, answer)
            },
        }
    }

    /// `event`, under the id `sequence_id`, takes the connection from `pre` to `post` and is
    /// answered by `answer`.
    pub open spec fn handles(
        pre: Self,
        event: Event,
        sequence_id: u32,
        post: Self,
        answer: HandleEventResult,
    ) -> bool {
        match event {
            Event::Ready { ping_interval } => {
                &&& post == (Inner { ping_handle: Handle { interval: Some(ping_interval) }, ..pre })
                &&& answer == Ok::<Option<LoquiFrame>, AnyFailure>(None)
            },
            Event::Ping => if pre.pong_received {
                &&& post == (Inner { pong_received: false, ..pre })
                &&& answer == Ok::<Option<LoquiFrame>, AnyFailure>(
                    Some(LoquiFrame::Ping(Ping { sequence_id, flags: 0 })),
                )
            } else {
                &&& post == pre
                &&& answer == Err::<Option<LoquiFrame>, AnyFailure>(
                    Failure::Loqui(LoquiError::PingTimeout),
                )
            },
            Event::SocketReceive(frame) => Self::receives(pre, frame, post, answer),
            Event::Request { payload, waiter_tx } => {
                &&& post == (Inner { event_handler: post.event_handler, ..pre })
                &&& H::sent(pre.event_handler, sequence_id, waiter_tx, post.event_handler)
                &&& answer == Ok::<Option<LoquiFrame>, AnyFailure>(
                    Some(LoquiFrame::Request(Request { payload, sequence_id, flags: 0 })),
                )
            },
            Event::Push { payload } => {
                &&& post == pre
                &&& answer == Ok::<Option<LoquiFrame>, AnyFailure>(
                    Some(LoquiFrame::Push(Push { payload, flags: 0 })),
                )
            },
            Event::SendFrame(frame) => {
                &&& post == pre
                &&& answer == Ok::<Option<LoquiFrame>, AnyFailure>(Some(frame))
            },
        }
    }

    /// `item`, or that there is none, takes the connection from `pre` to `post`, its ids from
    /// `next` to `next_after`, and leaves `step` to do.
    pub open spec fn takes<E>(
        pre: Self,
        next: nat,
        item: Option<Result<Event, E>>,
        post: Self,
        next_after: nat,
        step: Step<E>,
    ) -> bool {
        match item {
            Some(Ok(event)) => exists|id: u32, answer: HandleEventResult|
                {
                    &&& #[trigger] issues(next, id, next_after)
                    &&& #[trigger] Self::handles(pre, event, id, post, answer)
                    &&& step == Step::<E>::after(answer)
                },
            Some(Err(e)) => post == pre && next_after == next && step == Step::<E>::SourceFailed(
                e,
            ),
            None => post == pre && next_after == next && step == Step::<E>::End,
        }
    }

    /// A connection that has not pinged yet.
    pub fn new(event_handler: H) -> (r: Self)
        ensures
            r.ping_handle.interval == None::<u32>,
            r.pong_received,
            r.event_handler == event_handler,
    {
        Inner { ping_handle: Handle::new(), pong_received: true, event_handler }
    }

    /// Takes an event under the id `sequence_id`, and says which frame answers it, if any.
    pub fn handle_event(&mut self, event: Event, sequence_id: u32) -> (answer: HandleEventResult)
        ensures
            Self::handles(*old(self), event, sequence_id, *final(self), answer),
    {
        match event {
            Event::Ready { ping_interval } => {
                self.ping_handle.start(ping_interval);
                Ok(None)
            },
            Event::Ping => {
                if self.pong_received {
                    let frame = LoquiFrame::Ping(Ping { sequence_id, flags: 0 });
                    self.pong_received = false;
                    Ok(Some(frame))
                } else {
                    Err(Failure::Loqui(LoquiError::PingTimeout))
                }
            },
            Event::SocketReceive(frame) => {
                match frame {
                    LoquiFrame::Ping(ping) => {
                        let pong = Pong { flags: ping.flags, sequence_id: ping.sequence_id };
                        Ok(Some(LoquiFrame::Pong(pong)))
                    },
                    LoquiFrame::Pong(_pong) => {
                        self.pong_received = true;
                        Ok(None)
                    },
                    LoquiFrame::GoAway(_go_away) => Err(Failure::Loqui(LoquiError::GoAway)),
                    frame => self.event_handler.handle_received(frame),
                }
            },
            Event::Request { payload, waiter_tx } => {
                let frame = LoquiFrame::Request(Request { payload, sequence_id, flags: 0 });
                self.event_handler.handle_sent(sequence_id, waiter_tx);
                Ok(Some(frame))
            },
            Event::Push { payload } => {
                let frame = LoquiFrame::Push(Push { payload, flags: 0 });
                Ok(Some(frame))
            },
            Event::SendFrame(frame) => Ok(Some(frame)),
        }
    }

    /// Takes the next item of the connection's events, if there is one, and says what there is to
    /// do. Every event uses up an id of `sequencer`; a failure of the source uses up none.
    pub fn handle_item<E>(
        &mut self,
        sequencer: &mut Sequencer,
        item: Option<Result<Event, E>>,
    ) -> (step: Step<E>)
        requires
            item matches Some(Ok(_)) ==> old(sequencer)@ < u32::MAX,
        ensures
            Self::takes(
                *old(self),
                old(sequencer)@,
                item,
                *final(self),
                final(sequencer)@,
                step,
            ),
    {
        match item {
            Some(Ok(event)) => {
                let sequence_id: u32 = sequencer.next();
                match self.handle_event(event, sequence_id) {
                    Ok(Some(frame)) => Step::Send(frame),
                    Ok(None) => Step::Wait,
                    Err(e) => Step::EventFailed(e),
                }
            },
            Some(Err(e)) => Step::SourceFailed(e),
            None => Step::End,
        }
    }
}

/// A connection that is about to run on the stream `S`: what reaches it from its senders, and the
/// ids for what it sends.
pub struct Connection<S> {
    pub tcp_stream: S,
    pub self_rx: UnboundedReceiver<Event>,
    pub self_sender: ConnectionSender,
    pub sequencer: Sequencer,
}

impl<S> Connection<S> {
    /// A connection on `tcp_stream`, and a sender that reaches it.
    pub fn new(tcp_stream: S) -> (r: (ConnectionSender, Self))
        ensures
            r.0.reaches(r.1.self_rx),
            forall|rx: UnboundedReceiver<Event>| #[trigger]
                r.0.reaches(rx) ==> rx == r.1.self_rx,
            r.1.tcp_stream == tcp_stream,
            r.1.self_sender.reaches(r.1.self_rx),
            forall|rx: UnboundedReceiver<Event>| #[trigger]
                r.1.self_sender.reaches(rx) ==> rx == r.1.self_rx,
            r.1.sequencer@ == 1,
    {
        let (self_sender, self_rx) = ConnectionSender::new();
        (
            self_sender.clone(),
            Self { tcp_stream, self_rx, self_sender, sequencer: Sequencer::new() },
        )
    }
}

} // verus!
