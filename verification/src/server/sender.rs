//! How the users of a connection reach it.

use crate::error::Outcome;
use crate::frames::{Hello, LoquiFrame};
use crate::server::connection::Event;
use crate::waiter::{answers, let_go, outcome_channel};
use futures::sync::mpsc::{self, UnboundedReceiver, UnboundedSender};
use futures::sync::oneshot::{Receiver, Sender};
use vstd::prelude::*;

verus! {

/// The sending end of an unbounded queue of `futures`.
#[verifier::external_type_specification]
#[verifier::external_body]
#[verifier::reject_recursive_types(T)]
pub struct ExUnboundedSender<T>(UnboundedSender<T>);

/// The receiving end of an unbounded queue of `futures`.
#[verifier::external_type_specification]
#[verifier::external_body]
#[verifier::reject_recursive_types(T)]
pub struct ExUnboundedReceiver<T>(UnboundedReceiver<T>);

/// `rx` is the receiving end of the queue that `tx` sends on.
pub uninterp spec fn feeds(tx: UnboundedSender<Event>, rx: UnboundedReceiver<Event>) -> bool;

/// `futures::sync::mpsc::unbounded`: the two ends belong to one queue, and no other receiving end
/// does, since it cannot be copied.
#[verifier::external_body]
fn event_queue() -> (r: (UnboundedSender<Event>, UnboundedReceiver<Event>))
    ensures
        feeds(r.0, r.1),
        forall|rx: UnboundedReceiver<Event>| #[trigger] feeds(r.0, rx) ==> rx == r.1,
{
    mpsc::unbounded()
}

/// `futures::sync::mpsc::UnboundedSender::clone`: both ends send on the same queue. It panics once
/// a queue has more senders than fit in memory.
#[verifier::external_body]
fn another_end(tx: &UnboundedSender<Event>) -> (r: UnboundedSender<Event>)
    ensures
        forall|rx: UnboundedReceiver<Event>| #[trigger] feeds(r, rx) == feeds(*tx, rx),
{
    tx.clone()
}

/// `futures::sync::mpsc::UnboundedSender::unbounded_send`: what is not taken is handed back
/// unchanged. Whether it is taken depends on whether the receiving end still exists, and is left
/// open. It panics once a queue holds more events than fit in memory, and if an earlier panic has
/// poisoned the queue's lock.
#[verifier::external_body]
fn send_event(tx: &UnboundedSender<Event>, event: Event) -> (r: Result<(), Event>)
    ensures
        r matches Err(back) ==> back == event,
{
    tx.unbounded_send(event).map_err(|e| e.into_inner())
}

/// The connection is gone, and did not get the event.
#[derive(Debug)]
pub struct Disconnected {
    pub event: Event,
}

/// A way to reach a connection.
pub struct ConnectionSender {
    tx: UnboundedSender<Event>,
}

impl Clone for ConnectionSender {
    /// Another way to reach the same connection.
    fn clone(&self) -> (r: Self)
        ensures
            r.shares_queue_with(*self),
    {
        Self { tx: another_end(&self.tx) }
    }
}

/// `hello` is what a connection greets its peer with.
pub open spec fn greets(hello: Hello) -> bool {
    &&& hello.flags == 0
    &&& hello.version == 0
    &&& hello.encodings@.len() == 1
    &&& hello.encodings@[0]@ == "json"@
    &&& hello.compressions@.len() == 0
}

/// The queue whose receiving end is `rx` can have been handed `event` and taken it.
pub open spec fn fed(rx: UnboundedReceiver<Event>, event: Event) -> bool {
    exists|sender: ConnectionSender|
        #![trigger sender.reaches(rx)]
        sender.reaches(rx) && sender.queue_handed(event, true)
}

impl ConnectionSender {
    /// `rx` is the receiving end of the queue that this sender sends on.
    pub closed spec fn reaches(self, rx: UnboundedReceiver<Event>) -> bool {
        feeds(self.tx, rx)
    }

    /// This sender sends on the queue that `other` sends on.
    pub open spec fn shares_queue_with(self, other: Self) -> bool {
        forall|rx: UnboundedReceiver<Event>| #[trigger] self.reaches(rx) == other.reaches(rx)
    }

    /// The connection's queue can have been handed `event`, and taken it or not. This can be
    /// proved only of an event that was handed to the queue; it does not say how often that was,
    /// nor that the queue was handed nothing else.
    pub closed spec fn queue_handed(self, event: Event, taken: bool) -> bool {
        exists|back: Result<(), Event>|
            call_ensures(send_event, (&self.tx, event), back) && taken == (back is Ok)
    }

    /// `r` answers `event`, which was handed to the connection's queue: it was taken, or, if the
    /// connection is gone, is handed back.
    pub open spec fn posted(self, event: Event, r: Result<(), Disconnected>) -> bool {
        &&& self.queue_handed(event, r is Ok)
        &&& r matches Err(e) ==> e.event == event
    }

    /// The queue can have been handed `events` through an outbox, one after the other, and nothing
    /// else through it. This can be proved only of an outbox that was closed on that account.
    pub closed spec fn dispatched(self, events: Seq<Event>) -> bool {
        exists|outbox: Outbox|
            #![trigger outbox.handed()]
            outbox.sender() == self && outbox.handed() == events && outbox.closed()
    }

    /// A sender, and the end of its queue at which events arrive.
    pub fn new() -> (r: (Self, UnboundedReceiver<Event>))
        ensures
            r.0.reaches(r.1),
            forall|rx: UnboundedReceiver<Event>| #[trigger] r.0.reaches(rx) ==> rx == r.1,
    {
        let (tx, rx) = event_queue();
        (Self { tx }, rx)
    }

    fn send(&self, event: Event) -> (r: Result<(), Disconnected>)
        ensures
            self.posted(event, r),
    {
        // Only a call through a function value yields `call_ensures`, which `queue_handed` speaks
        // of.
        let send = send_event;
        match send(&self.tx, event) {
            Ok(()) => Ok(()),
            Err(event) => Err(Disconnected { event }),
        }
    }

    /// Asks the connection to send a request. What comes of it is to be had at the end that is
    /// returned, and at no other.
    pub fn request(&self, payload: Vec<u8>) -> (r: Result<Receiver<Outcome>, Disconnected>)
        ensures
            match r {
                Ok(waiter_rx) => exists|waiter_tx: Sender<Outcome>|
                    {
                        &&& #[trigger] answers(waiter_tx, waiter_rx)
                        &&& forall|rx: Receiver<Outcome>| #[trigger]
                            answers(waiter_tx, rx) ==> rx == waiter_rx
                        &&& self.posted(Event::Request { payload, waiter_tx }, Ok(()))
                        &&& self.dispatched(seq![Event::Request { payload, waiter_tx }])
                    },
                Err(e) => {
                    &&& e.event matches Event::Request { payload: handed_back, .. }
                    &&& handed_back == payload
                    &&& self.posted(e.event, Err(e))
                    &&& self.dispatched(seq![e.event])
                },
            },
    {
        let mut outbox = Outbox::new(self);
        let r = outbox.request(payload);
        outbox.close();
        r
    }

    /// Asks the connection to send a push.
    pub fn push(&self, payload: Vec<u8>) -> (r: Result<(), Disconnected>)
        ensures
            self.posted(Event::Push { payload }, r),
            self.dispatched(seq![Event::Push { payload }]),
    {
        let mut outbox = Outbox::new(self);
        let r = outbox.push(payload);
        outbox.close();
        r
    }

    /// Tells the connection that the handshake is over.
    pub fn ready(&self, ping_interval: u32) -> (r: Result<(), Disconnected>)
        ensures
            self.posted(Event::Ready { ping_interval }, r),
            self.dispatched(seq![Event::Ready { ping_interval }]),
    {
        let mut outbox = Outbox::new(self);
        let r = outbox.ready(ping_interval);
        outbox.close();
        r
    }

    /// Tells the connection that a ping is due.
    pub fn ping(&self) -> (r: Result<(), Disconnected>)
        ensures
            self.posted(Event::Ping, r),
            self.dispatched(seq![Event::Ping]),
    {
        let mut outbox = Outbox::new(self);
        let r = outbox.ping();
        outbox.close();
        r
    }

    /// Asks the connection to greet its peer.
    pub fn hello(&self) -> (r: Result<(), Disconnected>)
        ensures
            exists|hello: Hello|
                {
                    let event = Event::SendFrame(LoquiFrame::Hello(hello));
                    &&& #[trigger] greets(hello)
                    &&& self.posted(event, r)
                    &&& self.dispatched(seq![event])
                },
    {
        let mut outbox = Outbox::new(self);
        let r = outbox.hello();
        outbox.close();
        r
    }

    /// Asks the connection to send a frame.
    pub fn frame(&self, frame: LoquiFrame) -> (r: Result<(), Disconnected>)
        ensures
            self.posted(Event::SendFrame(frame), r),
            self.dispatched(seq![Event::SendFrame(frame)]),
    {
        let mut outbox = Outbox::new(self);
        let r = outbox.frame(frame);
        outbox.close();
        r
    }
}

/// A way from a sender to the connection's queue that keeps account of what goes along it. What a
/// sender is asked to do goes this way. The account knows nothing of what goes to the same queue by
/// another way.
pub struct Outbox<'a> {
    sender: &'a ConnectionSender,
    handed: Ghost<Seq<Event>>,
}

impl<'a> Outbox<'a> {
    /// The sender on whose queue it sends.
    pub closed spec fn sender(self) -> ConnectionSender {
        *self.sender
    }

    /// The events that the queue was handed this way so far, in order, whether it took them or not.
    pub closed spec fn handed(self) -> Seq<Event> {
        self.handed@
    }

    /// The outbox was given up, so that nothing more can go out through it.
    pub closed spec fn closed(self) -> bool {
        call_ensures(let_go::<Outbox>, (self,), ())
    }

    /// Nothing has gone out yet.
    pub fn new(sender: &'a ConnectionSender) -> (r: Self)
        ensures
            r.sender() == *sender,
            r.handed() == Seq::<Event>::empty(),
    {
        Self { sender, handed: Ghost(Seq::empty()) }
    }

    /// Gives up the outbox.
    pub fn close(self)
        ensures
            self.closed(),
    {
        // Only a call through a function value yields `call_ensures`, which `closed` speaks of.
        let drop_it = let_go::<Outbox>;
        drop_it(self);
    }

    fn send(&mut self, event: Event) -> (r: Result<(), Disconnected>)
        ensures
            final(self).sender() == old(self).sender(),
            final(self).handed() == old(self).handed().push(event),
            old(self).sender().posted(event, r),
    {
        self.handed = Ghost(self.handed@.push(event));
        self.sender.send(event)
    }

    /// Hands over a request. What comes of it is to be had at the end that is returned, and at no
    /// other.
    pub fn request(&mut self, payload: Vec<u8>) -> (r: Result<Receiver<Outcome>, Disconnected>)
        ensures
            final(self).sender() == old(self).sender(),
            match r {
                Ok(waiter_rx) => exists|waiter_tx: Sender<Outcome>|
                    {
                        let event = Event::Request { payload, waiter_tx };
                        &&& #[trigger] answers(waiter_tx, waiter_rx)
                        &&& forall|rx: Receiver<Outcome>| #[trigger]
                            answers(waiter_tx, rx) ==> rx == waiter_rx
                        &&& final(self).handed() == old(self).handed().push(event)
                        &&& old(self).sender().posted(event, Ok(()))
                    },
                Err(e) => {
                    &&& e.event matches Event::Request { payload: handed_back, .. }
                    &&& handed_back == payload
                    &&& final(self).handed() == old(self).handed().push(e.event)
                    &&& old(self).sender().posted(e.event, Err(e))
                },
            },
    {
        let (waiter_tx, waiter_rx) = outcome_channel();
        match self.send(Event::Request { payload, waiter_tx }) {
            Ok(()) => {
                let r: Result<Receiver<Outcome>, Disconnected> = Ok(waiter_rx);
                assert(answers(waiter_tx, r->Ok_0));
                r
            },
            Err(e) => Err(e),
        }
    }

    /// Hands over a push.
    pub fn push(&mut self, payload: Vec<u8>) -> (r: Result<(), Disconnected>)
        ensures
            final(self).sender() == old(self).sender(),
            final(self).handed() == old(self).handed().push(Event::Push { payload }),
            old(self).sender().posted(Event::Push { payload }, r),
    {
        self.send(Event::Push { payload })
    }

    /// Hands over word that the handshake is over.
    pub fn ready(&mut self, ping_interval: u32) -> (r: Result<(), Disconnected>)
        ensures
            final(self).sender() == old(self).sender(),
            final(self).handed() == old(self).handed().push(Event::Ready { ping_interval }),
            old(self).sender().posted(Event::Ready { ping_interval }, r),
    {
        self.send(Event::Ready { ping_interval })
    }

    /// Hands over word that a ping is due.
    pub fn ping(&mut self) -> (r: Result<(), Disconnected>)
        ensures
            final(self).sender() == old(self).sender(),
            final(self).handed() == old(self).handed().push(Event::Ping),
            old(self).sender().posted(Event::Ping, r),
    {
        self.send(Event::Ping)
    }

    /// Hands over a greeting for the peer.
    pub fn hello(&mut self) -> (r: Result<(), Disconnected>)
        ensures
            final(self).sender() == old(self).sender(),
            exists|hello: Hello|
                {
                    let event = Event::SendFrame(LoquiFrame::Hello(hello));
                    &&& #[trigger] greets(hello)
                    &&& final(self).handed() == old(self).handed().push(event)
                    &&& old(self).sender().posted(event, r)
                },
    {
        let mut encodings: Vec<String> = Vec::new();
        encodings.push("json".to_owned());
        let hello = Hello { flags: 0, version: 0, encodings, compressions: Vec::new() };
        assert(greets(hello));
        self.send(Event::SendFrame(LoquiFrame::Hello(hello)))
    }

    /// Hands over a frame to be sent.
    pub fn frame(&mut self, frame: LoquiFrame) -> (r: Result<(), Disconnected>)
        ensures
            final(self).sender() == old(self).sender(),
            final(self).handed() == old(self).handed().push(Event::SendFrame(frame)),
            old(self).sender().posted(Event::SendFrame(frame), r),
    {
        self.send(Event::SendFrame(frame))
    }
}

/// What a copy of a sender says was taken was handed to the queue of the connection that the
/// sender reaches, and of no other.
pub proof fn law_copies_feed_the_same_connection(
    sender: ConnectionSender,
    rx: UnboundedReceiver<Event>,
    copy: ConnectionSender,
    event: Event,
    other: UnboundedReceiver<Event>,
)
    requires
        sender.reaches(rx),
        forall|end: UnboundedReceiver<Event>| #[trigger] sender.reaches(end) ==> end == rx,
        copy.shares_queue_with(sender),
        copy.posted(event, Ok(())),
    ensures
        fed(rx, event),
        copy.reaches(other) ==> other == rx,
{
    assert(copy.reaches(rx) == sender.reaches(rx));
    assert(copy.reaches(other) == sender.reaches(other));
}

/// An event is handed to the queue by sending it there, and is taken just when that succeeds.
proof fn law_handing_over_is_sending(sender: ConnectionSender, event: Event, taken: bool)
    requires
        sender.queue_handed(event, taken),
    ensures
        exists|back: Result<(), Event>|
            call_ensures(send_event, (&sender.tx, event), back) && taken == (back is Ok),
{
}

/// Events are dispatched by dropping an outbox on that sender whose account holds just them.
proof fn law_dispatching_is_closing_an_account(sender: ConnectionSender, events: Seq<Event>)
    requires
        sender.dispatched(events),
    ensures
        exists|outbox: Outbox|
            {
                &&& #[trigger] call_ensures(let_go::<Outbox>, (outbox,), ())
                &&& *outbox.sender == sender
                &&& outbox.handed@ == events
            },
{
    let outbox = choose|outbox: Outbox|
        #![trigger outbox.handed()]
        outbox.sender() == sender && outbox.handed() == events && outbox.closed();
    assert(call_ensures(let_go::<Outbox>, (outbox,), ()));
}

} // verus!
