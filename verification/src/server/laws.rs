//! What the operations of a connection come to, said of their arguments and results.
//!
//! Each law speaks of any call of an operation: `call_ensures` of the operation, its arguments and
//! a result is what is known of every call that returns that result.

use crate::error::{AnyFailure, Failure, LoquiError, Outcome};
use crate::frames::{Hello, LoquiFrame, Ping, Pong, Push, Request};
use crate::sequence::Sequencer;
use crate::server::connection::{
    Connection, Event, EventHandler, HandleEventResult, Inner, Step,
};
use crate::server::ping::Handle;
use crate::server::sender::{greets, ConnectionSender, Disconnected, Outbox};
use crate::waiter::answers;
use futures::sync::mpsc::UnboundedReceiver;
use futures::sync::oneshot::{Receiver, Sender};
use vstd::prelude::*;

verus! {

/// Every frame from the peer that is not a ping, a pong or a go-away is left to the handler, whose
/// answer is the answer. The rest of the connection is as before.
pub proof fn law_other_frames_are_left_to_the_handler<H: EventHandler>(
    inner: &mut Inner<H>,
    frame: LoquiFrame,
    sequence_id: u32,
    answer: HandleEventResult,
)
    requires
        call_ensures(
            Inner::<H>::handle_event,
            (inner, Event::SocketReceive(frame), sequence_id),
            answer,
        ),
        frame is Hello || frame is HelloAck || frame is Request || frame is Response
            || frame is Push || frame is Error,
    ensures
        H::received(old(inner).event_handler, frame, final(inner).event_handler, answer),
        final(inner).pong_received == old(inner).pong_received,
        final(inner).ping_handle == old(inner).ping_handle,
{
}

/// A ping from the peer is answered by the pong with its flags and its id, and leaves the
/// connection as it was.
pub proof fn law_a_ping_is_answered<H: EventHandler>(
    inner: &mut Inner<H>,
    ping: Ping,
    sequence_id: u32,
    answer: HandleEventResult,
)
    requires
        call_ensures(
            Inner::<H>::handle_event,
            (inner, Event::SocketReceive(LoquiFrame::Ping(ping)), sequence_id),
            answer,
        ),
    ensures
        answer == Ok::<Option<LoquiFrame>, AnyFailure>(
            Some(LoquiFrame::Pong(Pong { flags: ping.flags, sequence_id: ping.sequence_id })),
        ),
        *final(inner) == *old(inner),
{
}

/// A pong from the peer is noted, whatever it holds, and not answered.
pub proof fn law_a_pong_is_noted<H: EventHandler>(
    inner: &mut Inner<H>,
    pong: Pong,
    sequence_id: u32,
    answer: HandleEventResult,
)
    requires
        call_ensures(
            Inner::<H>::handle_event,
            (inner, Event::SocketReceive(LoquiFrame::Pong(pong)), sequence_id),
            answer,
        ),
    ensures
        answer == Ok::<Option<LoquiFrame>, AnyFailure>(None),
        final(inner).pong_received,
        final(inner).ping_handle == old(inner).ping_handle,
        final(inner).event_handler == old(inner).event_handler,
{
}

/// A go-away from the peer fails, and leaves the connection as it was.
pub proof fn law_a_go_away_fails<H: EventHandler>(
    inner: &mut Inner<H>,
    frame: LoquiFrame,
    sequence_id: u32,
    answer: HandleEventResult,
)
    requires
        call_ensures(
            Inner::<H>::handle_event,
            (inner, Event::SocketReceive(frame), sequence_id),
            answer,
        ),
        frame is GoAway,
    ensures
        answer == Err::<Option<LoquiFrame>, AnyFailure>(Failure::Loqui(LoquiError::GoAway)),
        *final(inner) == *old(inner),
{
}

/// A ping that is due goes out under the id that it is handed if the last one has been answered,
/// and is then itself unanswered; it times out if not.
pub proof fn law_a_due_ping_needs_the_last_one_answered<H: EventHandler>(
    inner: &mut Inner<H>,
    sequence_id: u32,
    answer: HandleEventResult,
)
    requires
        call_ensures(Inner::<H>::handle_event, (inner, Event::Ping, sequence_id), answer),
    ensures
        old(inner).pong_received ==> answer == Ok::<Option<LoquiFrame>, AnyFailure>(
            Some(LoquiFrame::Ping(Ping { sequence_id, flags: 0 })),
        ),
        !old(inner).pong_received ==> answer == Err::<Option<LoquiFrame>, AnyFailure>(
            Failure::Loqui(LoquiError::PingTimeout),
        ),
        !final(inner).pong_received,
        final(inner).ping_handle == old(inner).ping_handle,
        final(inner).event_handler == old(inner).event_handler,
{
}

/// Two pings that are due one right after the other: the second times out.
pub proof fn law_the_second_of_two_pings_times_out<H: EventHandler>(
    first: &mut Inner<H>,
    first_id: u32,
    first_answer: HandleEventResult,
    second: &mut Inner<H>,
    second_id: u32,
    second_answer: HandleEventResult,
)
    requires
        call_ensures(Inner::<H>::handle_event, (first, Event::Ping, first_id), first_answer),
        *old(second) == *final(first),
        call_ensures(Inner::<H>::handle_event, (second, Event::Ping, second_id), second_answer),
    ensures
        second_answer == Err::<Option<LoquiFrame>, AnyFailure>(
            Failure::Loqui(LoquiError::PingTimeout),
        ),
{
}

/// Being ready starts the pinging at the given interval, and nothing else.
pub proof fn law_ready_starts_the_pinging<H: EventHandler>(
    inner: &mut Inner<H>,
    ping_interval: u32,
    sequence_id: u32,
    answer: HandleEventResult,
)
    requires
        call_ensures(
            Inner::<H>::handle_event,
            (inner, Event::Ready { ping_interval }, sequence_id),
            answer,
        ),
    ensures
        answer == Ok::<Option<LoquiFrame>, AnyFailure>(None),
        final(inner).ping_handle.interval == Some(ping_interval),
        final(inner).pong_received == old(inner).pong_received,
        final(inner).event_handler == old(inner).event_handler,
{
}

/// A request goes out as it is under the id that it is handed, and the handler learns of that id
/// and of the channel on which its outcome is awaited.
pub proof fn law_a_request_goes_out<H: EventHandler>(
    inner: &mut Inner<H>,
    payload: Vec<u8>,
    waiter_tx: Sender<Outcome>,
    sequence_id: u32,
    answer: HandleEventResult,
)
    requires
        call_ensures(
            Inner::<H>::handle_event,
            (inner, Event::Request { payload, waiter_tx }, sequence_id),
            answer,
        ),
    ensures
        answer == Ok::<Option<LoquiFrame>, AnyFailure>(
            Some(LoquiFrame::Request(Request { payload, sequence_id, flags: 0 })),
        ),
        H::sent(old(inner).event_handler, sequence_id, waiter_tx, final(inner).event_handler),
        final(inner).pong_received == old(inner).pong_received,
        final(inner).ping_handle == old(inner).ping_handle,
{
}

/// A push goes out as it is, and leaves the connection as it was.
pub proof fn law_a_push_goes_out<H: EventHandler>(
    inner: &mut Inner<H>,
    payload: Vec<u8>,
    sequence_id: u32,
    answer: HandleEventResult,
)
    requires
        call_ensures(
            Inner::<H>::handle_event,
            (inner, Event::Push { payload }, sequence_id),
            answer,
        ),
    ensures
        answer == Ok::<Option<LoquiFrame>, AnyFailure>(
            Some(LoquiFrame::Push(Push { payload, flags: 0 })),
        ),
        *final(inner) == *old(inner),
{
}

/// A frame that is to be sent goes out as it is, whatever it is, and leaves the connection as it
/// was.
pub proof fn law_a_frame_goes_out<H: EventHandler>(
    inner: &mut Inner<H>,
    frame: LoquiFrame,
    sequence_id: u32,
    answer: HandleEventResult,
)
    requires
        call_ensures(
            Inner::<H>::handle_event,
            (inner, Event::SendFrame(frame), sequence_id),
            answer,
        ),
    ensures
        answer == Ok::<Option<LoquiFrame>, AnyFailure>(Some(frame)),
        *final(inner) == *old(inner),
{
}

/// An event that asks for something to be sent is followed by sending just that, and uses up one
/// id: a push, a frame as it is, a request under that id. A ping from the peer is followed by
/// sending its pong. Of the connection's own state, only a ping that goes out changes anything.
pub proof fn law_what_is_to_be_sent_is_sent<H: EventHandler, E>(
    inner: &mut Inner<H>,
    sequencer: &mut Sequencer,
    event: Event,
    step: Step<E>,
)
    requires
        call_ensures(
            Inner::<H>::handle_item::<E>,
            (inner, sequencer, Some(Ok::<Event, E>(event))),
            step,
        ),
    ensures
        final(sequencer)@ == old(sequencer)@ + 1,
        event matches Event::Push { payload } ==> step == Step::<E>::Send(
            LoquiFrame::Push(Push { payload, flags: 0 }),
        ),
        event matches Event::SendFrame(frame) ==> step == Step::<E>::Send(frame),
        event matches Event::SocketReceive(LoquiFrame::Ping(ping)) ==> step == Step::<E>::Send(
            LoquiFrame::Pong(Pong { flags: ping.flags, sequence_id: ping.sequence_id }),
        ),
        event matches Event::Request { payload, waiter_tx } ==> {
            &&& step matches Step::Send(LoquiFrame::Request(request))
            &&& request.payload == payload
            &&& request.sequence_id == old(sequencer)@
            &&& request.flags == 0
            &&& H::sent(
                old(inner).event_handler,
                request.sequence_id,
                waiter_tx,
                final(inner).event_handler,
            )
        },
        event is Ping && old(inner).pong_received ==> {
            &&& step matches Step::Send(LoquiFrame::Ping(ping))
            &&& ping.sequence_id == old(sequencer)@
            &&& ping.flags == 0
            &&& !final(inner).pong_received
            &&& final(inner).ping_handle == old(inner).ping_handle
            &&& final(inner).event_handler == old(inner).event_handler
        },
        event is Push || event is SendFrame || (event matches Event::SocketReceive(
            LoquiFrame::Ping(_),
        )) ==> *final(inner) == *old(inner),
        event is Request ==> {
            &&& final(inner).pong_received == old(inner).pong_received
            &&& final(inner).ping_handle == old(inner).ping_handle
        },
{
}

/// An event that sends nothing is followed by waiting, or, if it fails, by saying why: a ping that
/// is due while the last one is unanswered, or a go-away.
pub proof fn law_what_fails_is_reported<H: EventHandler, E>(
    inner: &mut Inner<H>,
    sequencer: &mut Sequencer,
    event: Event,
    step: Step<E>,
)
    requires
        call_ensures(
            Inner::<H>::handle_item::<E>,
            (inner, sequencer, Some(Ok::<Event, E>(event))),
            step,
        ),
    ensures
        final(sequencer)@ == old(sequencer)@ + 1,
        event matches Event::Ready { ping_interval } ==> {
            &&& step == Step::<E>::Wait
            &&& final(inner).ping_handle.interval == Some(ping_interval)
            &&& final(inner).pong_received == old(inner).pong_received
            &&& final(inner).event_handler == old(inner).event_handler
        },
        event matches Event::SocketReceive(LoquiFrame::Pong(_)) ==> {
            &&& step == Step::<E>::Wait
            &&& final(inner).pong_received
            &&& final(inner).ping_handle == old(inner).ping_handle
            &&& final(inner).event_handler == old(inner).event_handler
        },
        event is Ping && !old(inner).pong_received ==> {
            &&& step == Step::<E>::EventFailed(Failure::Loqui(LoquiError::PingTimeout))
            &&& *final(inner) == *old(inner)
        },
        event matches Event::SocketReceive(LoquiFrame::GoAway(_)) ==> {
            &&& step == Step::<E>::EventFailed(Failure::Loqui(LoquiError::GoAway))
            &&& *final(inner) == *old(inner)
        },
{
}

/// What the handler answers to a frame of the peer's is done: the frame that it answers is sent,
/// whatever it is; without one the connection waits; a failure is reported as it is.
pub proof fn law_the_handlers_answer_is_done<H: EventHandler, E>(
    inner: &mut Inner<H>,
    sequencer: &mut Sequencer,
    frame: LoquiFrame,
    step: Step<E>,
)
    requires
        call_ensures(
            Inner::<H>::handle_item::<E>,
            (inner, sequencer, Some(Ok::<Event, E>(Event::SocketReceive(frame)))),
            step,
        ),
        frame is Hello || frame is HelloAck || frame is Request || frame is Response
            || frame is Push || frame is Error,
    ensures
        exists|answer: HandleEventResult|
            {
                &&& #[trigger] H::received(
                    old(inner).event_handler,
                    frame,
                    final(inner).event_handler,
                    answer,
                )
                &&& answer matches Ok(Some(reply)) ==> step == Step::<E>::Send(reply)
                &&& answer matches Ok(None) ==> step == Step::<E>::Wait
                &&& answer matches Err(e) ==> step == Step::<E>::EventFailed(e)
            },
        final(inner).pong_received == old(inner).pong_received,
        final(inner).ping_handle == old(inner).ping_handle,
        final(sequencer)@ == old(sequencer)@ + 1,
{
}

/// A failure of the source of events is reported as it is, and the end of the events is the end;
/// neither touches the connection or uses up an id.
pub proof fn law_without_an_event_nothing_changes<H: EventHandler, E>(
    inner: &mut Inner<H>,
    sequencer: &mut Sequencer,
    item: Option<Result<Event, E>>,
    step: Step<E>,
)
    requires
        call_ensures(Inner::<H>::handle_item::<E>, (inner, sequencer, item), step),
        !(item matches Some(Ok(_))),
    ensures
        item matches Some(Err(e)) ==> step == Step::<E>::SourceFailed(e),
        item is None ==> step == Step::<E>::End,
        *final(inner) == *old(inner),
        final(sequencer)@ == old(sequencer)@,
{
}

/// A connection starts as if its last ping had been answered, with pinging not started and the
/// given handler.
pub proof fn law_a_connection_may_ping_at_first<H: EventHandler>(handler: H, inner: Inner<H>)
    requires
        call_ensures(Inner::<H>::new, (handler,), inner),
    ensures
        inner.pong_received,
        inner.ping_handle.interval is None,
        inner.event_handler == handler,
{
}

/// What starts the pinging is there to be taken once.
pub proof fn law_an_interval_is_taken_once(
    fresh: Handle,
    starting: &mut Handle,
    ping_interval: u32,
    taking: &mut Handle,
    taken: Option<u32>,
    again: &mut Handle,
    taken_again: Option<u32>,
)
    requires
        call_ensures(Handle::new, (), fresh),
        *old(starting) == fresh,
        call_ensures(Handle::start, (starting, ping_interval), ()),
        *old(taking) == *final(starting),
        call_ensures(Handle::take, (taking,), taken),
        *old(again) == *final(taking),
        call_ensures(Handle::take, (again,), taken_again),
    ensures
        fresh.interval is None,
        taken == Some(ping_interval),
        taken_again is None,
{
}

/// A new sequence hands out one and then two.
pub proof fn law_ids_start_at_one(
    fresh: Sequencer,
    first: &mut Sequencer,
    first_id: u32,
    second: &mut Sequencer,
    second_id: u32,
)
    requires
        call_ensures(Sequencer::new, (), fresh) || call_ensures(
            <Sequencer as Default>::default,
            (),
            fresh,
        ),
        *old(first) == fresh,
        call_ensures(Sequencer::next, (first,), first_id),
        *old(second) == *final(first),
        call_ensures(Sequencer::next, (second,), second_id),
    ensures
        first_id == 1,
        second_id == 2,
{
}

/// Of two ids that one sequence hands out in a row the second is the next number, and the sequence
/// is exhausted just when its next id is the largest number.
pub proof fn law_the_next_id_is_the_next_number(
    first: &mut Sequencer,
    first_id: u32,
    second: &mut Sequencer,
    second_id: u32,
    exhausted: bool,
)
    requires
        call_ensures(Sequencer::next, (first,), first_id),
        *old(second) == *final(first),
        call_ensures(Sequencer::is_exhausted, (&*old(second),), exhausted),
        call_ensures(Sequencer::next, (second,), second_id),
    ensures
        second_id == first_id + 1,
        exhausted <==> second_id == u32::MAX,
{
}

/// A request is handed to the connection's queue with its payload as it is and with one end of a
/// new channel. The other end is what is returned, if the queue took it; if not, the event comes
/// back.
pub proof fn law_a_request_is_handed_over(
    sender: ConnectionSender,
    payload: Vec<u8>,
    r: Result<Receiver<Outcome>, Disconnected>,
)
    requires
        call_ensures(ConnectionSender::request, (&sender, payload), r),
    ensures
        r matches Ok(waiter_rx) ==> exists|waiter_tx: Sender<Outcome>|
            {
                &&& #[trigger] answers(waiter_tx, waiter_rx)
                &&& forall|rx: Receiver<Outcome>| #[trigger]
                    answers(waiter_tx, rx) ==> rx == waiter_rx
                &&& sender.queue_handed(Event::Request { payload, waiter_tx }, true)
            },
        r matches Err(e) ==> {
            &&& e.event matches Event::Request { payload: back, .. }
            &&& back == payload
            &&& sender.queue_handed(e.event, false)
        },
{
}

/// A request is one event: what an outbox has handed to the queue after the call is what it had
/// handed over before, followed by the request. That carries the payload as it is, and is the event
/// that is tied to the end that is returned, or the one that comes back.
pub proof fn law_a_request_is_one_event(
    outbox: &mut Outbox,
    payload: Vec<u8>,
    r: Result<Receiver<Outcome>, Disconnected>,
)
    requires
        call_ensures(Outbox::request, (outbox, payload), r),
    ensures
        final(outbox).sender() == old(outbox).sender(),
        final(outbox).handed().len() == old(outbox).handed().len() + 1,
        final(outbox).handed().drop_last() == old(outbox).handed(),
        final(outbox).handed().last() matches Event::Request { payload: handed, waiter_tx }
            && handed == payload && (r matches Ok(waiter_rx) ==> answers(waiter_tx, waiter_rx)),
        r matches Err(e) ==> e.event == final(outbox).handed().last(),
        old(outbox).sender().queue_handed(final(outbox).handed().last(), r is Ok),
{
    assert(final(outbox).handed().drop_last() =~= old(outbox).handed());
}

/// A push, that the handshake is over, that a ping is due, a greeting, a frame: each is one event,
/// after those that the outbox had handed to the queue before.
pub proof fn law_what_is_asked_is_one_event(
    outbox: &mut Outbox,
    payload: Vec<u8>,
    ping_interval: u32,
    frame: LoquiFrame,
    r: Result<(), Disconnected>,
)
    ensures
        call_ensures(Outbox::push, (outbox, payload), r) ==> final(outbox).handed() == old(
            outbox,
        ).handed().push(Event::Push { payload }),
        call_ensures(Outbox::ready, (outbox, ping_interval), r) ==> final(outbox).handed() == old(
            outbox,
        ).handed().push(Event::Ready { ping_interval }),
        call_ensures(Outbox::ping, (outbox,), r) ==> final(outbox).handed() == old(
            outbox,
        ).handed().push(Event::Ping),
        call_ensures(Outbox::frame, (outbox, frame), r) ==> final(outbox).handed() == old(
            outbox,
        ).handed().push(Event::SendFrame(frame)),
        call_ensures(Outbox::hello, (outbox,), r) ==> {
            &&& final(outbox).handed().len() == old(outbox).handed().len() + 1
            &&& final(outbox).handed().drop_last() =~= old(outbox).handed()
            &&& final(outbox).handed().last() matches Event::SendFrame(LoquiFrame::Hello(_))
        },
{
}

/// A new outbox is on the given sender and has handed nothing over, and one that is closed was given
/// up.
pub proof fn law_an_outbox_starts_empty(sender: ConnectionSender, outbox: Outbox)
    ensures
        call_ensures(Outbox::new, (&sender,), outbox) ==> {
            &&& outbox.sender() == sender
            &&& outbox.handed().len() == 0
        },
        call_ensures(Outbox::close, (outbox,), ()) ==> outbox.closed(),
{
}

/// A request goes out through an outbox that is closed on an account of just one event, the one that
/// carries the payload as it is and is tied to the end that is returned, or comes back.
pub proof fn law_a_request_is_dispatched_alone(
    sender: ConnectionSender,
    payload: Vec<u8>,
    r: Result<Receiver<Outcome>, Disconnected>,
)
    requires
        call_ensures(ConnectionSender::request, (&sender, payload), r),
    ensures
        exists|event: Event|
            {
                &&& #[trigger] sender.dispatched(seq![event])
                &&& event matches Event::Request { payload: handed, waiter_tx }
                &&& handed == payload
                &&& r matches Ok(waiter_rx) ==> answers(waiter_tx, waiter_rx)
                &&& r matches Err(e) ==> e.event == event
            },
{
    match r {
        Ok(waiter_rx) => {
            let waiter_tx = choose|waiter_tx: Sender<Outcome>| #[trigger]
                answers(waiter_tx, waiter_rx) && sender.dispatched(
                    seq![Event::Request { payload, waiter_tx }],
                );
            assert(sender.dispatched(seq![Event::Request { payload, waiter_tx }]));
        },
        Err(e) => {
            assert(sender.dispatched(seq![e.event]));
        },
    }
}

/// A push, that the handshake is over, that a ping is due, a frame: each goes out through an
/// outbox that is closed on an account of just that event.
pub proof fn law_what_is_asked_is_dispatched_alone(
    sender: ConnectionSender,
    payload: Vec<u8>,
    ping_interval: u32,
    frame: LoquiFrame,
    r: Result<(), Disconnected>,
)
    ensures
        call_ensures(ConnectionSender::push, (&sender, payload), r) ==> sender.dispatched(
            seq![Event::Push { payload }],
        ),
        call_ensures(ConnectionSender::ready, (&sender, ping_interval), r) ==> sender.dispatched(
            seq![Event::Ready { ping_interval }],
        ),
        call_ensures(ConnectionSender::ping, (&sender,), r) ==> sender.dispatched(
            seq![Event::Ping],
        ),
        call_ensures(ConnectionSender::frame, (&sender, frame), r) ==> sender.dispatched(
            seq![Event::SendFrame(frame)],
        ),
{
}

/// A push, that the handshake is over, that a ping is due, a frame: each is handed to the
/// connection's queue as it is, and comes back as it is if the queue does not take it.
pub proof fn law_what_is_asked_is_handed_over(
    sender: ConnectionSender,
    payload: Vec<u8>,
    pushed: Result<(), Disconnected>,
    ping_interval: u32,
    readied: Result<(), Disconnected>,
    pinged: Result<(), Disconnected>,
    frame: LoquiFrame,
    framed: Result<(), Disconnected>,
)
    ensures
        call_ensures(ConnectionSender::push, (&sender, payload), pushed) ==> {
            &&& sender.queue_handed(Event::Push { payload }, pushed is Ok)
            &&& pushed matches Err(e) ==> e.event == (Event::Push { payload })
        },
        call_ensures(ConnectionSender::ready, (&sender, ping_interval), readied) ==> {
            &&& sender.queue_handed(Event::Ready { ping_interval }, readied is Ok)
            &&& readied matches Err(e) ==> e.event == (Event::Ready { ping_interval })
        },
        call_ensures(ConnectionSender::ping, (&sender,), pinged) ==> {
            &&& sender.queue_handed(Event::Ping, pinged is Ok)
            &&& pinged matches Err(e) ==> e.event == Event::Ping
        },
        call_ensures(ConnectionSender::frame, (&sender, frame), framed) ==> {
            &&& sender.queue_handed(Event::SendFrame(frame), framed is Ok)
            &&& framed matches Err(e) ==> e.event == Event::SendFrame(frame)
        },
{
}

/// A greeting is handed to the connection's queue: a hello of version zero that offers `json` and
/// no compression.
pub proof fn law_a_greeting_is_handed_over(sender: ConnectionSender, r: Result<(), Disconnected>)
    requires
        call_ensures(ConnectionSender::hello, (&sender,), r),
    ensures
        exists|hello: Hello|
            {
                &&& hello.flags == 0
                &&& hello.version == 0
                &&& hello.encodings@.len() == 1
                &&& hello.encodings@[0]@ == seq!['j', 's', 'o', 'n']
                &&& hello.compressions@.len() == 0
                &&& #[trigger] sender.queue_handed(
                    Event::SendFrame(LoquiFrame::Hello(hello)),
                    r is Ok,
                )
                &&& sender.dispatched(seq![Event::SendFrame(LoquiFrame::Hello(hello))])
                &&& r matches Err(e) ==> e.event == Event::SendFrame(LoquiFrame::Hello(hello))
            },
{
    reveal_strlit("json");
    let hello = choose|hello: Hello|
        {
            let event = Event::SendFrame(LoquiFrame::Hello(hello));
            &&& #[trigger] greets(hello)
            &&& sender.posted(event, r)
            &&& sender.dispatched(seq![event])
        };
    assert(hello.encodings@[0]@ =~= seq!['j', 's', 'o', 'n']);
    assert(sender.queue_handed(Event::SendFrame(LoquiFrame::Hello(hello)), r is Ok));
}

/// A new connection is on the given stream and starts its ids at one; what it was given out with,
/// and what it sends to itself with, and any copy of them, send to it and to nobody else.
pub proof fn law_senders_reach_their_connection<S>(
    stream: S,
    r: (ConnectionSender, Connection<S>),
    copy: ConnectionSender,
    rx: UnboundedReceiver<Event>,
)
    requires
        call_ensures(Connection::<S>::new, (stream,), r),
        call_ensures(<ConnectionSender as Clone>::clone, (&r.0,), copy),
    ensures
        r.1.tcp_stream == stream,
        r.1.sequencer@ == 1,
        r.0.reaches(rx) <==> rx == r.1.self_rx,
        copy.reaches(rx) <==> rx == r.1.self_rx,
        r.1.self_sender.reaches(rx) <==> rx == r.1.self_rx,
{
}

/// A copy of any sender reaches just the ends that the sender reaches.
pub proof fn law_a_copy_reaches_the_same_ends(
    sender: ConnectionSender,
    copy: ConnectionSender,
    rx: UnboundedReceiver<Event>,
)
    requires
        call_ensures(<ConnectionSender as Clone>::clone, (&sender,), copy),
    ensures
        copy.reaches(rx) <==> sender.reaches(rx),
{
}

/// A new sender reaches the end that it comes with and no other.
pub proof fn law_a_sender_reaches_its_end(
    r: (ConnectionSender, UnboundedReceiver<Event>),
    rx: UnboundedReceiver<Event>,
)
    requires
        call_ensures(ConnectionSender::new, (), r),
    ensures
        r.0.reaches(rx) <==> rx == r.1,
{
}

} // verus!
