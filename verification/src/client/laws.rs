//! What the operations of a client come to, said of their arguments and results.
//!
//! Each law speaks of any call of an operation: `call_ensures` of the operation, its arguments and
//! a result is what is known of every call that returns that result.

use crate::client::config::Config;
use crate::client::connection_handler::{requested, ConnectionHandler, InternalEvent};
use crate::client::encoding::find_encoding;
use crate::client::handshake::{
    handle_handshake_frame, handle_handshake_hello_ack, make_hello, AckAwaited, HelloSent, Ready,
};
use crate::client::upgrade::{UpgradeAwaited, UpgradeRequested};
use crate::clock::{clock_read, millis, reading};
use crate::error::{error_outcome, utf8_failure, Failure, LoquiError, Outcome};
use crate::frames::{
    DelegatedFrame, ErrorFrame, Hello, HelloAck, LoquiFrame, Push, Request, Response, UpgradeFrame,
};
use crate::sequence::IdSequence;
use crate::waiter::{answers, ResponseWaiter};
use bytesize::ByteSize;
use futures::sync::oneshot::Receiver;
use std::time::Instant;
use vstd::prelude::*;
use vstd::utf8::{decode_utf8, valid_utf8};

verus! {

/// Whatever its payload and its id, a request whose deadline lies after `now` is sent as it is,
/// and its waiter waits under its id. Everybody else waits on as before, but for whoever waited
/// under the same id: that one is given up without a word.
pub proof fn law_a_live_request_is_sent(
    handler: &mut ConnectionHandler,
    payload: Vec<u8>,
    sequence_id: u32,
    waiter: ResponseWaiter,
    now: Instant,
    r: Option<LoquiFrame>,
    other: u32,
)
    requires
        call_ensures(
            ConnectionHandler::send_request_at,
            (handler, payload, sequence_id, waiter, now),
            r,
        ),
        reading(waiter.deadline) > reading(now),
    ensures
        r == Some(LoquiFrame::Request(Request { payload, sequence_id, flags: 0 })),
        final(handler).waiters().contains_key(sequence_id),
        final(handler).waiters()[sequence_id] == waiter,
        old(handler).waiters().contains_key(sequence_id)
            ==> old(handler).waiters()[sequence_id].dropped(),
        other != sequence_id ==> {
            &&& final(handler).waiters().contains_key(other)
                == old(handler).waiters().contains_key(other)
            &&& final(handler).waiters()[other] == old(handler).waiters()[other]
        },
        final(handler).config() == old(handler).config(),
{
}

/// A request is withheld, and its waiter told that it timed out, if its deadline does not lie
/// after `now`, and only then. Nobody else is concerned.
pub proof fn law_only_a_dead_request_is_withheld(
    handler: &mut ConnectionHandler,
    payload: Vec<u8>,
    sequence_id: u32,
    waiter: ResponseWaiter,
    now: Instant,
    r: Option<LoquiFrame>,
)
    requires
        call_ensures(
            ConnectionHandler::send_request_at,
            (handler, payload, sequence_id, waiter, now),
            r,
        ),
    ensures
        r is None <==> reading(waiter.deadline) <= reading(now),
        r is None ==> {
            &&& waiter.notified(Err(Failure::Loqui(LoquiError::RequestTimeout)))
            &&& final(handler).waiters() == old(handler).waiters()
            &&& final(handler).config() == old(handler).config()
        },
{
}

/// What a request comes to at the instant that the clock gives: it is sent if its deadline lies
/// after that instant, and withheld if not.
pub proof fn law_a_request_is_sent_by_the_clock(
    handler: &mut ConnectionHandler,
    payload: Vec<u8>,
    sequence_id: u32,
    waiter: ResponseWaiter,
    r: Option<LoquiFrame>,
)
    requires
        call_ensures(
            ConnectionHandler::send_request,
            (handler, payload, sequence_id, waiter),
            r,
        ),
    ensures
        exists|now: Instant|
            {
                &&& #[trigger] clock_read(now)
                &&& reading(waiter.deadline) > reading(now) ==> {
                    &&& r == Some(
                        LoquiFrame::Request(Request { payload, sequence_id, flags: 0 }),
                    )
                    &&& final(handler).waiters() == old(handler).waiters().insert(
                        sequence_id,
                        waiter,
                    )
                    &&& old(handler).waiters().contains_key(sequence_id)
                        ==> old(handler).waiters()[sequence_id].dropped()
                }
                &&& reading(waiter.deadline) <= reading(now) ==> {
                    &&& r == None::<LoquiFrame>
                    &&& final(handler).waiters() == old(handler).waiters()
                    &&& waiter.notified(Err(Failure::Loqui(LoquiError::RequestTimeout)))
                }
            },
        final(handler).config() == old(handler).config(),
{
}

/// A user's request goes out under the next id of the sequence, which moves on by one: it is sent
/// if its deadline lies after the instant that the clock gives, and withheld if not.
pub proof fn law_a_users_request_takes_the_next_id(
    handler: &mut ConnectionHandler,
    payload: Vec<u8>,
    waiter: ResponseWaiter,
    id_sequence: &mut IdSequence,
    r: Option<LoquiFrame>,
)
    requires
        call_ensures(
            ConnectionHandler::handle_internal_event,
            (handler, InternalEvent::Request { payload, waiter }, id_sequence),
            r,
        ),
    ensures
        final(id_sequence)@ == old(id_sequence)@ + 1,
        exists|id: u32, now: Instant|
            {
                &&& id == old(id_sequence)@
                &&& #[trigger] clock_read(now)
                &&& reading(waiter.deadline) > reading(now) ==> {
                    &&& r == Some(
                        LoquiFrame::Request(Request { payload, sequence_id: id, flags: 0 }),
                    )
                    &&& final(handler).waiters() == (#[trigger] old(handler).waiters().insert(
                        id,
                        waiter,
                    ))
                    &&& old(handler).waiters().contains_key(id)
                        ==> old(handler).waiters()[id].dropped()
                }
                &&& reading(waiter.deadline) <= reading(now) ==> {
                    &&& r == None::<LoquiFrame>
                    &&& final(handler).waiters() == old(handler).waiters()
                    &&& waiter.notified(Err(Failure::Loqui(LoquiError::RequestTimeout)))
                }
            },
        final(handler).config() == old(handler).config(),
{
    let id = old(id_sequence)@ as u32;
    let now = choose|now: Instant|
        {
            &&& #[trigger] clock_read(now)
            &&& requested(
                old(handler).waiters(),
                payload,
                id,
                waiter,
                now,
                final(handler).waiters(),
                r,
            )
        };
    assert(clock_read(now));
    let with = old(handler).waiters().insert(id, waiter);
}

/// A user's push goes out as it is, takes no id and concerns no waiter.
pub proof fn law_a_users_push_is_sent(
    handler: &mut ConnectionHandler,
    payload: Vec<u8>,
    id_sequence: &mut IdSequence,
    r: Option<LoquiFrame>,
)
    requires
        call_ensures(
            ConnectionHandler::handle_internal_event,
            (handler, InternalEvent::Push { payload }, id_sequence),
            r,
        ),
    ensures
        r == Some(LoquiFrame::Push(Push { payload, flags: 0 })),
        final(id_sequence)@ == old(id_sequence)@,
        final(handler).waiters() == old(handler).waiters(),
        final(handler).config() == old(handler).config(),
{
}

/// A push goes out as it is and leaves the client as it was.
pub proof fn law_a_push_is_sent(
    handler: &mut ConnectionHandler,
    payload: Vec<u8>,
    r: Option<LoquiFrame>,
)
    requires
        call_ensures(ConnectionHandler::send_push, (handler, payload), r),
    ensures
        r == Some(LoquiFrame::Push(Push { payload, flags: 0 })),
        *final(handler) == *old(handler),
{
}

/// A response hands its payload, as it is, to whoever waits under its id, who then waits no more.
/// Everybody else waits on as before.
pub proof fn law_a_response_is_handed_on(
    handler: &mut ConnectionHandler,
    response: Response,
    encoding: &'static str,
    r: Option<Result<Response, (LoquiError, u32)>>,
    other: u32,
)
    requires
        call_ensures(
            ConnectionHandler::handle_frame,
            (handler, DelegatedFrame::Response(response), encoding),
            r,
        ),
    ensures
        r is None,
        old(handler).waiters().contains_key(response.sequence_id)
            ==> old(handler).waiters()[response.sequence_id].notified(Ok(response.payload)),
        !final(handler).waiters().contains_key(response.sequence_id),
        other != response.sequence_id ==> {
            &&& final(handler).waiters().contains_key(other)
                == old(handler).waiters().contains_key(other)
            &&& final(handler).waiters()[other] == old(handler).waiters()[other]
        },
        final(handler).config() == old(handler).config(),
{
}

/// The same of a response that is handled by itself.
pub proof fn law_a_response_alone_is_handed_on(
    handler: &mut ConnectionHandler,
    response: Response,
    other: u32,
)
    requires
        call_ensures(ConnectionHandler::handle_response, (handler, response), ()),
    ensures
        old(handler).waiters().contains_key(response.sequence_id)
            ==> old(handler).waiters()[response.sequence_id].notified(Ok(response.payload)),
        !final(handler).waiters().contains_key(response.sequence_id),
        other != response.sequence_id ==> {
            &&& final(handler).waiters().contains_key(other)
                == old(handler).waiters().contains_key(other)
            &&& final(handler).waiters()[other] == old(handler).waiters()[other]
        },
        final(handler).config() == old(handler).config(),
{
}

/// An error frame tells whoever waits under its id a failure: the text of its payload, or, if that
/// is no text, why it is none. That one then waits no more. Everybody else waits on as before.
pub proof fn law_an_error_is_handed_on(
    handler: &mut ConnectionHandler,
    error: ErrorFrame,
    encoding: &'static str,
    r: Option<Result<Response, (LoquiError, u32)>>,
    other: u32,
)
    requires
        call_ensures(
            ConnectionHandler::handle_frame,
            (handler, DelegatedFrame::Error(error), encoding),
            r,
        ),
    ensures
        r is None,
        old(handler).waiters().contains_key(error.sequence_id) && valid_utf8(error.payload@)
            ==> exists|reason: String|
            {
                &&& reason@ == decode_utf8(error.payload@)
                &&& #[trigger] old(handler).waiters()[error.sequence_id].notified(
                    Err(Failure::Loqui(LoquiError::Remote { reason })),
                )
            },
        old(handler).waiters().contains_key(error.sequence_id) && !valid_utf8(error.payload@)
            ==> old(handler).waiters()[error.sequence_id].notified(
            Err(Failure::Loqui(LoquiError::InvalidReason { error: utf8_failure(error.payload@) })),
        ),
        !final(handler).waiters().contains_key(error.sequence_id),
        other != error.sequence_id ==> {
            &&& final(handler).waiters().contains_key(other)
                == old(handler).waiters().contains_key(other)
            &&& final(handler).waiters()[other] == old(handler).waiters()[other]
        },
        final(handler).config() == old(handler).config(),
{
}

/// The same of an error frame that is handled by itself.
pub proof fn law_an_error_alone_is_handed_on(
    handler: &mut ConnectionHandler,
    error: ErrorFrame,
    other: u32,
)
    requires
        call_ensures(ConnectionHandler::handle_error, (handler, error), ()),
    ensures
        old(handler).waiters().contains_key(error.sequence_id) && valid_utf8(error.payload@)
            ==> exists|reason: String|
            {
                &&& reason@ == decode_utf8(error.payload@)
                &&& #[trigger] old(handler).waiters()[error.sequence_id].notified(
                    Err(Failure::Loqui(LoquiError::Remote { reason })),
                )
            },
        old(handler).waiters().contains_key(error.sequence_id) && !valid_utf8(error.payload@)
            ==> old(handler).waiters()[error.sequence_id].notified(
            Err(Failure::Loqui(LoquiError::InvalidReason { error: utf8_failure(error.payload@) })),
        ),
        !final(handler).waiters().contains_key(error.sequence_id),
        other != error.sequence_id ==> {
            &&& final(handler).waiters().contains_key(other)
                == old(handler).waiters().contains_key(other)
            &&& final(handler).waiters()[other] == old(handler).waiters()[other]
        },
        final(handler).config() == old(handler).config(),
{
}

/// A request or a push from the server is refused as a frame that has no place here, and concerns
/// no waiter.
pub proof fn law_requests_and_pushes_are_refused(
    handler: &mut ConnectionHandler,
    frame: DelegatedFrame,
    encoding: &'static str,
    r: Option<Result<Response, (LoquiError, u32)>>,
)
    requires
        call_ensures(ConnectionHandler::handle_frame, (handler, frame, encoding), r),
        frame is Push || frame is Request,
    ensures
        r == Some(
            Err::<Response, (LoquiError, u32)>(
                (LoquiError::InvalidOpcode { actual: 5, expected: None }, 0u32),
            ),
        ),
        final(handler).waiters() == old(handler).waiters(),
        final(handler).config() == old(handler).config(),
{
}

/// Whoever makes a request in time, under an id that nobody waits under, is handed the payload of
/// the response with that id, and the client is then as it was before the request.
pub proof fn law_a_request_and_its_response(
    requesting: &mut ConnectionHandler,
    payload: Vec<u8>,
    sequence_id: u32,
    waiter: ResponseWaiter,
    now: Instant,
    sent: Option<LoquiFrame>,
    responding: &mut ConnectionHandler,
    response: Response,
    encoding: &'static str,
    r: Option<Result<Response, (LoquiError, u32)>>,
)
    requires
        call_ensures(
            ConnectionHandler::send_request_at,
            (requesting, payload, sequence_id, waiter, now),
            sent,
        ),
        reading(waiter.deadline) > reading(now),
        !old(requesting).waiters().contains_key(sequence_id),
        *old(responding) == *final(requesting),
        call_ensures(
            ConnectionHandler::handle_frame,
            (responding, DelegatedFrame::Response(response), encoding),
            r,
        ),
        response.sequence_id == sequence_id,
    ensures
        sent == Some(LoquiFrame::Request(Request { payload, sequence_id, flags: 0 })),
        waiter.notified(Ok(response.payload)),
        final(responding).waiters() == old(requesting).waiters(),
        final(responding).config() == old(requesting).config(),
{
    assert(final(responding).waiters() =~= old(requesting).waiters());
}

/// Sweeping at `now` keeps whoever's deadline lies after `now`, as they are, and gives up
/// everybody else without a word.
pub proof fn law_a_sweep_keeps_the_living(
    handler: &mut ConnectionHandler,
    now: Instant,
    id: u32,
)
    requires
        call_ensures(ConnectionHandler::sweep, (handler, now), ()),
    ensures
        final(handler).waiters().contains_key(id) <==> old(handler).waiters().contains_key(id)
            && reading(old(handler).waiters()[id].deadline) > reading(now),
        final(handler).waiters().contains_key(id)
            ==> final(handler).waiters()[id] == old(handler).waiters()[id],
        old(handler).waiters().contains_key(id) && reading(old(handler).waiters()[id].deadline)
            <= reading(now) ==> old(handler).waiters()[id].dropped(),
        final(handler).config() == old(handler).config(),
{
}

/// A ping sweeps at the instant that the clock gives.
pub proof fn law_a_ping_sweeps_by_the_clock(handler: &mut ConnectionHandler)
    requires
        call_ensures(ConnectionHandler::on_ping_received, (handler,), ()),
    ensures
        exists|now: Instant|
            {
                &&& #[trigger] clock_read(now)
                &&& forall|id: u32|
                    {
                        &&& #[trigger] final(handler).waiters().contains_key(id)
                            <==> old(handler).waiters().contains_key(id)
                            && reading(old(handler).waiters()[id].deadline) > reading(now)
                        &&& final(handler).waiters().contains_key(id)
                            ==> final(handler).waiters()[id] == old(handler).waiters()[id]
                    }
                &&& forall|id: u32| #[trigger]
                    old(handler).waiters().contains_key(id) && reading(
                        old(handler).waiters()[id].deadline,
                    ) <= reading(now) ==> old(handler).waiters()[id].dropped()
            },
        final(handler).config() == old(handler).config(),
{
}

/// A new client has nobody waiting and the settings that it was given; the payload limit is that
/// of the settings; somebody is waiting exactly under the ids that have a waiter.
pub proof fn law_a_client_starts_empty(
    config: Config,
    client: ConnectionHandler,
    limit: ByteSize,
    id: u32,
    waiting: bool,
)
    requires
        call_ensures(ConnectionHandler::new, (config,), client),
        call_ensures(ConnectionHandler::max_payload_size, (&client,), limit),
        call_ensures(ConnectionHandler::is_waiting, (&client, id), waiting),
    ensures
        !client.waiters().contains_key(id),
        !waiting,
        client.config() == config,
        limit == config.max_payload_size,
{
}

/// Somebody is waiting under just those ids that have a waiter, and the payload limit is that of the
/// settings, at any time.
pub proof fn law_a_client_knows_who_waits(
    client: ConnectionHandler,
    id: u32,
    waiting: bool,
    limit: ByteSize,
)
    requires
        call_ensures(ConnectionHandler::is_waiting, (&client, id), waiting),
        call_ensures(ConnectionHandler::max_payload_size, (&client,), limit),
    ensures
        waiting <==> client.waiters().contains_key(id),
        limit == client.config().max_payload_size,
{
}

/// A client does not announce that it leaves.
pub proof fn law_no_go_away_is_sent()
    ensures
        !ConnectionHandler::SEND_GO_AWAY,
{
}

/// Whoever waits is handed the outcome that a waiter is notified of, as it is, or, when the waiter
/// is given up, nothing.
pub proof fn law_a_waiter_is_notified_or_given_up(waiter: ResponseWaiter, outcome: Outcome)
    ensures
        call_ensures(ResponseWaiter::notify, (waiter, outcome), ()) ==> waiter.notified(outcome),
        call_ensures(ResponseWaiter::forget, (waiter,), ()) ==> waiter.dropped(),
{
}

/// A new waiter has the deadline that it was given, and answers at the end that it comes with and
/// at no other.
pub proof fn law_a_waiter_has_its_deadline(
    deadline: Instant,
    r: (ResponseWaiter, Receiver<Outcome>),
    now: Instant,
    live: bool,
    rx: Receiver<Outcome>,
)
    requires
        call_ensures(ResponseWaiter::new, (deadline,), r),
        call_ensures(ResponseWaiter::is_live, (&r.0, now), live),
    ensures
        r.0.deadline == deadline,
        answers(r.0.tx, rx) <==> rx == r.1,
        live <==> reading(deadline) > reading(now),
{
}

/// An upgrade asks for a response; a stream that cannot be written to is closed; after that the
/// answer decides alone.
pub proof fn law_an_upgrade_needs_a_response<E>(
    handler: ConnectionHandler,
    begun: (UpgradeFrame, UpgradeRequested),
    written: Result<(), E>,
    going: Result<UpgradeAwaited, LoquiError>,
    answer: Option<Result<UpgradeFrame, E>>,
    r: Result<(), Failure<E>>,
)
    requires
        call_ensures(ConnectionHandler::upgrade, (&handler,), begun),
        call_ensures(UpgradeRequested::written::<E>, (begun.1, written), going),
        going is Ok ==> call_ensures(UpgradeAwaited::received::<E>, (going->Ok_0, answer), r),
    ensures
        begun.0 == UpgradeFrame::Request,
        going is Ok <==> written is Ok,
        going matches Err(e) ==> e == LoquiError::TcpStreamClosed,
        going is Ok ==> {
            &&& r is Ok <==> answer == Some(Ok::<UpgradeFrame, E>(UpgradeFrame::Response))
            &&& answer == Some(Ok::<UpgradeFrame, E>(UpgradeFrame::Request)) ==> r == Err::<
                (),
                Failure<E>,
            >(
                Failure::Loqui(
                    LoquiError::InvalidUpgradeFrame { frame: UpgradeFrame::Request },
                ),
            )
            &&& answer matches Some(Err(e)) ==> r == Err::<(), Failure<E>>(Failure::Other(e))
            &&& answer is None ==> r == Err::<(), Failure<E>>(
                Failure::Loqui(LoquiError::TcpStreamClosed),
            )
        },
{
}

/// A hello announces version one and just the supported encodings, in their order, and no
/// compression. The client is left as it was, and the handshake goes on with the same encodings.
pub proof fn law_a_hello_offers_what_is_supported(
    handler: &mut ConnectionHandler,
    r: (Hello, HelloSent),
    i: int,
)
    requires
        call_ensures(ConnectionHandler::handshake, (handler,), r),
    ensures
        r.0.flags == 0,
        r.0.version == 1,
        r.0.compressions@.len() == 0,
        r.0.encodings@.len() == old(handler).config().supported_encodings@.len(),
        0 <= i < r.0.encodings@.len()
            ==> r.0.encodings@[i]@ == old(handler).config().supported_encodings@[i]@,
        r.1.supported_encodings == old(handler).config().supported_encodings,
        *final(handler) == *old(handler),
{
}

/// The same of a hello that is made by itself.
pub proof fn law_a_hello_alone_offers_what_is_supported(
    supported: &'static [&'static str],
    hello: Hello,
    i: int,
)
    requires
        call_ensures(make_hello, (supported,), hello),
    ensures
        hello.flags == 0,
        hello.version == 1,
        hello.compressions@.len() == 0,
        hello.encodings@.len() == supported@.len(),
        0 <= i < supported@.len() ==> hello.encodings@[i]@ == supported@[i]@,
{
}

/// The handshake goes on with the stream if the hello was written, and has lost it if not.
pub proof fn law_a_lost_hello_loses_the_stream<S, E>(
    sent: HelloSent,
    written: Result<S, E>,
    r: Result<(AckAwaited, S), (Failure<E>, Option<S>)>,
)
    requires
        call_ensures(HelloSent::written::<S, E>, (sent, written), r),
    ensures
        written matches Ok(stream) ==> {
            &&& r matches Ok(going)
            &&& going.0.supported_encodings == sent.supported_encodings
            &&& going.1 == stream
        },
        written matches Err(e) ==> {
            &&& r matches Err(failed)
            &&& failed.0 == Failure::Other(e)
            &&& failed.1 is None
        },
{
}

/// If the server acknowledges with a supported encoding and no compression, the handshake succeeds
/// with the stream, the encoding of that name and the ping interval that the server asks for.
pub proof fn law_a_good_acknowledgement_settles_the_handshake<S, E>(
    awaited: AckAwaited,
    ack: HelloAck,
    stream: S,
    r: Result<(Ready, S), (Failure<E>, Option<S>)>,
    picked: int,
)
    requires
        call_ensures(
            AckAwaited::received::<S, E>,
            (awaited, Some(Ok::<LoquiFrame, E>(LoquiFrame::HelloAck(ack))), stream),
            r,
        ),
        0 <= picked < awaited.supported_encodings@.len(),
        awaited.supported_encodings@[picked]@ == ack.encoding@,
        ack.compression is None,
    ensures
        r is Ok,
        r->Ok_0.0.ping_interval == millis(ack.ping_interval_ms as u64),
        r->Ok_0.0.encoding@ == ack.encoding@,
        awaited.supported_encodings@.contains(r->Ok_0.0.encoding),
        r->Ok_0.1 == stream,
{
}

/// An acknowledgement with an encoding that is not supported fails for that, and one with a
/// compression and a supported encoding for that. The stream comes back.
pub proof fn law_a_bad_acknowledgement_fails_the_handshake<S, E>(
    awaited: AckAwaited,
    ack: HelloAck,
    stream: S,
    r: Result<(Ready, S), (Failure<E>, Option<S>)>,
)
    requires
        call_ensures(
            AckAwaited::received::<S, E>,
            (awaited, Some(Ok::<LoquiFrame, E>(LoquiFrame::HelloAck(ack))), stream),
            r,
        ),
    ensures
        (forall|i: int|
            0 <= i < awaited.supported_encodings@.len()
                ==> #[trigger] awaited.supported_encodings@[i]@ != ack.encoding@) ==> r == Err::<
            (Ready, S),
            (Failure<E>, Option<S>),
        >((Failure::Loqui(LoquiError::InvalidEncoding), Some(stream))),
        ack.compression is Some && (exists|i: int|
            0 <= i < awaited.supported_encodings@.len()
                && #[trigger] awaited.supported_encodings@[i]@ == ack.encoding@) ==> r == Err::<
            (Ready, S),
            (Failure<E>, Option<S>),
        >((Failure::Loqui(LoquiError::InvalidCompression), Some(stream))),
{
}

/// Without an acknowledgement the handshake fails and the stream comes back: for being turned
/// away, for a frame that has no place here, for the stream's own error, or for the end of the
/// stream.
pub proof fn law_no_acknowledgement_fails_the_handshake<S, E>(
    awaited: AckAwaited,
    received: Option<Result<LoquiFrame, E>>,
    stream: S,
    r: Result<(Ready, S), (Failure<E>, Option<S>)>,
    opcode: u8,
)
    requires
        call_ensures(AckAwaited::received::<S, E>, (awaited, received, stream), r),
    ensures
        received matches Some(Ok(LoquiFrame::GoAway(go_away))) ==> r == Err::<
            (Ready, S),
            (Failure<E>, Option<S>),
        >((Failure::Loqui(LoquiError::ToldToGoAway { go_away }), Some(stream))),
        received matches Some(Ok(frame)) && !(frame is HelloAck) && !(frame is GoAway)
            && call_ensures(LoquiFrame::opcode, (&frame,), opcode) ==> r == Err::<
            (Ready, S),
            (Failure<E>, Option<S>),
        >(
            (
                Failure::Loqui(LoquiError::InvalidOpcode { actual: opcode, expected: Some(2u8) }),
                Some(stream),
            ),
        ),
        received matches Some(Err(e)) ==> r == Err::<(Ready, S), (Failure<E>, Option<S>)>(
            (Failure::Other(e), Some(stream)),
        ),
        received is None ==> r == Err::<(Ready, S), (Failure<E>, Option<S>)>(
            (Failure::Loqui(LoquiError::TcpStreamClosed), Some(stream)),
        ),
        r is Ok ==> received matches Some(Ok(LoquiFrame::HelloAck(_))),
{
}

/// From the hello on: a server that picks any of the offered encodings, and no compression, gets a
/// connection that speaks it and pings as often as the server asks.
pub proof fn law_a_handshake_settles_on_what_was_offered<S, E>(
    handler: &mut ConnectionHandler,
    begun: (Hello, HelloSent),
    stream: S,
    going: Result<(AckAwaited, S), (Failure<E>, Option<S>)>,
    ack: HelloAck,
    picked: int,
    r: Result<(Ready, S), (Failure<E>, Option<S>)>,
)
    requires
        call_ensures(ConnectionHandler::handshake, (handler,), begun),
        call_ensures(HelloSent::written::<S, E>, (begun.1, Ok::<S, E>(stream)), going),
        going is Ok,
        0 <= picked < begun.0.encodings@.len(),
        ack.encoding@ == begun.0.encodings@[picked]@,
        ack.compression is None,
        call_ensures(
            AckAwaited::received::<S, E>,
            (going->Ok_0.0, Some(Ok::<LoquiFrame, E>(LoquiFrame::HelloAck(ack))), going->Ok_0.1),
            r,
        ),
    ensures
        r is Ok,
        r->Ok_0.0.ping_interval == millis(ack.ping_interval_ms as u64),
        r->Ok_0.0.encoding@ == begun.0.encodings@[picked]@,
        r->Ok_0.1 == stream,
{
    law_a_hello_offers_what_is_supported(handler, begun, picked);
    law_a_good_acknowledgement_settles_the_handshake(
        going->Ok_0.0,
        ack,
        going->Ok_0.1,
        r,
        picked,
    );
}

/// What the answer to a frame settles, the answer to the acknowledgement in it settles too.
pub proof fn law_an_acknowledgement_is_answered(
    ack: HelloAck,
    supported: &'static [&'static str],
    in_frame: Result<Ready, LoquiError>,
    alone: Result<Ready, LoquiError>,
    picked: int,
)
    requires
        call_ensures(
            handle_handshake_frame,
            (LoquiFrame::HelloAck(ack), supported),
            in_frame,
        ),
        call_ensures(handle_handshake_hello_ack, (ack, supported), alone),
        0 <= picked < supported@.len(),
        supported@[picked]@ == ack.encoding@,
    ensures
        in_frame is Ok <==> ack.compression is None,
        alone is Ok <==> ack.compression is None,
        in_frame matches Ok(ready) ==> ready.ping_interval == millis(ack.ping_interval_ms as u64)
            && ready.encoding@ == ack.encoding@,
        alone matches Ok(ready) ==> ready.ping_interval == millis(ack.ping_interval_ms as u64)
            && ready.encoding@ == ack.encoding@,
        in_frame matches Err(e) ==> e == LoquiError::InvalidCompression,
        alone matches Err(e) ==> e == LoquiError::InvalidCompression,
{
}

/// An acknowledgement with an encoding that is not supported is refused for that, by itself and in
/// a frame, whatever else it holds.
pub proof fn law_an_unknown_encoding_is_refused(
    ack: HelloAck,
    supported: &'static [&'static str],
    in_frame: Result<Ready, LoquiError>,
    alone: Result<Ready, LoquiError>,
)
    requires
        forall|i: int| 0 <= i < supported@.len() ==> #[trigger] supported@[i]@ != ack.encoding@,
    ensures
        call_ensures(handle_handshake_frame, (LoquiFrame::HelloAck(ack), supported), in_frame)
            ==> in_frame == Err::<Ready, LoquiError>(LoquiError::InvalidEncoding),
        call_ensures(handle_handshake_hello_ack, (ack, supported), alone) ==> alone == Err::<
            Ready,
            LoquiError,
        >(LoquiError::InvalidEncoding),
{
}

/// A frame that is no acknowledgement settles nothing: a go-away is passed on as it is, and any
/// other frame is refused by its number.
pub proof fn law_only_an_acknowledgement_settles(
    frame: LoquiFrame,
    supported: &'static [&'static str],
    r: Result<Ready, LoquiError>,
    opcode: u8,
)
    requires
        call_ensures(handle_handshake_frame, (frame, supported), r),
        call_ensures(LoquiFrame::opcode, (&frame,), opcode),
        !(frame is HelloAck),
    ensures
        frame matches LoquiFrame::GoAway(go_away) ==> r == Err::<Ready, LoquiError>(
            LoquiError::ToldToGoAway { go_away },
        ),
        !(frame is GoAway) ==> r == Err::<Ready, LoquiError>(
            LoquiError::InvalidOpcode { actual: opcode, expected: Some(2u8) },
        ),
{
}

/// An encoding is found if and only if a supported one has its name, and what is found has it.
pub proof fn law_an_encoding_is_found_by_its_name(
    encoding: String,
    supported: &'static [&'static str],
    r: Option<&'static str>,
    i: int,
)
    requires
        call_ensures(find_encoding, (&encoding, supported), r),
    ensures
        0 <= i < supported@.len() && supported@[i]@ == encoding@ ==> r is Some,
        r matches Some(found) ==> found@ == encoding@ && supported@.contains(found),
{
}

/// A request that an error frame answers always fails: with the text of the frame's payload, or,
/// if that is no text, with why it is none.
pub proof fn law_an_error_frame_is_a_failure(payload: Vec<u8>, r: Outcome)
    requires
        call_ensures(error_outcome, (payload,), r),
    ensures
        valid_utf8(payload@) ==> (r matches Err(Failure::Loqui(LoquiError::Remote { reason }))
            && reason@ == decode_utf8(payload@)),
        !valid_utf8(payload@) ==> r == Err::<Vec<u8>, Failure<failure::Error>>(
            Failure::Loqui(LoquiError::InvalidReason { error: utf8_failure(payload@) }),
        ),
{
}

/// The kinds of frames are numbered in this order, from one.
pub proof fn law_frames_are_numbered(frame: LoquiFrame, r: u8)
    requires
        call_ensures(LoquiFrame::opcode, (&frame,), r),
    ensures
        r == 1 <==> frame is Hello,
        r == 2 <==> frame is HelloAck,
        r == 3 <==> frame is Ping,
        r == 4 <==> frame is Pong,
        r == 5 <==> frame is Request,
        r == 6 <==> frame is Response,
        r == 7 <==> frame is Push,
        r == 8 <==> frame is GoAway,
        r == 9 <==> frame is Error,
{
}

} // verus!
