//! What holds of a connection from one event to the next.

use crate::error::{Failure, LoquiError};
use crate::frames::LoquiFrame;
use crate::server::connection::{Event, EventHandler, HandleEventResult, Inner, Step};
use vstd::prelude::*;

verus! {

/// A stretch of a connection's life: the items that its events yielded, the states before and
/// after each, where the ids stood before the first and after each, and what each left to do.
pub struct Run<H: EventHandler, E> {
    pub items: Seq<Option<Result<Event, E>>>,
    pub before: Seq<Inner<H>>,
    pub after: Seq<Inner<H>>,
    pub positions: Seq<nat>,
    pub steps: Seq<Step<E>>,
}

impl<H: EventHandler, E> Run<H, E> {
    /// The item `i` was taken as a connection takes it.
    pub open spec fn takes(self, i: int) -> bool {
        Inner::takes(
            self.before[i],
            self.positions[i],
            self.items[i],
            self.after[i],
            self.positions[i + 1],
            self.steps[i],
        )
    }

    /// Nothing happened to the connection between the item `i` and the next, but for its ping
    /// handle, which whoever drives the connection may act on.
    pub open spec fn goes_on(self, i: int) -> bool {
        self.before[i + 1] == (Inner {
            ping_handle: self.before[i + 1].ping_handle,
            ..self.after[i]
        })
    }

    /// The items were taken one after the other.
    pub open spec fn valid(self) -> bool {
        &&& self.before.len() == self.items.len()
        &&& self.after.len() == self.items.len()
        &&& self.positions.len() == self.items.len() + 1
        &&& self.steps.len() == self.items.len()
        &&& forall|i: int| 0 <= i < self.items.len() ==> #[trigger] self.takes(i)
        &&& forall|i: int| 0 <= i < self.items.len() - 1 ==> #[trigger] self.goes_on(i)
    }

    /// The item `i` is an event.
    pub open spec fn is_event(self, i: int) -> bool {
        self.items[i] matches Some(Ok(_))
    }

    /// The item `i` is the peer's answer to a ping.
    pub open spec fn is_pong(self, i: int) -> bool {
        self.items[i] matches Some(Ok(Event::SocketReceive(LoquiFrame::Pong(_))))
    }

    /// The item `i` says that a ping is due.
    pub open spec fn is_due(self, i: int) -> bool {
        self.items[i] matches Some(Ok(Event::Ping))
    }

    /// The item `i` asks for a request.
    pub open spec fn is_request(self, i: int) -> bool {
        self.items[i] matches Some(Ok(Event::Request { .. }))
    }

    /// The id of the frame that the connection made and sent for the item `i`, if it made one that
    /// has an id: a request that it was asked for, or a ping that was due.
    pub open spec fn made_id(self, i: int) -> Option<u32> {
        match self.steps[i] {
            Step::Send(LoquiFrame::Request(request)) if self.is_request(i) => Some(
                request.sequence_id,
            ),
            Step::Send(LoquiFrame::Ping(ping)) if self.is_due(i) => Some(ping.sequence_id),
            _ => None,
        }
    }

    /// How many events are among the first `n` items.
    pub open spec fn events(self, n: nat) -> nat
        decreases n,
    {
        if n == 0 {
            0
        } else {
            self.events((n - 1) as nat) + if self.is_event(n - 1) {
                1nat
            } else {
                0nat
            }
        }
    }

    /// How many pings that were due were sent for the first `n` items.
    pub open spec fn pings_sent(self, n: nat) -> nat
        decreases n,
    {
        if n == 0 {
            0
        } else {
            self.pings_sent((n - 1) as nat) + if self.is_due(n - 1) && self.steps[n - 1] is Send {
                1nat
            } else {
                0nat
            }
        }
    }

    /// How many answers to pings are among the first `n` items.
    pub open spec fn pongs_received(self, n: nat) -> nat
        decreases n,
    {
        if n == 0 {
            0
        } else {
            self.pongs_received((n - 1) as nat) + if self.is_pong(n - 1) {
                1nat
            } else {
                0nat
            }
        }
    }
}

/// As long as the last ping has not been answered, every further ping that is due times out.
pub proof fn law_an_unanswered_ping_times_out<H: EventHandler, E>(run: Run<H, E>, n: int)
    requires
        run.valid(),
        0 <= n < run.items.len(),
        !run.before[0].pong_received,
        forall|i: int| 0 <= i < n ==> !#[trigger] run.is_pong(i),
        run.is_due(n),
    ensures
        run.steps[n] == Step::<E>::EventFailed(Failure::Loqui(LoquiError::PingTimeout)),
{
    lemma_no_pong(run, n);
    assert(run.takes(n));
}

/// Without an answer, the last ping stays unanswered.
proof fn lemma_no_pong<H: EventHandler, E>(run: Run<H, E>, n: int)
    requires
        run.valid(),
        0 <= n < run.items.len(),
        !run.before[0].pong_received,
        forall|i: int| 0 <= i < n ==> !#[trigger] run.is_pong(i),
    ensures
        !run.before[n].pong_received,
    decreases n,
{
    if n > 0 {
        lemma_no_pong(run, n - 1);
        assert(run.takes(n - 1) && run.goes_on(n - 1) && !run.is_pong(n - 1));
    }
}

/// Once a ping has been answered, the next one that is due is sent, under the id of its event.
pub proof fn law_an_answered_ping_lets_the_next_one_go<H: EventHandler, E>(run: Run<H, E>, n: int)
    requires
        run.valid(),
        0 < n < run.items.len(),
        run.is_pong(0),
        forall|i: int| 0 < i < n ==> !#[trigger] run.is_due(i),
        run.is_due(n),
    ensures
        run.steps[n] matches Step::Send(LoquiFrame::Ping(ping)) && ping.sequence_id
            == run.positions[n] && ping.flags == 0,
        !run.after[n].pong_received,
{
    lemma_answered(run, n);
    assert(run.takes(n));
}

/// Without a further ping, the last one stays answered.
proof fn lemma_answered<H: EventHandler, E>(run: Run<H, E>, n: int)
    requires
        run.valid(),
        0 < n < run.items.len(),
        run.is_pong(0),
        forall|i: int| 0 < i < n ==> !#[trigger] run.is_due(i),
    ensures
        run.before[n].pong_received,
    decreases n,
{
    if n > 1 {
        lemma_answered(run, n - 1);
        assert(!run.is_due(n - 1));
    }
    assert(run.takes(n - 1) && run.goes_on(n - 1));
}

/// Of the pings that were due and sent, at most one is unanswered at any time.
pub proof fn law_at_most_one_ping_is_unanswered<H: EventHandler, E>(run: Run<H, E>, n: nat)
    requires
        run.valid(),
        n <= run.items.len(),
    ensures
        run.pings_sent(n) <= run.pongs_received(n) + 1,
{
    if n > 0 {
        lemma_ping_balance(run, n);
    }
}

/// Every ping that was sent used up an answer, or the one that a connection starts with.
proof fn lemma_ping_balance<H: EventHandler, E>(run: Run<H, E>, n: nat)
    requires
        run.valid(),
        0 < n <= run.items.len(),
    ensures
        run.pings_sent(n) + (if run.after[n - 1].pong_received {
            1int
        } else {
            0int
        }) <= run.pongs_received(n) + 1,
    decreases n,
{
    reveal_with_fuel(Run::pings_sent, 2);
    reveal_with_fuel(Run::pongs_received, 2);
    if n > 1 {
        lemma_ping_balance(run, (n - 1) as nat);
        assert(run.goes_on(n - 2));
    }
    assert(run.takes(n - 1));
}

/// The ids stand as many places further on as there have been events.
proof fn lemma_positions_count_events<H: EventHandler, E>(run: Run<H, E>, n: nat)
    requires
        run.valid(),
        n <= run.items.len(),
    ensures
        run.positions[n as int] == run.positions[0] + run.events(n),
    decreases n,
{
    if n > 0 {
        lemma_positions_count_events(run, (n - 1) as nat);
        assert(run.takes(n - 1));
    }
}

/// Each event is handled under an id of its own, and these count the events: with ids that start
/// at `1`, the first event is handled under `1`, the second under `2`, and so on. Items that are
/// no events use up none.
pub proof fn law_ids_count_the_events<H: EventHandler, E>(run: Run<H, E>, event: Event, n: nat)
    requires
        run.valid(),
        n < run.items.len(),
        run.items[n as int] == Some(Ok::<Event, E>(event)),
    ensures
        exists|id: u32, answer: HandleEventResult|
            {
                &&& id == run.positions[0] + run.events(n)
                &&& #[trigger] Inner::handles(
                    run.before[n as int],
                    event,
                    id,
                    run.after[n as int],
                    answer,
                )
                &&& run.steps[n as int] == Step::<E>::after(answer)
            },
{
    lemma_positions_count_events(run, n);
    assert(run.takes(n as int));
}

/// The requests and the pings that a connection makes itself carry ids that are all different: a
/// later one has the larger id. This does not speak of frames that it was handed to send as they
/// are.
pub proof fn law_later_frames_have_larger_ids<H: EventHandler, E>(run: Run<H, E>, i: int, j: int)
    requires
        run.valid(),
        0 <= i < j < run.items.len(),
        run.made_id(i) is Some,
        run.made_id(j) is Some,
    ensures
        run.made_id(i)->0 < run.made_id(j)->0,
{
    lemma_positions_grow(run, i + 1, j);
    assert(run.takes(i) && run.takes(j));
}

/// No item takes the ids back.
proof fn lemma_positions_grow<H: EventHandler, E>(run: Run<H, E>, i: int, j: int)
    requires
        run.valid(),
        0 <= i <= j <= run.items.len(),
    ensures
        run.positions[i] <= run.positions[j],
    decreases j - i,
{
    if i < j {
        lemma_positions_grow(run, i, j - 1);
        assert(run.takes(j - 1));
    }
}

/// Every request that a connection is asked for is sent, under the id of its event.
pub proof fn law_requests_are_sent<H: EventHandler, E>(run: Run<H, E>, i: int)
    requires
        run.valid(),
        0 <= i < run.items.len(),
        run.is_request(i),
    ensures
        run.made_id(i) is Some,
        run.made_id(i)->0 == run.positions[i],
{
    assert(run.takes(i));
}

/// In a run, every frame from the peer that is not a ping, a pong or a go-away is left to the
/// handler as it is, and what the handler answers is done: a frame is sent, whatever it is, a
/// failure is reported, and without either the connection waits. The rest of the connection is as
/// before.
pub proof fn law_delegated_frames_reach_the_handler<H: EventHandler, E>(
    run: Run<H, E>,
    frame: LoquiFrame,
    i: int,
)
    requires
        run.valid(),
        0 <= i < run.items.len(),
        run.items[i] == Some(Ok::<Event, E>(Event::SocketReceive(frame))),
        frame is Hello || frame is HelloAck || frame is Request || frame is Response
            || frame is Push || frame is Error,
    ensures
        exists|answer: HandleEventResult|
            {
                &&& #[trigger] H::received(
                    run.before[i].event_handler,
                    frame,
                    run.after[i].event_handler,
                    answer,
                )
                &&& answer matches Ok(Some(reply)) ==> run.steps[i] == Step::<E>::Send(reply)
                &&& answer matches Ok(None) ==> run.steps[i] == Step::<E>::Wait
                &&& answer matches Err(e) ==> run.steps[i] == Step::<E>::EventFailed(e)
            },
        run.after[i].pong_received == run.before[i].pong_received,
        run.after[i].ping_handle == run.before[i].ping_handle,
{
    assert(run.takes(i));
}

/// In a run, what is to be sent is sent: a push with its payload, a frame as it is, a request with
/// its payload and under the id of its event, and for a ping from the peer its pong.
pub proof fn law_what_a_run_is_asked_to_send_is_sent<H: EventHandler, E>(
    run: Run<H, E>,
    event: Event,
    i: int,
)
    requires
        run.valid(),
        0 <= i < run.items.len(),
        run.items[i] == Some(Ok::<Event, E>(event)),
    ensures
        event matches Event::Push { payload } ==> {
            &&& run.steps[i] matches Step::Send(LoquiFrame::Push(push))
            &&& push.payload == payload
            &&& push.flags == 0
        },
        event matches Event::SendFrame(frame) ==> run.steps[i] == Step::<E>::Send(frame),
        event matches Event::Request { payload, .. } ==> {
            &&& run.steps[i] matches Step::Send(LoquiFrame::Request(request))
            &&& request.payload == payload
            &&& request.sequence_id == run.positions[i]
            &&& request.flags == 0
        },
        event matches Event::SocketReceive(LoquiFrame::Ping(ping)) ==> {
            &&& run.steps[i] matches Step::Send(LoquiFrame::Pong(pong))
            &&& pong.sequence_id == ping.sequence_id
            &&& pong.flags == ping.flags
        },
{
    assert(run.takes(i));
}

} // verus!
