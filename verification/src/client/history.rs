//! What holds of a client's requests from one step of a connection to the next.

use crate::client::connection_handler::{
    delegated, live_at, refused, requested, responded, swept,
};
use crate::error::{reports, LoquiError, Outcome};
use crate::frames::{DelegatedFrame, ErrorFrame, LoquiFrame, Request, Response};
use crate::clock::reading;
use crate::sequence::issues;
use crate::waiter::ResponseWaiter;
use std::time::Instant;
use vstd::prelude::*;

verus! {

/// The id of the request that `frame` answers, if it answers one.
pub open spec fn answered_id(frame: DelegatedFrame) -> Option<u32> {
    match frame {
        DelegatedFrame::Response(response) => Some(response.sequence_id),
        DelegatedFrame::Error(error) => Some(error.sequence_id),
        _ => None,
    }
}

/// Every one of `waiters` waits under an id below `next`.
pub open spec fn below(waiters: Map<u32, ResponseWaiter>, next: nat) -> bool {
    forall|id: u32| #[trigger] waiters.contains_key(id) ==> id < next
}

/// One step of a client's connection.
pub enum Move {
    /// A request was made.
    Request {
        payload: Vec<u8>,
        sequence_id: u32,
        waiter: ResponseWaiter,
        now: Instant,
        sent: Option<LoquiFrame>,
    },
    /// A frame came.
    Frame { frame: DelegatedFrame, result: Option<Result<Response, (LoquiError, u32)>> },
    /// The dead were swept.
    Sweep { now: Instant },
}

impl Move {
    /// This step turns the waiters `pre` into `post`.
    pub open spec fn leads(
        self,
        pre: Map<u32, ResponseWaiter>,
        post: Map<u32, ResponseWaiter>,
    ) -> bool {
        match self {
            Move::Request { payload, sequence_id, waiter, now, sent } => requested(
                pre,
                payload,
                sequence_id,
                waiter,
                now,
                post,
                sent,
            ),
            Move::Frame { frame, result } => delegated(pre, frame, post, result),
            Move::Sweep { now } => swept(pre, now, post),
        }
    }

    /// This step is the end of `waiter`, who waits under `id`: an answer to it, another request
    /// under its id, or a sweep past its deadline.
    pub open spec fn ends(self, id: u32, waiter: ResponseWaiter) -> bool {
        match self {
            Move::Request { sequence_id, .. } => sequence_id == id,
            Move::Frame { frame, .. } => answered_id(frame) == Some(id),
            Move::Sweep { now } => !waiter.is_live_at(now),
        }
    }
}

/// `moves` lead from each of `states` to the next.
pub open spec fn history(states: Seq<Map<u32, ResponseWaiter>>, moves: Seq<Move>) -> bool {
    &&& states.len() == moves.len() + 1
    &&& forall|i: int|
        #![trigger moves[i]]
        0 <= i < moves.len() ==> moves[i].leads(states[i], states[i + 1])
}

/// A request that was sent waits until a step comes that ends it, however many others come
/// before.
pub proof fn law_a_request_waits_until_it_ends(
    states: Seq<Map<u32, ResponseWaiter>>,
    moves: Seq<Move>,
    id: u32,
    waiter: ResponseWaiter,
    n: int,
)
    requires
        history(states, moves),
        states[0].contains_key(id),
        states[0][id] == waiter,
        0 <= n <= moves.len(),
        forall|i: int| 0 <= i < n ==> !(#[trigger] moves[i]).ends(id, waiter),
    ensures
        states[n].contains_key(id),
        states[n][id] == waiter,
    decreases n,
{
    if n > 0 {
        law_a_request_waits_until_it_ends(states, moves, id, waiter, n - 1);
        assert(moves[n - 1].leads(states[n - 1], states[n]));
    }
}

/// A response reaches whoever made the request with its id, however many steps lie between, as
/// long as none of them ended the request; and nobody waits under that id then.
pub proof fn law_a_response_reaches_its_request(
    before: Map<u32, ResponseWaiter>,
    payload: Vec<u8>,
    waiter: ResponseWaiter,
    now: Instant,
    request: Request,
    states: Seq<Map<u32, ResponseWaiter>>,
    moves: Seq<Move>,
    response: Response,
    after: Map<u32, ResponseWaiter>,
)
    requires
        requested(
            before,
            payload,
            request.sequence_id,
            waiter,
            now,
            states[0],
            Some(LoquiFrame::Request(request)),
        ),
        history(states, moves),
        forall|i: int|
            0 <= i < moves.len() ==> !(#[trigger] moves[i]).ends(request.sequence_id, waiter),
        response.sequence_id == request.sequence_id,
        responded(states.last(), response, after),
    ensures
        request.payload == payload,
        waiter.notified(Ok(response.payload)),
        !after.contains_key(request.sequence_id),
{
    law_a_request_waits_until_it_ends(
        states,
        moves,
        request.sequence_id,
        waiter,
        moves.len() as int,
    );
}

/// An error reaches whoever made the request with its id, however many steps lie between, as
/// long as none of them ended the request; and nobody waits under that id then.
pub proof fn law_an_error_reaches_its_request(
    before: Map<u32, ResponseWaiter>,
    payload: Vec<u8>,
    waiter: ResponseWaiter,
    now: Instant,
    request: Request,
    states: Seq<Map<u32, ResponseWaiter>>,
    moves: Seq<Move>,
    error: ErrorFrame,
    after: Map<u32, ResponseWaiter>,
)
    requires
        requested(
            before,
            payload,
            request.sequence_id,
            waiter,
            now,
            states[0],
            Some(LoquiFrame::Request(request)),
        ),
        history(states, moves),
        forall|i: int|
            0 <= i < moves.len() ==> !(#[trigger] moves[i]).ends(request.sequence_id, waiter),
        error.sequence_id == request.sequence_id,
        refused(states.last(), error, after),
    ensures
        exists|outcome: Outcome|
            reports(error.payload@, outcome) && #[trigger] waiter.notified(outcome),
        !after.contains_key(request.sequence_id),
{
    law_a_request_waits_until_it_ends(
        states,
        moves,
        request.sequence_id,
        waiter,
        moves.len() as int,
    );
}

/// Once a request is answered, further answers to it change nothing, until another request is
/// made under its id.
pub proof fn law_a_request_is_answered_once(
    before: Map<u32, ResponseWaiter>,
    answer: DelegatedFrame,
    result: Option<Result<Response, (LoquiError, u32)>>,
    id: u32,
    states: Seq<Map<u32, ResponseWaiter>>,
    moves: Seq<Move>,
    n: int,
)
    requires
        delegated(before, answer, states[0], result),
        answered_id(answer) == Some(id),
        history(states, moves),
        0 <= n < moves.len(),
        forall|i: int|
            0 <= i < n ==> ((#[trigger] moves[i]) matches Move::Request { sequence_id, .. }
                ==> sequence_id != id),
        moves[n] is Frame,
        answered_id(moves[n]->frame) == Some(id),
    ensures
        !states[n].contains_key(id),
        states[n + 1] == states[n],
{
    lemma_nobody_waits(states, moves, id, n);
    assert(moves[n].leads(states[n], states[n + 1]));
    assert(states[n + 1] =~= states[n]);
}

/// Nobody comes to wait under an id that no request is made under.
proof fn lemma_nobody_waits(
    states: Seq<Map<u32, ResponseWaiter>>,
    moves: Seq<Move>,
    id: u32,
    n: int,
)
    requires
        history(states, moves),
        !states[0].contains_key(id),
        0 <= n <= moves.len(),
        forall|i: int|
            0 <= i < n ==> ((#[trigger] moves[i]) matches Move::Request { sequence_id, .. }
                ==> sequence_id != id),
    ensures
        !states[n].contains_key(id),
    decreases n,
{
    if n > 0 {
        lemma_nobody_waits(states, moves, id, n - 1);
        assert(moves[n - 1].leads(states[n - 1], states[n]));
    }
}

/// A frame that answers nobody who waits changes nothing.
pub proof fn law_unknown_answers_change_nothing(
    before: Map<u32, ResponseWaiter>,
    frame: DelegatedFrame,
    after: Map<u32, ResponseWaiter>,
    result: Option<Result<Response, (LoquiError, u32)>>,
)
    requires
        answered_id(frame) matches Some(id) ==> !before.contains_key(id),
        delegated(before, frame, after, result),
    ensures
        after == before,
{
    assert(after =~= before);
}

/// Making a request and getting its response leaves the waiters as they were, but for whoever
/// waited under the same id before.
pub proof fn law_a_round_trip_leaves_no_trace(
    before: Map<u32, ResponseWaiter>,
    payload: Vec<u8>,
    sequence_id: u32,
    waiter: ResponseWaiter,
    now: Instant,
    between: Map<u32, ResponseWaiter>,
    request: LoquiFrame,
    response: Response,
    after: Map<u32, ResponseWaiter>,
)
    requires
        requested(before, payload, sequence_id, waiter, now, between, Some(request)),
        response.sequence_id == sequence_id,
        responded(between, response, after),
    ensures
        after == before.remove(sequence_id),
        !before.contains_key(sequence_id) ==> after == before,
        waiter.notified(Ok(response.payload)),
{
    assert(after =~= before.remove(sequence_id));
    if !before.contains_key(sequence_id) {
        assert(after =~= before);
    }
}

/// Sweeping keeps whoever can still be answered in time, as they are, and gives up everybody else
/// without a word.
pub proof fn law_sweeping_forgets_the_dead_alone(
    before: Map<u32, ResponseWaiter>,
    now: Instant,
    after: Map<u32, ResponseWaiter>,
    id: u32,
)
    requires
        swept(before, now, after),
        before.contains_key(id),
    ensures
        before[id].is_live_at(now) ==> after.contains_key(id) && after[id] == before[id],
        !before[id].is_live_at(now) ==> !after.contains_key(id) && before[id].dropped(),
{
}

/// At its deadline a waiter is dead, and from then on it stays so.
pub proof fn law_the_dead_stay_dead(waiter: ResponseWaiter, now: Instant, then: Instant)
    requires
        !waiter.is_live_at(now),
        reading(now) <= reading(then),
    ensures
        !waiter.is_live_at(waiter.deadline),
        !waiter.is_live_at(then),
{
}

/// Sweeping twice comes to sweeping once, at the later of the two instants.
pub proof fn law_only_the_last_sweep_counts(
    waiters: Map<u32, ResponseWaiter>,
    first: Instant,
    second: Instant,
)
    requires
        reading(first) <= reading(second),
    ensures
        live_at(live_at(waiters, first), second) == live_at(waiters, second),
{
    assert(live_at(live_at(waiters, first), second) =~= live_at(waiters, second));
}

/// As long as everybody waits under an id that the sequence has handed out, a request under its
/// next id takes nobody's place.
pub proof fn law_a_request_takes_nobodys_place(
    before: Map<u32, ResponseWaiter>,
    next: nat,
    payload: Vec<u8>,
    id: u32,
    waiter: ResponseWaiter,
    now: Instant,
    after: Map<u32, ResponseWaiter>,
    sent: Option<LoquiFrame>,
    next_after: nat,
)
    requires
        below(before, next),
        issues(next, id, next_after),
        requested(before, payload, id, waiter, now, after, sent),
    ensures
        !before.contains_key(id),
        before.submap_of(after),
{
}

/// In every state of a connection that starts with nobody waiting, and that takes its request ids
/// from one sequence, everybody waits under an id that the sequence has handed out. `positions`
/// are where the sequence stands in each state.
pub proof fn law_everybody_waits_under_an_issued_id(
    states: Seq<Map<u32, ResponseWaiter>>,
    positions: Seq<nat>,
    moves: Seq<Move>,
    n: int,
)
    requires
        history(states, moves),
        states[0] == Map::<u32, ResponseWaiter>::empty(),
        positions.len() == states.len(),
        forall|i: int|
            #![trigger moves[i]]
            0 <= i < moves.len() ==> match moves[i] {
                Move::Request { sequence_id, .. } => issues(
                    positions[i],
                    sequence_id,
                    positions[i + 1],
                ),
                _ => positions[i + 1] == positions[i],
            },
        0 <= n < states.len(),
    ensures
        below(states[n], positions[n]),
    decreases n,
{
    if n > 0 {
        law_everybody_waits_under_an_issued_id(states, positions, moves, n - 1);
        assert(moves[n - 1].leads(states[n - 1], states[n]));
    }
}

} // verus!
