//! The requests of a client that await an answer.

use crate::client::config::Config;
use crate::client::handshake::{make_hello, offers, HelloSent};
use crate::client::upgrade::UpgradeRequested;
use crate::clock::{clock_read, read_clock};
use crate::error::{error_outcome, reports, Failure, LoquiError, Outcome};
use crate::frames::{
    DelegatedFrame, ErrorFrame, Hello, LoquiFrame, Push, Request, Response, UpgradeFrame,
};
use crate::sequence::{issues, IdSequence};
use crate::waiter::ResponseWaiter;
use bytesize::ByteSize;
use std::collections::HashMap;
use std::time::Instant;
use vstd::prelude::*;

verus! {

broadcast use vstd::std_specs::hash::group_hash_axioms;

/// What the users of a client ask of its connection.
pub enum InternalEvent {
    /// Send `payload` and tell `waiter` what comes of it.
    Request { payload: Vec<u8>, waiter: ResponseWaiter },
    /// Send `payload`.
    Push { payload: Vec<u8> },
}

/// The client's side of a connection: its settings, and who waits for an answer, by the sequence
/// id of the request.
pub struct ConnectionHandler {
    waiters: HashMap<u32, ResponseWaiter>,
    config: Config,
}

/// Those of `waiters` whose deadline is still to come at `now`.
pub open spec fn live_at(waiters: Map<u32, ResponseWaiter>, now: Instant) -> Map<
    u32,
    ResponseWaiter,
> {
    waiters.restrict(waiters.dom().filter(|id: u32| waiters[id].is_live_at(now)))
}

/// Sweeping at `now` turns the waiters `pre` into `post`: whoever's deadline has come is given up
/// without a word.
pub open spec fn swept(
    pre: Map<u32, ResponseWaiter>,
    now: Instant,
    post: Map<u32, ResponseWaiter>,
) -> bool {
    &&& post == live_at(pre, now)
    &&& forall|id: u32| #[trigger]
        pre.contains_key(id) && !pre[id].is_live_at(now) ==> pre[id].dropped()
}

/// At `now`, the request `payload` with the id `sequence_id` turns the waiters `pre` into `post`
/// and sends `frame`. Whoever waited under that id is given up without a word. A request whose
/// deadline has come is not sent: its waiter is told so.
pub open spec fn requested(
    pre: Map<u32, ResponseWaiter>,
    payload: Vec<u8>,
    sequence_id: u32,
    waiter: ResponseWaiter,
    now: Instant,
    post: Map<u32, ResponseWaiter>,
    frame: Option<LoquiFrame>,
) -> bool {
    if waiter.is_live_at(now) {
        &&& post == pre.insert(sequence_id, waiter)
        &&& pre.contains_key(sequence_id) ==> pre[sequence_id].dropped()
        &&& frame == Some(LoquiFrame::Request(Request { payload, sequence_id, flags: 0 }))
    } else {
        &&& post == pre
        &&& frame == None::<LoquiFrame>
        &&& waiter.notified(Err(Failure::Loqui(LoquiError::RequestTimeout)))
    }
}

/// `response` turns the waiters `pre` into `post`: whoever waits for it gets its payload and
/// waits no more.
pub open spec fn responded(
    pre: Map<u32, ResponseWaiter>,
    response: Response,
    post: Map<u32, ResponseWaiter>,
) -> bool {
    &&& post == pre.remove(response.sequence_id)
    &&& pre.contains_key(response.sequence_id) ==> pre[response.sequence_id].notified(
        Ok(response.payload),
    )
}

/// `error` turns the waiters `pre` into `post`: whoever waits for it learns the reason and waits
/// no more.
pub open spec fn refused(
    pre: Map<u32, ResponseWaiter>,
    error: ErrorFrame,
    post: Map<u32, ResponseWaiter>,
) -> bool {
    &&& post == pre.remove(error.sequence_id)
    &&& pre.contains_key(error.sequence_id) ==> exists|outcome: Outcome|
        reports(error.payload@, outcome) && #[trigger] pre[error.sequence_id].notified(outcome)
}

/// `frame` turns the waiters `pre` into `post`, and `r` is what it comes to, if anything: a client
/// serves no requests and takes no pushes.
pub open spec fn delegated(
    pre: Map<u32, ResponseWaiter>,
    frame: DelegatedFrame,
    post: Map<u32, ResponseWaiter>,
    r: Option<Result<Response, (LoquiError, u32)>>,
) -> bool {
    match frame {
        DelegatedFrame::Response(response) => responded(pre, response, post) && r is None,
        DelegatedFrame::Error(error) => refused(pre, error, post) && r is None,
        DelegatedFrame::Push(_) | DelegatedFrame::Request(_) => {
            &&& post == pre
            &&& r == Some(
                Err::<Response, (LoquiError, u32)>(
                    (
                        LoquiError::InvalidOpcode { actual: Request::OPCODE, expected: None },
                        0u32,
                    ),
                ),
            )
        },
    }
}

impl ConnectionHandler {
    /// A client does not announce that it leaves.
    pub const SEND_GO_AWAY: bool = false;

    /// Who waits for an answer, by the sequence id of the request.
    pub closed spec fn waiters(&self) -> Map<u32, ResponseWaiter> {
        self.waiters@
    }

    /// The client's settings.
    pub closed spec fn config(&self) -> Config {
        self.config
    }

    /// A handler that nobody waits on yet.
    pub fn new(config: Config) -> (r: Self)
        ensures
            r.waiters() == Map::<u32, ResponseWaiter>::empty(),
            r.config() == config,
    {
        Self { waiters: HashMap::new(), config }
    }

    /// The largest payload that a frame may carry.
    pub fn max_payload_size(&self) -> (r: ByteSize)
        ensures
            r == self.config().max_payload_size,
    {
        self.config.max_payload_size
    }

    /// Begins the upgrade of a stream: the message to write, and what to make of the stream's
    /// answer.
    pub fn upgrade(&self) -> (r: (UpgradeFrame, UpgradeRequested))
        ensures
            r.0 == UpgradeFrame::Request,
    {
        (UpgradeFrame::Request, UpgradeRequested {  })
    }

    /// Begins the handshake on an upgraded stream: the hello to write, and what to make of the
    /// stream's answer.
    pub fn handshake(&mut self) -> (r: (Hello, HelloSent))
        ensures
            *final(self) == *old(self),
            offers(r.0, old(self).config().supported_encodings@),
            r.1.supported_encodings == old(self).config().supported_encodings,
    {
        let supported_encodings = self.config.supported_encodings;
        (make_hello(supported_encodings), HelloSent { supported_encodings })
    }

    /// Whether somebody waits for an answer with the id `sequence_id`.
    pub fn is_waiting(&self, sequence_id: u32) -> (r: bool)
        ensures
            r == self.waiters().contains_key(sequence_id),
    {
        self.waiters.contains_key(&sequence_id)
    }

    /// Takes a frame of the established connection. What comes back, if anything, is what the
    /// frame comes to.
    pub fn handle_frame(&mut self, frame: DelegatedFrame, _encoding: &'static str) -> (r: Option<
        Result<Response, (LoquiError, u32)>,
    >)
        ensures
            final(self).config() == old(self).config(),
            delegated(old(self).waiters(), frame, final(self).waiters(), r),
    {
        match frame {
            DelegatedFrame::Response(response) => {
                self.handle_response(response);
                None
            },
            DelegatedFrame::Error(error) => {
                self.handle_error(error);
                None
            },
            DelegatedFrame::Push(_) | DelegatedFrame::Request(_) => Some(
                Err(
                    (LoquiError::InvalidOpcode { actual: Request::OPCODE, expected: None }, 0),
                ),
            ),
        }
    }

    /// Takes what a user of the client asks, and says which frame to send to the server, if any.
    /// A request takes the next id of `id_sequence`; a push takes none.
    pub fn handle_internal_event(
        &mut self,
        event: InternalEvent,
        id_sequence: &mut IdSequence,
    ) -> (r: Option<LoquiFrame>)
        requires
            event is Request ==> old(id_sequence)@ < u32::MAX,
        ensures
            final(self).config() == old(self).config(),
            match event {
                InternalEvent::Request { payload, waiter } => exists|id: u32, now: Instant|
                    {
                        &&& issues(old(id_sequence)@, id, final(id_sequence)@)
                        &&& #[trigger] clock_read(now)
                        &&& #[trigger] requested(
                            old(self).waiters(),
                            payload,
                            id,
                            waiter,
                            now,
                            final(self).waiters(),
                            r,
                        )
                    },
                InternalEvent::Push { payload } => {
                    &&& final(id_sequence)@ == old(id_sequence)@
                    &&& final(self).waiters() == old(self).waiters()
                    &&& r == Some(LoquiFrame::Push(Push { payload, flags: 0 }))
                },
            },
    {
        match event {
            InternalEvent::Request { payload, waiter } => {
                let sequence_id: u32 = id_sequence.next();
                self.send_request(payload, sequence_id, waiter)
            },
            InternalEvent::Push { payload } => self.send_push(payload),
        }
    }

    /// Forgets every waiter whose deadline has come.
    pub fn on_ping_received(&mut self)
        ensures
            final(self).config() == old(self).config(),
            exists|now: Instant| #[trigger]
                clock_read(now) && swept(old(self).waiters(), now, final(self).waiters()),
    {
        let now = read_clock();
        self.sweep(now);
    }

    /// Forgets every waiter whose deadline has come at `now`.
    pub fn sweep(&mut self, now: Instant)
        ensures
            final(self).config() == old(self).config(),
            swept(old(self).waiters(), now, final(self).waiters()),
    {
        let ghost before = self.waiters@;
        let mut dead: Vec<u32> = Vec::new();
        for id in ids: self.waiters.keys()
            invariant
                self.waiters@ == before,
                forall|k: int|
                    0 <= k < ids.index() ==> (#[trigger] before[*ids.seq()[k]].is_live_at(now)
                        || dead@.contains(*ids.seq()[k])),
                forall|k: int|
                    0 <= k < dead.len() ==> before.contains_key(#[trigger] dead[k])
                        && !before[dead[k]].is_live_at(now),
        {
            broadcast use vstd::seq_lib::lemma_seq_contains_after_push;

            assert(self.waiters@.dom().contains(*id)) by {
                assert(ids.seq().unref().to_set().contains(*id));
            }
            match self.waiters.get(id) {
                Some(waiter) => {
                    if !waiter.is_live(now) {
                        dead.push(*id);
                    }
                },
                None => {},
            }
        }
        assert(forall|id: u32| #[trigger]
            before.contains_key(id) ==> before[id].is_live_at(now) || dead@.contains(id));
        let mut i: usize = 0;
        while i < dead.len()
            invariant
                i <= dead.len(),
                self.config == old(self).config,
                forall|id: u32|
                    #[trigger] self.waiters@.contains_key(id) <==> before.contains_key(id)
                        && !dead@.take(i as int).contains(id),
                forall|id: u32| #[trigger]
                    self.waiters@.contains_key(id) ==> self.waiters@[id] == before[id],
                forall|k: int| 0 <= k < dead.len() ==> before.contains_key(#[trigger] dead@[k]),
                forall|k: int| 0 <= k < i ==> before[#[trigger] dead@[k]].dropped(),
            decreases dead.len() - i,
        {
            broadcast use vstd::seq_lib::lemma_seq_contains_after_push;

            assert(dead@.take(i + 1) == dead@.take(i as int).push(dead@[i as int]));
            match self.waiters.remove(&dead[i]) {
                Some(waiter) => {
                    waiter.forget();
                },
                None => {
                    assert(dead@.take(i as int).contains(dead@[i as int]));
                },
            }
            i += 1;
        }
        assert(dead@.take(i as int) == dead@);
        assert(self.waiters@ =~= live_at(before, now));
    }

    /// Sends a push.
    pub fn send_push(&mut self, payload: Vec<u8>) -> (r: Option<LoquiFrame>)
        ensures
            *final(self) == *old(self),
            r == Some(LoquiFrame::Push(Push { payload, flags: 0 })),
    {
        let push = Push { payload, flags: 0 };
        Some(LoquiFrame::Push(push))
    }

    /// Sends a request under the id `sequence_id`, unless its deadline has come.
    pub fn send_request(&mut self, payload: Vec<u8>, sequence_id: u32, waiter: ResponseWaiter) -> (r:
        Option<LoquiFrame>)
        ensures
            final(self).config() == old(self).config(),
            exists|now: Instant|
                #[trigger] clock_read(now) && requested(
                    old(self).waiters(),
                    payload,
                    sequence_id,
                    waiter,
                    now,
                    final(self).waiters(),
                    r,
                ),
    {
        let now = read_clock();
        self.send_request_at(payload, sequence_id, waiter, now)
    }

    /// Sends a request under the id `sequence_id` at `now`, unless its deadline has come.
    pub fn send_request_at(
        &mut self,
        payload: Vec<u8>,
        sequence_id: u32,
        waiter: ResponseWaiter,
        now: Instant,
    ) -> (r: Option<LoquiFrame>)
        ensures
            final(self).config() == old(self).config(),
            requested(
                old(self).waiters(),
                payload,
                sequence_id,
                waiter,
                now,
                final(self).waiters(),
                r,
            ),
    {
        if !waiter.is_live(now) {
            waiter.notify(Err(Failure::Loqui(LoquiError::RequestTimeout)));
            return None;
        }
        // Store the waiter so we can notify it when we get a response.
        match self.waiters.insert(sequence_id, waiter) {
            Some(replaced) => {
                replaced.forget();
            },
            None => {},
        }
        let request = Request { payload, sequence_id, flags: 0 };
        Some(LoquiFrame::Request(request))
    }

    /// Tells whoever waits for `response` what came.
    pub fn handle_response(&mut self, response: Response)
        ensures
            final(self).config() == old(self).config(),
            responded(old(self).waiters(), response, final(self).waiters()),
    {
        let Response { flags: _flags, sequence_id, payload } = response;
        match self.waiters.remove(&sequence_id) {
            Some(waiter) => {
                waiter.notify(Ok(payload));
            },
            None => {},
        }
    }

    /// Tells whoever waits for an answer with the id of `error` why there is none.
    pub fn handle_error(&mut self, error: ErrorFrame)
        ensures
            final(self).config() == old(self).config(),
            refused(old(self).waiters(), error, final(self).waiters()),
    {
        let ErrorFrame { sequence_id, payload, .. } = error;
        match self.waiters.remove(&sequence_id) {
            Some(waiter) => {
                waiter.notify(error_outcome(payload));
            },
            None => {},
        }
    }
}

/// Who waits, and the settings, are what the client holds.
proof fn law_a_client_is_what_it_holds(client: ConnectionHandler)
    ensures
        client.waiters() == client.waiters@,
        client.config() == client.config,
{
}

} // verus!
