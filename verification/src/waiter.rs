//! Whoever waits for what a request comes to.

use crate::clock::{is_later, later};
use crate::error::Outcome;
use futures::sync::oneshot::{self, Receiver, Sender};
use std::time::Instant;
use vstd::prelude::*;

verus! {

/// The sending end of a channel of `futures` that carries one value.
#[verifier::external_type_specification]
#[verifier::external_body]
#[verifier::reject_recursive_types(T)]
pub struct ExOneshotSender<T>(Sender<T>);

/// The receiving end of a channel of `futures` that carries one value.
#[verifier::external_type_specification]
#[verifier::external_body]
#[verifier::reject_recursive_types(T)]
pub struct ExOneshotReceiver<T>(Receiver<T>);

/// `rx` is the receiving end of the channel that `tx` sends on.
pub uninterp spec fn answers(tx: Sender<Outcome>, rx: Receiver<Outcome>) -> bool;

/// `futures::sync::oneshot::channel`: the two ends belong to one channel, and no other end does,
/// since neither can be copied.
#[verifier::external_body]
pub(crate) fn outcome_channel() -> (r: (Sender<Outcome>, Receiver<Outcome>))
    ensures
        answers(r.0, r.1),
        forall|rx: Receiver<Outcome>| #[trigger] answers(r.0, rx) ==> rx == r.1,
{
    oneshot::channel()
}

/// `futures::sync::oneshot::Sender::send`: what is not taken is handed back unchanged. Whether it
/// is taken depends on whether the receiving end still exists, and is left open.
#[verifier::external_body]
fn send_outcome(tx: Sender<Outcome>, outcome: Outcome) -> (r: Result<(), Outcome>)
    ensures
        r matches Err(back) ==> back == outcome,
{
    tx.send(outcome)
}

/// Gives up a value without a word: of a value of any type whatever, nothing can be asked before it
/// is dropped. A waiter's channel then closes with nothing on it.
pub(crate) fn let_go<T>(_value: T) {
}

/// Waits for what a request comes to, until its deadline.
#[derive(Debug)]
pub struct ResponseWaiter {
    pub tx: Sender<Outcome>,
    pub deadline: Instant,
}

impl ResponseWaiter {
    /// The waiter's channel can have been handed `outcome`. This can be proved only of an outcome
    /// that was handed to the channel; it does not say how often that was, but handing it over uses
    /// the waiter up.
    pub closed spec fn notified(self, outcome: Outcome) -> bool {
        exists|r: Result<(), Outcome>| call_ensures(send_outcome, (self.tx, outcome), r)
    }

    /// The waiter can have been given up without a word. This can be proved only of a waiter that
    /// was; giving it up uses it up, so it was not notified as well.
    pub closed spec fn dropped(self) -> bool {
        call_ensures(let_go::<ResponseWaiter>, (self,), ())
    }

    /// The deadline is still to come at `now`.
    pub open spec fn is_live_at(self, now: Instant) -> bool {
        later(self.deadline, now)
    }

    /// A waiter, and the end of its channel on which the outcome arrives.
    pub fn new(deadline: Instant) -> (r: (Self, Receiver<Outcome>))
        ensures
            r.0.deadline == deadline,
            answers(r.0.tx, r.1),
            forall|rx: Receiver<Outcome>| #[trigger] answers(r.0.tx, rx) ==> rx == r.1,
    {
        let (tx, rx) = outcome_channel();
        (Self { tx, deadline }, rx)
    }

    /// Whether the deadline is still to come at `now`.
    pub fn is_live(&self, now: Instant) -> (r: bool)
        ensures
            r == self.is_live_at(now),
    {
        is_later(self.deadline, now)
    }

    /// Tells whoever waits what the request came to. If nobody does any more, so be it.
    pub fn notify(self, outcome: Outcome)
        ensures
            self.notified(outcome),
    {
        // Only a call through a function value yields `call_ensures`, which `notified` speaks of.
        let send = send_outcome;
        let _taken = send(self.tx, outcome);
    }

    /// Gives up waiting without a word.
    pub fn forget(self)
        ensures
            self.dropped(),
    {
        // Only a call through a function value yields `call_ensures`, which `dropped` speaks of.
        let drop_it = let_go::<ResponseWaiter>;
        drop_it(self);
    }
}

/// A waiter is notified by sending on its channel, and in no other way.
proof fn law_notifying_is_sending(waiter: ResponseWaiter, outcome: Outcome)
    requires
        waiter.notified(outcome),
    ensures
        exists|r: Result<(), Outcome>| call_ensures(send_outcome, (waiter.tx, outcome), r),
{
}

/// A waiter is given up by dropping it, and in no other way.
proof fn law_giving_up_is_dropping(waiter: ResponseWaiter)
    requires
        waiter.dropped(),
    ensures
        call_ensures(let_go::<ResponseWaiter>, (waiter,), ()),
{
}

} // verus!
