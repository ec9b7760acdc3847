//! The one-shot trigger.

use vstd::prelude::*;
use crate::error::Error;
use crate::keys::Blockhash;

verus! {

/// A latch that is armed once and stays armed.
#[derive(Debug)]
pub struct TriggerLatch {
    armed: bool,
}

impl TriggerLatch {
    /// Whether the latch has been armed.
    pub closed spec fn armed(&self) -> bool {
        self.armed
    }

    /// A latch that is not armed.
    pub fn new() -> (r: TriggerLatch)
        ensures
            !r.armed(),
    {
        TriggerLatch { armed: false }
    }

    /// Whether the latch has been armed.
    pub fn is_armed(&self) -> (r: bool)
        ensures
            r == self.armed(),
    {
        self.armed
    }

    /// Arms the latch, and says whether this call is the one that armed it.
    pub fn arm(&mut self) -> (first: bool)
        ensures
            final(self).armed(),
            first == !old(self).armed(),
    {
        let first = !self.armed;
        self.armed = true;
        first
    }
}

/// What the feed consumer is to do after a transaction.
#[derive(Clone, Copy, Debug, PartialEq, Eq)]
pub enum Reaction<T> {
    /// The transaction holds nothing of interest.
    Ignore,
    /// The transaction holds what is looked for, but an earlier one armed
    /// the latch: nothing is to be built or sent.
    Observed(T),
    /// The transaction is the first that holds what is looked for: act on
    /// it, against the block hash of the transaction.
    Dispatch { recent_blockhash: Blockhash, found: T },
}

/// The transition of a controller: from whether its latch is armed and what
/// a transaction was found to hold, to whether the latch is armed afterwards
/// and what is to be done. Only a transaction that holds what is looked for
/// arms the latch, and only the one that arms it is dispatched; a failure
/// leaves the latch as it was.
pub open spec fn react<T>(
    armed: bool,
    observed: Result<Option<T>, Error>,
    recent_blockhash: Blockhash,
) -> (bool, Result<Reaction<T>, Error>) {
    match observed {
        Err(e) => (armed, Err(e)),
        Ok(None) => (armed, Ok(Reaction::Ignore)),
        Ok(Some(found)) => (
            true,
            Ok(
                if armed {
                    Reaction::Observed(found)
                } else {
                    Reaction::Dispatch { recent_blockhash, found }
                },
            ),
        ),
    }
}

/// What a controller answers to a run of transactions, one after the other,
/// each given by what it was found to hold and its block hash.
pub open spec fn run<T>(armed: bool, events: Seq<(Result<Option<T>, Error>, Blockhash)>) -> Seq<
    Result<Reaction<T>, Error>,
>
    decreases events.len(),
{
    if events.len() == 0 {
        Seq::empty()
    } else {
        let (next, answer) = react(armed, events[0].0, events[0].1);
        seq![answer] + run(next, events.drop_first())
    }
}

/// How many of the answers ask for a dispatch.
pub open spec fn dispatches<T>(answers: Seq<Result<Reaction<T>, Error>>) -> nat
    decreases answers.len(),
{
    if answers.len() == 0 {
        0
    } else {
        let rest = dispatches(answers.drop_first());
        if answers[0] matches Ok(Reaction::Dispatch { .. }) {
            rest + 1
        } else {
            rest
        }
    }
}

/// A controller whose latch is armed never asks for a dispatch again.
pub proof fn lemma_armed_never_dispatches<T>(events: Seq<(Result<Option<T>, Error>, Blockhash)>)
    ensures
        dispatches(run(true, events)) == 0,
    decreases events.len(),
{
    if events.len() > 0 {
        let (next, answer) = react(true, events[0].0, events[0].1);
        assert(next);
        lemma_armed_never_dispatches(events.drop_first());
        assert(run(true, events).drop_first() =~= run(true, events.drop_first()));
    }
}

/// Over any run of transactions a new controller asks for a dispatch once
/// if some transaction holds what is looked for, and never otherwise.
pub proof fn lemma_dispatches_once<T>(events: Seq<(Result<Option<T>, Error>, Blockhash)>)
    ensures
        dispatches(run(false, events)) <= 1,
        dispatches(run(false, events)) == 1 <==> exists|k: int|
            0 <= k < events.len() && (#[trigger] events[k]).0 matches Ok(Some(_)),
    decreases events.len(),
{
    if events.len() > 0 {
        let rest = events.drop_first();
        let (next, answer) = react(false, events[0].0, events[0].1);
        assert(run(false, events).drop_first() =~= run(next, rest));
        if next {
            lemma_armed_never_dispatches(rest);
            assert(events[0].0 matches Ok(Some(_)));
        } else {
            lemma_dispatches_once(rest);
            if exists|k: int| 0 <= k < rest.len() && (#[trigger] rest[k]).0 matches Ok(Some(_)) {
                let k = choose|k: int|
                    0 <= k < rest.len() && (#[trigger] rest[k]).0 matches Ok(Some(_));
                assert(events[k + 1] == rest[k]);
            }
            if exists|k: int|
                0 <= k < events.len() && (#[trigger] events[k]).0 matches Ok(Some(_)) {
                let k = choose|k: int|
                    0 <= k < events.len() && (#[trigger] events[k]).0 matches Ok(Some(_));
                assert(k > 0);
                assert(rest[k - 1] == events[k]);
            }
        }
    }
}

/// Of two transactions that each hold what is looked for, given in turn to
/// a new controller, the first is dispatched and the second is only
/// observed.
pub proof fn lemma_second_is_observed<T>(
    first: (Result<Option<T>, Error>, Blockhash),
    second: (Result<Option<T>, Error>, Blockhash),
)
    requires
        first.0 matches Ok(Some(_)),
        second.0 matches Ok(Some(_)),
    ensures
        run(false, seq![first, second]).len() == 2,
        run(false, seq![first, second])[0] matches Ok(Reaction::Dispatch { .. }),
        run(false, seq![first, second])[1] matches Ok(Reaction::Observed(_)),
        dispatches(run(false, seq![first, second])) == 1,
{
    let events = seq![first, second];
    let tail = events.drop_first();
    assert(tail =~= seq![second]);
    assert(tail.drop_first() =~= Seq::empty());
    assert(run(true, tail.drop_first()) =~= Seq::empty());
    assert(run(true, tail).len() == 1);
    assert(run(false, events).len() == 2);
    assert(events[0].0 matches Ok(Some(_)));
    lemma_dispatches_once(events);
}

} // verus!
