//! The dispatcher: the same pool and block hash handed to every route.

use vstd::prelude::*;
use crate::config::RpcConfig;
use crate::error::Error;
use crate::keys::Blockhash;
use crate::meteora::SwapData;
use crate::tx_senders::transaction::TransactionConfig;
use crate::tx_senders::{
    configured_route, create_tx_sender, Reply, Route, Submission, TxResult, TxSender,
};

verus! {

/// The configured routes, in the order in which they were given.
pub struct Bench {
    pub rpcs: Vec<Route>,
}

impl Bench {
    /// The dispatcher of the routes that `rpc` names and describes. Every
    /// route builds from `tx_config` and shares its signing key.
    pub fn new(rpc: &Vec<(String, RpcConfig)>, tx_config: TransactionConfig) -> (r: Bench)
        ensures
            r.rpcs@.len() == rpc@.len(),
            forall|i: int|
                0 <= i < rpc@.len() ==> configured_route(
                    #[trigger] r.rpcs@[i],
                    rpc@[i].0,
                    rpc@[i].1,
                    tx_config,
                ),
    {
        let mut rpcs: Vec<Route> = Vec::new();
        let mut i: usize = 0;
        while i < rpc.len()
            invariant
                i <= rpc.len(),
                rpcs@.len() == i,
                forall|j: int|
                    0 <= j < i ==> configured_route(
                        #[trigger] rpcs@[j],
                        rpc@[j].0,
                        rpc@[j].1,
                        tx_config,
                    ),
            decreases rpc.len() - i,
        {
            let entry = &rpc[i];
            let rpc_config = RpcConfig {
                url: entry.1.url.clone(),
                auth: match &entry.1.auth {
                    Some(text) => Some(text.clone()),
                    None => None,
                },
                rpc_type: entry.1.rpc_type,
            };
            rpcs.push(create_tx_sender(entry.0.clone(), rpc_config, tx_config.clone()));
            i += 1;
        }
        Bench { rpcs }
    }

    /// What one route is to be sent for a pool.
    pub fn send_and_confirm_transaction(
        tx_index: u32,
        rpc_sender: &Route,
        recent_blockhash: Blockhash,
        swap_data: SwapData,
    ) -> (r: Result<Submission, Error>)
        ensures
            rpc_sender.prepares(recent_blockhash, swap_data, r),
    {
        rpc_sender.prepare(tx_index, recent_blockhash, swap_data)
    }

    /// What every route is to be sent for a pool: one entry for each route,
    /// in the order of the routes. A route that fails to build its
    /// transaction has its failure in its entry, and the other routes have
    /// what they would have had without it.
    pub fn send_swap_tx(&self, recent_blockhash: Blockhash, swap_data: SwapData) -> (r: Vec<
        Result<Submission, Error>,
    >)
        ensures
            r@.len() == self.rpcs@.len(),
            forall|i: int|
                0 <= i < self.rpcs@.len() ==> (#[trigger] self.rpcs@[i]).prepares(
                    recent_blockhash,
                    swap_data,
                    r@[i],
                ),
    {
        let mut prepared: Vec<Result<Submission, Error>> = Vec::new();
        let mut i: usize = 0;
        while i < self.rpcs.len()
            invariant
                i <= self.rpcs.len(),
                prepared@.len() == i,
                forall|j: int|
                    0 <= j < i ==> (#[trigger] self.rpcs@[j]).prepares(
                        recent_blockhash,
                        swap_data,
                        prepared@[j],
                    ),
            decreases self.rpcs.len() - i,
        {
            let index: u32 = 0;
            prepared.push(
                Self::send_and_confirm_transaction(index, &self.rpcs[i], recent_blockhash, swap_data),
            );
            i += 1;
        }
        prepared
    }

    /// The outcomes of a dispatch to the routes, none of which has resolved.
    pub fn start(&self) -> (r: Race)
        ensures
            r@.len() == self.rpcs@.len(),
            forall|i: int| 0 <= i < r@.len() ==> (#[trigger] r@[i]) is None,
    {
        Race::new(self.rpcs.len())
    }

    /// Takes the reply of the route at position `route` into the outcomes
    /// of a dispatch, as what the route makes of it, and says whether it was
    /// taken. The outcomes of the other routes stay as they are.
    pub fn finish(&self, race: &mut Race, route: usize, reply: Reply) -> (taken: bool)
        ensures
            taken == (route < self.rpcs@.len() && route < old(race)@.len() && old(
                race,
            )@[route as int] is None),
            route >= self.rpcs@.len() ==> final(race)@ == old(race)@,
            route < self.rpcs@.len() ==> exists|outcome: Result<TxResult, Error>|
                #![trigger self.rpcs@[route as int].answers(reply, outcome)]
                self.rpcs@[route as int].answers(reply, outcome) && final(race)@ == resolve(
                    old(race)@,
                    route as int,
                    outcome,
                ),
    {
        if route < self.rpcs.len() {
            let outcome = self.rpcs[route].complete(reply);
            race.record(route, outcome)
        } else {
            false
        }
    }

    /// What the reply of the route at position `route` means; `None` where
    /// there is no such route.
    pub fn complete(&self, route: usize, reply: Reply) -> (r: Option<Result<TxResult, Error>>)
        ensures
            match r {
                Some(outcome) => route < self.rpcs@.len() && self.rpcs@[route as int].answers(
                    reply,
                    outcome,
                ),
                None => route >= self.rpcs@.len(),
            },
    {
        if route < self.rpcs.len() {
            Some(self.rpcs[route].complete(reply))
        } else {
            None
        }
    }
}

/// The outcomes of one dispatch, route by route: nothing for a route that
/// has not resolved yet.
pub struct Race {
    outcomes: Vec<Option<Result<TxResult, Error>>>,
}

impl View for Race {
    type V = Seq<Option<Result<TxResult, Error>>>;

    closed spec fn view(&self) -> Seq<Option<Result<TxResult, Error>>> {
        self.outcomes@
    }
}

/// Every route has resolved.
pub open spec fn all_resolved(outcomes: Seq<Option<Result<TxResult, Error>>>) -> bool {
    forall|i: int| 0 <= i < outcomes.len() ==> (#[trigger] outcomes[i]) is Some
}

/// The outcomes after a route resolves. The first outcome of a route stays:
/// a route that has resolved, or that does not exist, changes nothing.
pub open spec fn resolve(
    outcomes: Seq<Option<Result<TxResult, Error>>>,
    route: int,
    outcome: Result<TxResult, Error>,
) -> Seq<Option<Result<TxResult, Error>>> {
    if 0 <= route < outcomes.len() && outcomes[route] is None {
        outcomes.update(route, Some(outcome))
    } else {
        outcomes
    }
}

impl Race {
    /// A dispatch to `routes` routes, none of which has resolved.
    pub fn new(routes: usize) -> (r: Race)
        ensures
            r@.len() == routes,
            forall|i: int| 0 <= i < routes ==> (#[trigger] r@[i]) is None,
    {
        let mut outcomes: Vec<Option<Result<TxResult, Error>>> = Vec::new();
        let mut i: usize = 0;
        while i < routes
            invariant
                i <= routes,
                outcomes@.len() == i,
                forall|j: int| 0 <= j < i ==> (#[trigger] outcomes@[j]) is None,
            decreases routes - i,
        {
            outcomes.push(None);
            i += 1;
        }
        Race { outcomes }
    }

    /// Takes the outcome of a route, and says whether it was taken: it is
    /// not where the route has resolved before or does not exist. The
    /// outcomes of the other routes stay as they are.
    pub fn record(&mut self, route: usize, outcome: Result<TxResult, Error>) -> (taken: bool)
        ensures
            final(self)@ == resolve(old(self)@, route as int, outcome),
            taken == (route < old(self)@.len() && old(self)@[route as int] is None),
    {
        if route < self.outcomes.len() && self.outcomes[route].is_none() {
            self.outcomes[route] = Some(outcome);
            true
        } else {
            false
        }
    }

    /// Whether every route has resolved. Only then is the dispatch over,
    /// however the routes that have resolved ended.
    pub fn is_complete(&self) -> (r: bool)
        ensures
            r == all_resolved(self@),
    {
        let mut i: usize = 0;
        while i < self.outcomes.len()
            invariant
                i <= self.outcomes.len(),
                forall|j: int| 0 <= j < i ==> (#[trigger] self.outcomes@[j]) is Some,
            decreases self.outcomes.len() - i,
        {
            if self.outcomes[i].is_none() {
                return false;
            }
            i += 1;
        }
        true
    }

    /// The outcome of a route, where the route exists and has resolved.
    pub fn outcome(&self, route: usize) -> (r: Option<&Result<TxResult, Error>>)
        ensures
            match r {
                Some(outcome) => route < self@.len() && self@[route as int] == Some(*outcome),
                None => route >= self@.len() || self@[route as int] is None,
            },
    {
        if route < self.outcomes.len() {
            self.outcomes[route].as_ref()
        } else {
            None
        }
    }
}

/// The outcomes after the routes of `order` resolve in turn, each with its
/// own outcome.
pub open spec fn resolve_all(
    outcomes: Seq<Option<Result<TxResult, Error>>>,
    order: Seq<(int, Result<TxResult, Error>)>,
) -> Seq<Option<Result<TxResult, Error>>>
    decreases order.len(),
{
    if order.len() == 0 {
        outcomes
    } else {
        resolve(resolve_all(outcomes, order.drop_last()), order.last().0, order.last().1)
    }
}

/// Resolving routes never takes an outcome away, and never changes one:
/// what a route ended with stays, whatever the other routes do after it.
pub proof fn lemma_outcomes_stay(
    outcomes: Seq<Option<Result<TxResult, Error>>>,
    order: Seq<(int, Result<TxResult, Error>)>,
)
    ensures
        resolve_all(outcomes, order).len() == outcomes.len(),
        forall|i: int|
            0 <= i < outcomes.len() && (#[trigger] outcomes[i]) is Some ==> resolve_all(
                outcomes,
                order,
            )[i] == outcomes[i],
    decreases order.len(),
{
    if order.len() > 0 {
        lemma_outcomes_stay(outcomes, order.drop_last());
    }
}

/// A dispatch is over only after every route has resolved: while some route
/// is not in `order`, the dispatch that started with no outcome is not
/// complete, whether the routes in `order` succeeded or failed.
pub proof fn lemma_complete_needs_every_route(
    outcomes: Seq<Option<Result<TxResult, Error>>>,
    order: Seq<(int, Result<TxResult, Error>)>,
    missing: int,
)
    requires
        0 <= missing < outcomes.len(),
        outcomes[missing] is None,
        forall|k: int| 0 <= k < order.len() ==> (#[trigger] order[k]).0 != missing,
    ensures
        resolve_all(outcomes, order)[missing] is None,
        !all_resolved(resolve_all(outcomes, order)),
    decreases order.len(),
{
    lemma_outcomes_stay(outcomes, order);
    if order.len() > 0 {
        let head = order.drop_last();
        assert forall|k: int| 0 <= k < head.len() implies (#[trigger] head[k]).0 != missing by {
            assert(head[k] == order[k]);
        }
        lemma_complete_needs_every_route(outcomes, head, missing);
        lemma_outcomes_stay(outcomes, head);
        assert(order.last() == order[order.len() - 1]);
    }
}

/// The route resolves somewhere in `order`.
pub open spec fn resolves_in(order: Seq<(int, Result<TxResult, Error>)>, route: int) -> bool {
    exists|k: int| 0 <= k < order.len() && (#[trigger] order[k]).0 == route
}

/// Once every route is in `order`, the dispatch is over, failures among
/// the outcomes or not.
pub proof fn lemma_every_route_completes(
    outcomes: Seq<Option<Result<TxResult, Error>>>,
    order: Seq<(int, Result<TxResult, Error>)>,
)
    requires
        forall|i: int| 0 <= i < outcomes.len() ==> #[trigger] resolves_in(order, i),
    ensures
        all_resolved(resolve_all(outcomes, order)),
{
    lemma_outcomes_stay(outcomes, order);
    assert forall|i: int| 0 <= i < outcomes.len() implies (#[trigger] resolve_all(
        outcomes,
        order,
    )[i]) is Some by {
        assert(resolves_in(order, i));
        let k = choose|k: int| 0 <= k < order.len() && (#[trigger] order[k]).0 == i;
        lemma_resolved_after(outcomes, order, k);
    }
}

/// A route that is in `order` has resolved after `order`.
proof fn lemma_resolved_after(
    outcomes: Seq<Option<Result<TxResult, Error>>>,
    order: Seq<(int, Result<TxResult, Error>)>,
    k: int,
)
    requires
        0 <= k < order.len(),
        0 <= order[k].0 < outcomes.len(),
    ensures
        resolve_all(outcomes, order)[order[k].0] is Some,
    decreases order.len(),
{
    let head = order.drop_last();
    lemma_outcomes_stay(outcomes, head);
    assert(order.last() == order[order.len() - 1]);
    if k < order.len() - 1 {
        assert(head[k] == order[k]);
        lemma_resolved_after(outcomes, head, k);
    }
}

} // verus!
