use crate::load_balancer::decision_engine::{decided_policy, DecisionEngine, Rule};
use crate::load_balancer::strategy::{default_constructor, LoadBalancingPolicy};
use vstd::prelude::*;

verus! {

/// Least connections for up to five workers, round robin above.
pub struct Engine1 {
    rules: Vec<Rule>,
}

impl Default for Engine1 {
    fn default() -> (e: Self)
        ensures
            e.rule_list() == seq![Rule::WorkerCount { max_workers: 5 }],
    {
        let mut rules = Vec::new();
        rules.push(Rule::WorkerCount { max_workers: 5 });
        Self { rules }
    }
}

impl DecisionEngine for Engine1 {
    closed spec fn rule_list(&self) -> Seq<Rule> {
        self.rules@
    }

    fn rules(&self) -> (r: &[Rule]) {
        self.rules.as_slice()
    }
}

/// The engine's rules decide on least connections for up to five workers
/// and on round robin above, so that `select_strategy` leaves any balancer
/// running a strategy for that policy.
pub proof fn lemma_engine1_decision(worker_count: nat)
    ensures
        decided_policy(seq![Rule::WorkerCount { max_workers: 5 }], worker_count) == if worker_count
            <= 5 {
            LoadBalancingPolicy::LeastConnections
        } else {
            LoadBalancingPolicy::RoundRobin
        },
        default_constructor(
            decided_policy(seq![Rule::WorkerCount { max_workers: 5 }], worker_count),
        ).builds().spec_policy() == if worker_count <= 5 {
            LoadBalancingPolicy::LeastConnections
        } else {
            LoadBalancingPolicy::RoundRobin
        },
{
    let rules = seq![Rule::WorkerCount { max_workers: 5 }];
    assert(rules.drop_last() =~= Seq::<Rule>::empty());
}

} // verus!
