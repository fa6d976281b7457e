use crate::load_balancer::load_balancer::LoadBalancer;
use crate::load_balancer::strategy::{default_constructor, LoadBalancingPolicy};
use vstd::prelude::*;

pub mod engine1;
pub mod engine2;

verus! {

/// A rule of a decision engine: looks at the balancer and may name the
/// policy it should run.
#[derive(Clone, Copy, Debug, PartialEq, Eq, Structural)]
pub enum Rule {
    /// Least connections up to `max_workers` workers, round robin above.
    WorkerCount { max_workers: usize },
}

/// What a rule names for a pool of `worker_count` workers.
pub open spec fn rule_outcome(rule: Rule, worker_count: nat) -> Option<LoadBalancingPolicy> {
    match rule {
        Rule::WorkerCount { max_workers } => if worker_count <= max_workers {
            Some(LoadBalancingPolicy::LeastConnections)
        } else {
            Some(LoadBalancingPolicy::RoundRobin)
        },
    }
}

/// The policy a list of rules decides on: that of the last rule that names
/// one, round robin where none does.
pub open spec fn decided_policy(rules: Seq<Rule>, worker_count: nat) -> LoadBalancingPolicy
    decreases rules.len(),
{
    if rules.len() == 0 {
        LoadBalancingPolicy::RoundRobin
    } else {
        match rule_outcome(rules.last(), worker_count) {
            Some(p) => p,
            None => decided_policy(rules.drop_last(), worker_count),
        }
    }
}

/// How rules combine: with no rule the policy is round robin; appending a
/// rule that names a policy decides for that policy, whatever the rules
/// before it say; appending one that names none leaves the decision as it
/// was. So the rules are applied in order and the last one that names a
/// policy wins.
pub proof fn lemma_last_naming_rule_wins(rules: Seq<Rule>, r: Rule, worker_count: nat)
    ensures
        decided_policy(Seq::<Rule>::empty(), worker_count) == LoadBalancingPolicy::RoundRobin,
        rule_outcome(r, worker_count) matches Some(p) ==> decided_policy(rules.push(r), worker_count)
            == p,
        rule_outcome(r, worker_count) is None ==> decided_policy(rules.push(r), worker_count)
            == decided_policy(rules, worker_count),
{
    assert(rules.push(r).drop_last() =~= rules);
}

/// A worker-count rule names least connections for pools up to its bound
/// and round robin above it.
pub proof fn lemma_worker_count_rule(max_workers: usize, worker_count: nat)
    ensures
        worker_count <= max_workers ==> rule_outcome(Rule::WorkerCount { max_workers }, worker_count)
            == Some(LoadBalancingPolicy::LeastConnections),
        worker_count > max_workers ==> rule_outcome(Rule::WorkerCount { max_workers }, worker_count)
            == Some(LoadBalancingPolicy::RoundRobin),
{
}

impl Rule {
    /// Applies the rule to `load_balancer`.
    pub fn evaluate<H>(&self, load_balancer: &LoadBalancer<H>) -> (r: Option<LoadBalancingPolicy>)
        ensures
            r == rule_outcome(*self, load_balancer.pool().len()),
    {
        match self {
            Rule::WorkerCount { max_workers } => {
                if load_balancer.workers().len() <= *max_workers {
                    Some(LoadBalancingPolicy::LeastConnections)
                } else {
                    Some(LoadBalancingPolicy::RoundRobin)
                }
            },
        }
    }
}

/// Picks the policy the balancer should run from a list of rules, and
/// switches to it.
pub trait DecisionEngine {
    /// The engine's rules, in the order in which they are applied.
    spec fn rule_list(&self) -> Seq<Rule>;

    fn rules(&self) -> (r: &[Rule])
        ensures
            r@ == self.rule_list(),
    ;

    /// Switches `load_balancer` to a fresh strategy for the policy the rules
    /// decide on.
    fn select_strategy<H>(&self, load_balancer: &mut LoadBalancer<H>)
        ensures
            final(load_balancer).ports() == old(load_balancer).ports(),
            final(load_balancer).pool() == old(load_balancer).pool(),
            final(load_balancer).active() == default_constructor(
                decided_policy(self.rule_list(), old(load_balancer).pool().len()),
            ).builds(),
            self.rule_list().len() == 0 ==> final(load_balancer).active() == default_constructor(
                LoadBalancingPolicy::RoundRobin,
            ).builds(),
            self.rule_list().len() > 0 ==> (rule_outcome(
                self.rule_list().last(),
                old(load_balancer).pool().len(),
            ) matches Some(p) ==> final(load_balancer).active() == default_constructor(p).builds()),
    {
        let rules = self.rules();
        let mut final_strategy = LoadBalancingPolicy::RoundRobin;
        let mut i: usize = 0;
        while i < rules.len()
            invariant
                rules@ == self.rule_list(),
                i <= rules@.len(),
                final_strategy == decided_policy(rules@.take(i as int), load_balancer.pool().len()),
            decreases rules@.len() - i,
        {
            assert(rules@.take(i + 1).drop_last() =~= rules@.take(i as int));
            if let Some(s) = rules[i].evaluate(load_balancer) {
                final_strategy = s;
            }
            i = i + 1;
        }
        assert(rules@.take(rules@.len() as int) =~= rules@);
        let _ = load_balancer.set_strategy(final_strategy);
    }
}

} // verus!
