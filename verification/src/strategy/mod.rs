use crate::strategy::least_connection::LeastConnectionStrategy;
use crate::strategy::round_robin::RoundRobinStrategy;
use crate::text::str_equals;
use vstd::prelude::*;

pub mod least_connection;
pub mod round_robin;

verus! {

/// The policies of the first strategy interface, named in snake case.
#[derive(Clone, Copy, Debug, PartialEq, Eq, Structural)]
pub enum LoadBalancerStrategy {
    RoundRobin,
    LeastConnections,
}

/// The policy named `s` in snake case, if any.
pub open spec fn strategy_named(s: Seq<char>) -> Option<LoadBalancerStrategy> {
    if s == "round_robin"@ {
        Some(LoadBalancerStrategy::RoundRobin)
    } else if s == "least_connections"@ {
        Some(LoadBalancerStrategy::LeastConnections)
    } else {
        None
    }
}

/// The snake-case name of a policy.
pub open spec fn strategy_name(s: LoadBalancerStrategy) -> Seq<char> {
    match s {
        LoadBalancerStrategy::RoundRobin => "round_robin"@,
        LoadBalancerStrategy::LeastConnections => "least_connections"@,
    }
}

impl LoadBalancerStrategy {
    /// Parses a policy from its snake-case name; the match is exact.
    pub fn from_name(name: &str) -> (r: Option<LoadBalancerStrategy>)
        ensures
            r == strategy_named(name@),
    {
        if str_equals(name, "round_robin") {
            Some(LoadBalancerStrategy::RoundRobin)
        } else if str_equals(name, "least_connections") {
            Some(LoadBalancerStrategy::LeastConnections)
        } else {
            None
        }
    }

    /// The snake-case name of the policy.
    pub fn name(&self) -> (s: &'static str)
        ensures
            s@ == strategy_name(*self),
    {
        match self {
            LoadBalancerStrategy::RoundRobin => "round_robin",
            LoadBalancerStrategy::LeastConnections => "least_connections",
        }
    }
}

/// A strategy of the first interface.
pub enum NamedStrategy {
    RoundRobin(RoundRobinStrategy),
    LeastConnection(LeastConnectionStrategy),
}

/// The strategy a snake-case name selects, fresh: `round_robin` builds the
/// round robin strategy and `least_connections` the least-connections one;
/// other names select none.
pub fn strategy_from_name(name: &str) -> (r: Option<NamedStrategy>)
    ensures
        strategy_named(name@) is None <==> r is None,
        strategy_named(name@) == Some(LoadBalancerStrategy::RoundRobin) ==> (r matches Some(
            NamedStrategy::RoundRobin(s),
        ) && s.cursor() == 0),
        strategy_named(name@) == Some(LoadBalancerStrategy::LeastConnections) ==> r matches Some(
            NamedStrategy::LeastConnection(_),
        ),
{
    match LoadBalancerStrategy::from_name(name) {
        Some(LoadBalancerStrategy::RoundRobin) => Some(
            NamedStrategy::RoundRobin(RoundRobinStrategy::new()),
        ),
        Some(LoadBalancerStrategy::LeastConnections) => Some(
            NamedStrategy::LeastConnection(LeastConnectionStrategy::new()),
        ),
        None => None,
    }
}

/// A snake-case name parses back to its policy, and only to it.
pub proof fn lemma_strategy_name_round_trip(p: LoadBalancerStrategy, s: Seq<char>)
    ensures
        strategy_named(strategy_name(p)) == Some(p),
        strategy_named(s) == Some(p) ==> s == strategy_name(p),
{
    reveal_strlit("round_robin");
    reveal_strlit("least_connections");
    assert("round_robin"@ != "least_connections"@) by {
        assert("round_robin"@[0] != "least_connections"@[0]);
    }
}

} // verus!
