use crate::load_balancer::strategy::least_connection::LeastConnectionStrategy;
use crate::load_balancer::strategy::least_load::LeastLoadStrategy;
use crate::load_balancer::strategy::round_robin::RoundRobinStrategy;
use crate::text::str_equals;
use vstd::prelude::*;

pub mod least_connection;
pub mod least_load;
pub mod round_robin;

verus! {

/// The balancing policies the balancer can run, in the order in which they
/// are listed and registered.
#[derive(Clone, Copy, Debug, PartialEq, Eq, Structural)]
pub enum LoadBalancingPolicy {
    RoundRobin,
    LeastConnections,
    LeastLoad,
}

/// The name under which a policy is shown and accepted.
pub open spec fn policy_name(p: LoadBalancingPolicy) -> Seq<char> {
    match p {
        LoadBalancingPolicy::RoundRobin => "Round Robin"@,
        LoadBalancingPolicy::LeastConnections => "Least Connections"@,
        LoadBalancingPolicy::LeastLoad => "Least Load"@,
    }
}

/// The policy whose name is exactly `s`, if any.
pub open spec fn policy_named(s: Seq<char>) -> Option<LoadBalancingPolicy> {
    if s == "Round Robin"@ {
        Some(LoadBalancingPolicy::RoundRobin)
    } else if s == "Least Connections"@ {
        Some(LoadBalancingPolicy::LeastConnections)
    } else if s == "Least Load"@ {
        Some(LoadBalancingPolicy::LeastLoad)
    } else {
        None
    }
}

/// All policies, in declaration order.
pub open spec fn all_policies() -> Seq<LoadBalancingPolicy> {
    seq![
        LoadBalancingPolicy::RoundRobin,
        LoadBalancingPolicy::LeastConnections,
        LoadBalancingPolicy::LeastLoad,
    ]
}

impl LoadBalancingPolicy {
    /// The display name of the policy.
    pub fn name(&self) -> (s: &'static str)
        ensures
            s@ == policy_name(*self),
    {
        match self {
            LoadBalancingPolicy::RoundRobin => "Round Robin",
            LoadBalancingPolicy::LeastConnections => "Least Connections",
            LoadBalancingPolicy::LeastLoad => "Least Load",
        }
    }

    /// Parses a policy from its display name; the match is exact.
    pub fn from_name(name: &str) -> (r: Option<LoadBalancingPolicy>)
        ensures
            r == policy_named(name@),
    {
        if str_equals(name, "Round Robin") {
            Some(LoadBalancingPolicy::RoundRobin)
        } else if str_equals(name, "Least Connections") {
            Some(LoadBalancingPolicy::LeastConnections)
        } else if str_equals(name, "Least Load") {
            Some(LoadBalancingPolicy::LeastLoad)
        } else {
            None
        }
    }

    /// Every policy, in declaration order.
    pub fn all() -> (v: Vec<LoadBalancingPolicy>)
        ensures
            v@ == all_policies(),
    {
        let mut v = Vec::new();
        v.push(LoadBalancingPolicy::RoundRobin);
        v.push(LoadBalancingPolicy::LeastConnections);
        v.push(LoadBalancingPolicy::LeastLoad);
        assert(v@ =~= all_policies());
        v
    }
}

/// Parsing a policy's name gives the policy back, and a name parses only to
/// the policy that carries it.
pub proof fn lemma_policy_name_round_trip(p: LoadBalancingPolicy, s: Seq<char>)
    ensures
        policy_named(policy_name(p)) == Some(p),
        policy_named(s) == Some(p) ==> s == policy_name(p),
{
    reveal_strlit("Round Robin");
    reveal_strlit("Least Connections");
    reveal_strlit("Least Load");
    assert("Round Robin"@ != "Least Connections"@) by {
        assert("Round Robin"@.len() != "Least Connections"@.len());
    }
    assert("Round Robin"@ != "Least Load"@) by {
        assert("Round Robin"@[0] != "Least Load"@[0]);
    }
    assert("Least Connections"@ != "Least Load"@) by {
        assert("Least Connections"@.len() != "Least Load"@.len());
    }
}

/// What a strategy reads of one worker when it picks: whether the worker is
/// running, how many handles to it are alive (the pool's own included, so
/// the number of requests in flight plus one) and how many threads it runs.
#[derive(Clone, Copy, Debug, PartialEq, Eq, Structural)]
pub struct WorkerLoad {
    pub running: bool,
    pub connections: usize,
    pub num_threads: u8,
}

/// Positions of the running workers, in pool order.
pub open spec fn running_positions(s: Seq<WorkerLoad>) -> Seq<int>
    decreases s.len(),
{
    if s.len() == 0 {
        Seq::empty()
    } else {
        let before = running_positions(s.drop_last());
        if s.last().running {
            before.push(s.len() - 1)
        } else {
            before
        }
    }
}

/// Whether some worker of `s` is running.
pub open spec fn has_running(s: Seq<WorkerLoad>) -> bool {
    exists|i: int| 0 <= i < s.len() && #[trigger] s[i].running
}

/// `running_positions` lists exactly the running workers, in increasing order.
pub proof fn lemma_running_positions(s: Seq<WorkerLoad>)
    ensures
        forall|k: int|
            0 <= k < running_positions(s).len() ==> 0 <= #[trigger] running_positions(s)[k] < s.len()
                && s[running_positions(s)[k]].running,
        forall|k1: int, k2: int|
            0 <= k1 < k2 < running_positions(s).len() ==> #[trigger] running_positions(s)[k1]
                < #[trigger] running_positions(s)[k2],
        forall|i: int|
            0 <= i < s.len() && #[trigger] s[i].running ==> running_positions(s).contains(i),
        running_positions(s).len() <= s.len(),
        running_positions(s).len() > 0 <==> has_running(s),
    decreases s.len(),
{
    if s.len() > 0 {
        let t = s.drop_last();
        lemma_running_positions(t);
        assert forall|i: int| 0 <= i < s.len() && #[trigger] s[i].running implies running_positions(
            s,
        ).contains(i) by {
            if i < s.len() - 1 {
                assert(t[i].running);
                let k = choose|k: int|
                    0 <= k < running_positions(t).len() && running_positions(t)[k] == i;
                if s.last().running {
                    assert(running_positions(s)[k] == i);
                }
            } else {
                assert(running_positions(s).last() == i);
            }
        }
        if has_running(s) {
            let i = choose|i: int| 0 <= i < s.len() && #[trigger] s[i].running;
            assert(running_positions(s).contains(i));
        }
        if running_positions(s).len() > 0 {
            let p = running_positions(s)[0];
            assert(s[p].running);
        }
    }
}

/// Why a strategy could not pick a worker.
#[derive(Clone, Copy, Debug, PartialEq, Eq, Structural)]
pub enum SelectError {
    /// The pool is empty.
    NoWorkers,
    /// The pool holds workers but none is running (round robin).
    NoRunningWorkers,
    /// No running worker could be chosen (least connections, least load).
    SelectionFailed,
}

impl SelectError {
    /// The message the balancer reports for this error.
    pub fn message(&self) -> (s: &'static str)
        ensures
            s@ == select_error_message(*self),
    {
        match self {
            SelectError::NoWorkers => "There are no workers to select form!",
            SelectError::NoRunningWorkers => "No running workers available!",
            SelectError::SelectionFailed => "Failed to select worker",
        }
    }
}

/// The message of each selection error.
pub open spec fn select_error_message(e: SelectError) -> Seq<char> {
    match e {
        SelectError::NoWorkers => "There are no workers to select form!"@,
        SelectError::NoRunningWorkers => "No running workers available!"@,
        SelectError::SelectionFailed => "Failed to select worker"@,
    }
}

/// A balancing strategy: picks the worker that serves the next request.
pub trait LoadBalancingStrategy: Sized {
    /// The policy this strategy implements.
    spec fn implements(&self) -> LoadBalancingPolicy;

    fn policy(&self) -> (p: LoadBalancingPolicy)
        ensures
            p == self.implements(),
    ;

    fn new() -> Self;

    /// Picks a worker of `workers` and returns its position: always a
    /// running one, and an error exactly when no worker is running.
    fn select_worker(&mut self, workers: &[WorkerLoad]) -> (r: Result<usize, SelectError>)
        ensures
            final(self).implements() == old(self).implements(),
            r matches Ok(i) ==> i < workers@.len() && workers@[i as int].running,
            r is Err <==> !has_running(workers@),
    ;
}

/// One strategy of each kind; the balancer holds one of these.
pub enum Strategy {
    RoundRobin(RoundRobinStrategy),
    LeastConnections(LeastConnectionStrategy),
    LeastLoad(LeastLoadStrategy),
}

impl Strategy {
    /// The policy the strategy implements.
    pub open spec fn spec_policy(&self) -> LoadBalancingPolicy {
        match self {
            Strategy::RoundRobin(_) => LoadBalancingPolicy::RoundRobin,
            Strategy::LeastConnections(_) => LoadBalancingPolicy::LeastConnections,
            Strategy::LeastLoad(_) => LoadBalancingPolicy::LeastLoad,
        }
    }

    pub fn policy(&self) -> (p: LoadBalancingPolicy)
        ensures
            p == self.spec_policy(),
    {
        match self {
            Strategy::RoundRobin(_) => LoadBalancingPolicy::RoundRobin,
            Strategy::LeastConnections(_) => LoadBalancingPolicy::LeastConnections,
            Strategy::LeastLoad(_) => LoadBalancingPolicy::LeastLoad,
        }
    }

    /// What a selection by this strategy returns, and the strategy after it.
    pub open spec fn selects(
        &self,
        workers: Seq<WorkerLoad>,
        r: Result<usize, SelectError>,
        after: Strategy,
    ) -> bool {
        match (*self, after) {
            (Strategy::RoundRobin(s), Strategy::RoundRobin(t)) => round_robin::round_robin_selects(
                s,
                workers,
                r,
                t,
            ),
            (Strategy::LeastConnections(_), Strategy::LeastConnections(_)) =>
                least_connection::least_connection_selects(workers, r),
            (Strategy::LeastLoad(_), Strategy::LeastLoad(_)) => least_load::least_load_selects(
                workers,
                r,
            ),
            _ => false,
        }
    }

    /// Picks a worker with the strategy held.
    pub fn select_worker(&mut self, workers: &[WorkerLoad]) -> (r: Result<usize, SelectError>)
        ensures
            old(self).selects(workers@, r, *final(self)),
            final(self).spec_policy() == old(self).spec_policy(),
            r matches Ok(i) ==> i < workers@.len() && workers@[i as int].running,
            r is Err <==> !has_running(workers@),
    {
        match self {
            Strategy::RoundRobin(s) => s.select_worker(workers),
            Strategy::LeastConnections(s) => s.select_worker(workers),
            Strategy::LeastLoad(s) => s.select_worker(workers),
        }
    }
}

/// What a registered constructor builds.
#[derive(Clone, Copy, Debug, PartialEq, Eq, Structural)]
pub enum StrategyConstructor {
    RoundRobin,
    LeastConnections,
    LeastLoad,
}

impl StrategyConstructor {
    /// The fresh strategy the constructor builds.
    pub open spec fn builds(self) -> Strategy {
        match self {
            StrategyConstructor::RoundRobin => Strategy::RoundRobin(round_robin::initial()),
            StrategyConstructor::LeastConnections => Strategy::LeastConnections(
                LeastConnectionStrategy {},
            ),
            StrategyConstructor::LeastLoad => Strategy::LeastLoad(LeastLoadStrategy {}),
        }
    }

    pub fn build(&self) -> (s: Strategy)
        ensures
            s == self.builds(),
    {
        match self {
            StrategyConstructor::RoundRobin => Strategy::RoundRobin(RoundRobinStrategy::new()),
            StrategyConstructor::LeastConnections => Strategy::LeastConnections(
                LeastConnectionStrategy::new(),
            ),
            StrategyConstructor::LeastLoad => Strategy::LeastLoad(LeastLoadStrategy::new()),
        }
    }
}

/// The constructor registered for each policy by default.
pub open spec fn default_constructor(p: LoadBalancingPolicy) -> StrategyConstructor {
    match p {
        LoadBalancingPolicy::RoundRobin => StrategyConstructor::RoundRobin,
        LoadBalancingPolicy::LeastConnections => StrategyConstructor::LeastConnections,
        LoadBalancingPolicy::LeastLoad => StrategyConstructor::LeastLoad,
    }
}

/// Policies and the constructors registered for them, in registration order.
pub struct StrategyRegistry {
    entries: Vec<(LoadBalancingPolicy, StrategyConstructor)>,
}

impl View for StrategyRegistry {
    type V = Seq<(LoadBalancingPolicy, StrategyConstructor)>;

    closed spec fn view(&self) -> Seq<(LoadBalancingPolicy, StrategyConstructor)> {
        self.entries@
    }
}

/// The constructor that the first entry for `p` holds, if any.
pub open spec fn registered(
    entries: Seq<(LoadBalancingPolicy, StrategyConstructor)>,
    p: LoadBalancingPolicy,
) -> Option<StrategyConstructor>
    decreases entries.len(),
{
    if entries.len() == 0 {
        None
    } else if entries[0].0 == p {
        Some(entries[0].1)
    } else {
        registered(entries.drop_first(), p)
    }
}

/// The entries of the default registry: each policy with its own constructor.
pub open spec fn default_entries() -> Seq<(LoadBalancingPolicy, StrategyConstructor)> {
    all_policies().map_values(|p: LoadBalancingPolicy| (p, default_constructor(p)))
}

impl StrategyRegistry {
    pub fn new() -> (r: Self)
        ensures
            r@ == Seq::<(LoadBalancingPolicy, StrategyConstructor)>::empty(),
    {
        StrategyRegistry { entries: Vec::new() }
    }

    /// Adds an entry; an earlier entry for the same policy keeps precedence.
    pub fn register(&mut self, policy: LoadBalancingPolicy, ctor: StrategyConstructor)
        ensures
            final(self)@ == old(self)@.push((policy, ctor)),
    {
        self.entries.push((policy, ctor));
    }

    /// Builds a fresh strategy with the first constructor registered for
    /// `policy`, or `None` where none is.
    pub fn build(&self, policy: &LoadBalancingPolicy) -> (r: Option<Strategy>)
        ensures
            r is Some <==> registered(self@, *policy) is Some,
            r matches Some(s) ==> s == registered(self@, *policy)->0.builds(),
    {
        let mut i: usize = 0;
        assert(self.entries@.skip(0) =~= self.entries@);
        while i < self.entries.len()
            invariant
                i <= self.entries@.len(),
                registered(self.entries@, *policy) == registered(
                    self.entries@.skip(i as int),
                    *policy,
                ),
            decreases self.entries@.len() - i,
        {
            let ghost rest = self.entries@.skip(i as int);
            assert(rest.drop_first() =~= self.entries@.skip(i + 1));
            if self.entries[i].0 == *policy {
                return Some(self.entries[i].1.build());
            }
            i = i + 1;
        }
        None
    }

    /// The registry with every policy bound to its own strategy.
    pub fn default() -> (r: Self)
        ensures
            r@ == default_entries(),
    {
        let mut registry = Self::new();
        let all = LoadBalancingPolicy::all();
        let mut i: usize = 0;
        while i < all.len()
            invariant
                all@ == all_policies(),
                i <= all@.len(),
                registry@ =~= default_entries().take(i as int),
            decreases all@.len() - i,
        {
            let v = all[i];
            let ctor = match v {
                LoadBalancingPolicy::RoundRobin => StrategyConstructor::RoundRobin,
                LoadBalancingPolicy::LeastConnections => StrategyConstructor::LeastConnections,
                LoadBalancingPolicy::LeastLoad => StrategyConstructor::LeastLoad,
            };
            registry.register(v, ctor);
            assert(default_entries().take(i + 1) =~= default_entries().take(i as int).push(
                (v, ctor),
            ));
            i = i + 1;
        }
        assert(default_entries().take(3) =~= default_entries());
        registry
    }
}

/// In the default registry every policy builds a fresh strategy that
/// implements that policy.
pub proof fn lemma_default_registry_complete(p: LoadBalancingPolicy)
    ensures
        registered(default_entries(), p) == Some(default_constructor(p)),
        default_constructor(p).builds().spec_policy() == p,
{
    let e = default_entries();
    reveal_with_fuel(registered, 4);
    assert(e[0] == (LoadBalancingPolicy::RoundRobin, StrategyConstructor::RoundRobin));
    assert(e.drop_first()[0] == (
        LoadBalancingPolicy::LeastConnections,
        StrategyConstructor::LeastConnections,
    ));
    assert(e.drop_first().drop_first()[0] == (
        LoadBalancingPolicy::LeastLoad,
        StrategyConstructor::LeastLoad,
    ));
}

} // verus!
