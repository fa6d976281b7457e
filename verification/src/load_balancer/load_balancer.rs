use crate::config::{FIRST_WORKER_PORT, MAX_WORKERS_COUNT};
use crate::load_balancer::strategy::{
    default_constructor, has_running, policy_named, registered, LoadBalancingPolicy, SelectError, Strategy,
    StrategyRegistry, WorkerLoad,
};
use crate::load_balancer::worker::{Worker, WorkerStatus};
use std::collections::VecDeque;
use vstd::multiset::Multiset;
use vstd::prelude::*;

verus! {

broadcast use vstd::seq_lib::group_to_multiset_ensures;

/// What the load balancer refuses.
#[derive(Clone, Copy, Debug, PartialEq, Eq, Structural)]
pub enum LbError {
    /// No strategy is registered for the starting policy.
    FailedToInitializeStrategy,
    /// No port was given and the port pool is empty.
    NoAvailablePorts,
    /// No strategy is registered for the requested policy.
    FailedToSetStrategy,
    /// The name is that of no policy.
    UnknownStrategy,
    /// A strategy request body names no strategy.
    StrategyNotInRequest,
}

/// The message of each error.
pub open spec fn lb_error_message(e: LbError) -> Seq<char> {
    match e {
        LbError::FailedToInitializeStrategy => "Failed to initialize load balancing strategy!"@,
        LbError::NoAvailablePorts => "No available ports to spawn new worker"@,
        LbError::FailedToSetStrategy => "Failed to set strategy!"@,
        LbError::UnknownStrategy => "Matching variant not found"@,
        LbError::StrategyNotInRequest => "Strategy not found in request body!"@,
    }
}

impl LbError {
    pub fn message(&self) -> (s: &'static str)
        ensures
            s@ == lb_error_message(*self),
    {
        match self {
            LbError::FailedToInitializeStrategy => "Failed to initialize load balancing strategy!",
            LbError::NoAvailablePorts => "No available ports to spawn new worker",
            LbError::FailedToSetStrategy => "Failed to set strategy!",
            LbError::UnknownStrategy => "Matching variant not found",
            LbError::StrategyNotInRequest => "Strategy not found in request body!",
        }
    }
}

/// The ports a new balancer hands out, in order: `FIRST_WORKER_PORT` and
/// the `MAX_WORKERS_COUNT - 1` ports after it.
pub open spec fn initial_ports() -> Seq<u16> {
    Seq::new(MAX_WORKERS_COUNT as nat, |i: int| (FIRST_WORKER_PORT + i) as u16)
}

/// What each worker offers a strategy, given the live handle counts.
pub open spec fn worker_loads<H>(workers: Seq<Worker<H>>, connections: Seq<usize>) -> Seq<
    WorkerLoad,
> {
    Seq::new(
        workers.len(),
        |i: int|
            WorkerLoad {
                running: workers[i].status == WorkerStatus::Running,
                connections: connections[i],
                num_threads: workers[i].num_threads,
            },
    )
}

/// A worker is pruned once it no longer runs and nothing but the pool holds it.
pub open spec fn prunable<H>(w: Worker<H>, connections: usize) -> bool {
    w.status != WorkerStatus::Running && connections == 1
}

/// `after` is `before` with a new running worker appended, named `name`, on
/// `port`, with `num_threads` threads.
pub open spec fn spawned_worker<H>(
    before: Seq<Worker<H>>,
    after: Seq<Worker<H>>,
    name: String,
    port: u16,
    num_threads: u8,
) -> bool {
    &&& after.len() == before.len() + 1
    &&& after.drop_last() == before
    &&& after.last().name == name
    &&& after.last().status == WorkerStatus::Running
    &&& after.last().port == port
    &&& after.last().num_threads == num_threads
}

/// The workers among the first `n` that a prune keeps, in order.
pub open spec fn kept_by_prune<H>(ws: Seq<Worker<H>>, cs: Seq<usize>, n: nat) -> Seq<Worker<H>>
    decreases n,
{
    if n == 0 {
        Seq::empty()
    } else {
        let before = kept_by_prune(ws, cs, (n - 1) as nat);
        if prunable(ws[n - 1], cs[n - 1]) {
            before
        } else {
            before.push(ws[n - 1])
        }
    }
}

/// The workers among the first `n` that a prune removes, in order.
pub open spec fn removed_by_prune<H>(ws: Seq<Worker<H>>, cs: Seq<usize>, n: nat) -> Seq<
    Worker<H>,
>
    decreases n,
{
    if n == 0 {
        Seq::empty()
    } else {
        let before = removed_by_prune(ws, cs, (n - 1) as nat);
        if prunable(ws[n - 1], cs[n - 1]) {
            before.push(ws[n - 1])
        } else {
            before
        }
    }
}

/// A prune keeps every running worker and every worker that a request
/// still holds, and removes exactly the others; a worker that was closed
/// and that nothing but the pool holds is among those removed.
pub proof fn lemma_prune_partition<H>(ws: Seq<Worker<H>>, cs: Seq<usize>, n: nat)
    requires
        n <= ws.len(),
        cs.len() == ws.len(),
    ensures
        forall|i: int|
            0 <= i < n && !prunable(#[trigger] ws[i], cs[i]) ==> kept_by_prune(ws, cs, n).contains(
                ws[i],
            ),
        forall|i: int|
            0 <= i < n && prunable(#[trigger] ws[i], cs[i]) ==> removed_by_prune(
                ws,
                cs,
                n,
            ).contains(ws[i]),
        forall|w: Worker<H>|
            #[trigger] removed_by_prune(ws, cs, n).contains(w) ==> w.status
                != WorkerStatus::Running,
        kept_by_prune(ws, cs, n).len() + removed_by_prune(ws, cs, n).len() == n,
    decreases n,
{
    if n > 0 {
        let m = (n - 1) as nat;
        lemma_prune_partition(ws, cs, m);
        let k0 = kept_by_prune(ws, cs, m);
        let r0 = removed_by_prune(ws, cs, m);
        assert forall|i: int|
            0 <= i < n && !prunable(#[trigger] ws[i], cs[i]) implies kept_by_prune(
            ws,
            cs,
            n,
        ).contains(ws[i]) by {
            if i < m {
                assert(k0.contains(ws[i]));
                if !prunable(ws[m as int], cs[m as int]) {
                    let j = choose|j: int| 0 <= j < k0.len() && k0[j] == ws[i];
                    assert(kept_by_prune(ws, cs, n)[j] == ws[i]);
                }
            } else {
                assert(kept_by_prune(ws, cs, n).last() == ws[i]);
            }
        }
        assert forall|i: int|
            0 <= i < n && prunable(#[trigger] ws[i], cs[i]) implies removed_by_prune(
            ws,
            cs,
            n,
        ).contains(ws[i]) by {
            if i < m {
                assert(r0.contains(ws[i]));
                if prunable(ws[m as int], cs[m as int]) {
                    let j = choose|j: int| 0 <= j < r0.len() && r0[j] == ws[i];
                    assert(removed_by_prune(ws, cs, n)[j] == ws[i]);
                }
            } else {
                assert(removed_by_prune(ws, cs, n).last() == ws[i]);
            }
        }
        assert forall|w: Worker<H>| #[trigger]
            removed_by_prune(ws, cs, n).contains(w) implies w.status != WorkerStatus::Running by {
            let r = removed_by_prune(ws, cs, n);
            let j = choose|j: int| 0 <= j < r.len() && r[j] == w;
            if j < r0.len() {
                assert(r0.contains(w));
            }
        }
    }
}

/// The free ports and the workers' ports are, together, exactly the ports
/// a new balancer starts with.
pub open spec fn ports_accounted<H>(pool: Seq<u16>, workers: Seq<Worker<H>>) -> bool {
    port_multiset(pool, workers) == initial_ports().to_multiset()
}

/// The first `k` pool ports each occur once in their multiset.
proof fn lemma_initial_ports_count(k: nat, p: u16)
    requires
        k <= MAX_WORKERS_COUNT,
    ensures
        initial_ports().take(k as int).to_multiset().count(p) == if FIRST_WORKER_PORT <= p < FIRST_WORKER_PORT + k {
            1nat
        } else {
            0nat
        },
    decreases k,
{
    broadcast use vstd::multiset::group_multiset_axioms;

    if k == 0 {
        assert(initial_ports().take(0) =~= Seq::<u16>::empty());
    } else {
        lemma_initial_ports_count((k - 1) as nat, p);
        assert(initial_ports().take(k as int) =~= initial_ports().take(k - 1).push(
            (FIRST_WORKER_PORT + k - 1) as u16,
        ));
    }
}

/// While the ports are accounted for, every port from 3000 to 3999 is held
/// exactly once, by the free pool or by one worker, and no other port is
/// held: the free ports and the workers' ports are all distinct, and there
/// are as many free ports and workers together as the pool holds ports.
/// A new balancer accounts for its ports, and spawning on a pool port,
/// closing, pruning, switching strategy and selecting keep them accounted.
pub proof fn lemma_ports_accounted<H>(pool: Seq<u16>, workers: Seq<Worker<H>>)
    requires
        ports_accounted(pool, workers),
    ensures
        pool.len() + workers.len() == MAX_WORKERS_COUNT,
        forall|p: u16|
            #![trigger pool.to_multiset().count(p)]
            #![trigger ports_of(workers).to_multiset().count(p)]
            pool.to_multiset().count(p) + ports_of(workers).to_multiset().count(p) == if FIRST_WORKER_PORT
                <= p < FIRST_WORKER_PORT + MAX_WORKERS_COUNT {
                1nat
            } else {
                0nat
            },
{
    broadcast use vstd::multiset::group_multiset_axioms;

    assert(initial_ports().take(MAX_WORKERS_COUNT as int) =~= initial_ports());
    assert forall|p: u16|
        #![trigger pool.to_multiset().count(p)]
        #![trigger ports_of(workers).to_multiset().count(p)]
        pool.to_multiset().count(p) + ports_of(workers).to_multiset().count(p) == if FIRST_WORKER_PORT
            <= p < FIRST_WORKER_PORT + MAX_WORKERS_COUNT {
            1nat
        } else {
            0nat
        } by {
        lemma_initial_ports_count(MAX_WORKERS_COUNT as nat, p);
        assert(port_multiset(pool, workers).count(p) == initial_ports().to_multiset().count(p));
    }
    assert(port_multiset(pool, workers).len() == initial_ports().to_multiset().len());
    assert(ports_of(workers).len() == workers.len());
}

/// The ports of some workers, in order.
pub open spec fn ports_of<H>(ws: Seq<Worker<H>>) -> Seq<u16> {
    ws.map_values(|w: Worker<H>| w.port)
}

/// Every port the balancer accounts for: those in its pool and those its
/// workers hold.
pub open spec fn port_multiset<H>(pool: Seq<u16>, workers: Seq<Worker<H>>) -> Multiset<u16> {
    pool.to_multiset().add(ports_of(workers).to_multiset())
}

/// The worker pool, its port pool, and the strategy in force.
pub struct LoadBalancer<H> {
    workers: Vec<Worker<H>>,
    strategy: Strategy,
    strategy_registry: DefaultRegistry,
    ports_pool: VecDeque<u16>,
}

/// The registry a balancer switches strategies with: the default one, which
/// nothing changes, so that every policy can be switched to.
struct DefaultRegistry {
    registry: StrategyRegistry,
}

impl DefaultRegistry {
    #[verifier::type_invariant]
    spec fn is_default(self) -> bool {
        self.registry@ == crate::load_balancer::strategy::default_entries()
    }

    fn new() -> (r: Self) {
        DefaultRegistry { registry: StrategyRegistry::default() }
    }

    /// A fresh strategy for `policy`.
    fn build(&self, policy: &LoadBalancingPolicy) -> (r: Option<Strategy>)
        ensures
            r == Some(default_constructor(*policy).builds()),
    {
        proof {
            use_type_invariant(self);
            crate::load_balancer::strategy::lemma_default_registry_complete(*policy);
        }
        self.registry.build(policy)
    }
}

/// The two balancers are in the same state: workers, free ports and
/// strategy.
pub open spec fn same_state<H>(a: LoadBalancer<H>, b: LoadBalancer<H>) -> bool {
    &&& a.pool() == b.pool()
    &&& a.ports() == b.ports()
    &&& a.active() == b.active()
}

/// Switching by the name of a policy, on the default registry, puts a fresh
/// strategy for that very policy in force.
pub proof fn lemma_switch_by_name(p: LoadBalancingPolicy)
    ensures
        policy_named(crate::load_balancer::strategy::policy_name(p)) == Some(p),
        registered(crate::load_balancer::strategy::default_entries(), p) == Some(
            crate::load_balancer::strategy::default_constructor(p),
        ),
        crate::load_balancer::strategy::default_constructor(p).builds().spec_policy() == p,
{
    crate::load_balancer::strategy::lemma_policy_name_round_trip(p, Seq::empty());
    crate::load_balancer::strategy::lemma_default_registry_complete(p);
}

impl<H> LoadBalancer<H> {
    /// The workers, in pool order.
    pub closed spec fn pool(&self) -> Seq<Worker<H>> {
        self.workers@
    }

    /// The strategy in force.
    pub closed spec fn active(&self) -> Strategy {
        self.strategy
    }

    pub fn workers(&self) -> (r: &[Worker<H>])
        ensures
            r@ == self.pool(),
    {
        self.workers.as_slice()
    }

    /// The free ports, in the order in which they are handed out.
    pub fn available_ports(&self) -> (r: &VecDeque<u16>)
        ensures
            r@ == self.ports(),
    {
        &self.ports_pool
    }

    pub fn strategy(&self) -> (r: &Strategy)
        ensures
            *r == self.active(),
    {
        &self.strategy
    }

    /// The free ports, in the order in which they are handed out.
    pub closed spec fn ports(&self) -> Seq<u16> {
        self.ports_pool@
    }

    /// A balancer with no workers, the default registry, the strategy for
    /// `strategy_policy`, and every pool port free.
    pub fn new(strategy_policy: LoadBalancingPolicy) -> (r: Result<Self, LbError>)
        ensures
            r is Ok,
            r matches Ok(lb) ==> {
                &&& lb.pool().len() == 0
                &&& lb.active() == crate::load_balancer::strategy::default_constructor(
                    strategy_policy,
                ).builds()
                &&& lb.active().spec_policy() == strategy_policy
                &&& lb.ports() == initial_ports()
                &&& ports_accounted(lb.ports(), lb.pool())
            },
    {
        let strategy_registry = DefaultRegistry::new();
        let strategy = match strategy_registry.build(&strategy_policy) {
            Some(s) => s,
            None => {
                return Err(LbError::FailedToInitializeStrategy);
            },
        };
        let mut ports_pool: VecDeque<u16> = VecDeque::new();
        let mut i: u16 = 0;
        while i < MAX_WORKERS_COUNT
            invariant
                i <= MAX_WORKERS_COUNT,
                ports_pool@ =~= initial_ports().take(i as int),
            decreases MAX_WORKERS_COUNT - i,
        {
            ports_pool.push_back(FIRST_WORKER_PORT + i);
            assert(initial_ports().take(i + 1) =~= initial_ports().take(i as int).push(
                (FIRST_WORKER_PORT + i) as u16,
            ));
            i = i + 1;
        }
        assert(initial_ports().take(MAX_WORKERS_COUNT as int) =~= initial_ports());
        assert(ports_of(Seq::<Worker<H>>::empty()) =~= Seq::<u16>::empty());
        assert(port_multiset(initial_ports(), Seq::<Worker<H>>::empty()) =~= initial_ports().to_multiset());
        Ok(LoadBalancer { workers: Vec::new(), strategy, strategy_registry, ports_pool })
    }

    /// Adds a running worker named `name` with `num_threads` threads, on
    /// `port` where one is given and else on the next free pool port;
    /// `launch` starts its process. Fails, changing nothing, when no port is
    /// given and the pool is empty.
    pub fn spawn_worker<F: FnOnce(u16, u8) -> H>(
        &mut self,
        num_threads: u8,
        name: String,
        port: Option<u16>,
        launch: F,
    ) -> (r: Result<(), LbError>)
        requires
            forall|p: u16| launch.requires((p, num_threads)),
        ensures
            final(self).active() == old(self).active(),
            port is None && ports_accounted(old(self).ports(), old(self).pool()) ==> ports_accounted(
                final(self).ports(),
                final(self).pool(),
            ),
            (port is None && old(self).ports().len() == 0) ==> {
                &&& r == Err::<(), LbError>(LbError::NoAvailablePorts)
                &&& final(self).pool() == old(self).pool()
                &&& final(self).ports() == old(self).ports()
            },
            !(port is None && old(self).ports().len() == 0) ==> {
                let p = match port {
                    Some(p) => p,
                    None => old(self).ports()[0],
                };
                &&& r is Ok
                &&& spawned_worker(old(self).pool(), final(self).pool(), name, p, num_threads)
                &&& launch.ensures((p, num_threads), final(self).pool().last().handle)
                &&& final(self).ports() == if port is Some {
                    old(self).ports()
                } else {
                    old(self).ports().drop_first()
                }
                &&& port is None ==> port_multiset(final(self).ports(), final(self).pool())
                    == port_multiset(old(self).ports(), old(self).pool())
                &&& port is Some ==> port_multiset(final(self).ports(), final(self).pool())
                    == port_multiset(old(self).ports(), old(self).pool()).insert(p)
            },
    {
        let ghost old_ports = self.ports_pool@;
        let ghost old_workers = self.workers@;
        let ghost from_pool = port is None;
        let port = match port {
            Some(p) => p,
            None => match self.ports_pool.pop_front() {
                Some(p) => p,
                None => {
                    return Err(LbError::NoAvailablePorts);
                },
            },
        };
        let handle = launch(port, num_threads);
        let worker = Worker::new(name, port, num_threads, handle);
        self.workers.push(worker);
        proof {
            assert(self.workers@.drop_last() =~= old_workers);
            assert(ports_of(self.workers@) =~= ports_of(old_workers).push(port));
            if self.ports_pool@ != old_ports {
                assert(self.ports_pool@ =~= old_ports.remove(0));
                assert(old_ports.drop_first() =~= old_ports.remove(0));
            }
            if from_pool {
                assert(port_multiset(self.ports_pool@, self.workers@) =~= port_multiset(
                    old_ports,
                    old_workers,
                ));
            }
        }
        Ok(())
    }

    /// Marks the worker at `worker_index` as closing; an index past the
    /// pool changes nothing.
    pub fn close_worker(&mut self, worker_index: usize)
        ensures
            final(self).ports() == old(self).ports(),
            final(self).active() == old(self).active(),
            worker_index < old(self).pool().len() ==> final(self).pool() == old(self).pool().update(
                worker_index as int,
                Worker { status: WorkerStatus::Closing, ..old(self).pool()[worker_index as int] },
            ),
            worker_index >= old(self).pool().len() ==> final(self).pool() == old(self).pool(),
            ports_of(final(self).pool()) == ports_of(old(self).pool()),
            port_multiset(final(self).ports(), final(self).pool()) == port_multiset(
                old(self).ports(),
                old(self).pool(),
            ),
            ports_accounted(old(self).ports(), old(self).pool()) ==> ports_accounted(
                final(self).ports(),
                final(self).pool(),
            ),
    {
        if worker_index < self.workers.len() {
            let mut worker = self.workers.remove(worker_index);
            worker.close();
            self.workers.insert(worker_index, worker);
            proof {
                assert(ports_of(self.workers@) =~= ports_of(old(self).pool()));
                assert(self.workers@ =~= old(self).pool().update(
                    worker_index as int,
                    Worker {
                        status: WorkerStatus::Closing,
                        ..old(self).pool()[worker_index as int]
                    },
                ));
            }
        }
    }

    /// Marks every worker as closing, the first step of shutting the
    /// balancer down.
    pub fn close_all(&mut self)
        ensures
            final(self).ports() == old(self).ports(),
            final(self).active() == old(self).active(),
            final(self).pool().len() == old(self).pool().len(),
            forall|i: int|
                0 <= i < old(self).pool().len() ==> #[trigger] final(self).pool()[i] == (Worker {
                    status: WorkerStatus::Closing,
                    ..old(self).pool()[i]
                }),
            ports_of(final(self).pool()) == ports_of(old(self).pool()),
            port_multiset(final(self).ports(), final(self).pool()) == port_multiset(
                old(self).ports(),
                old(self).pool(),
            ),
            ports_accounted(old(self).ports(), old(self).pool()) ==> ports_accounted(
                final(self).ports(),
                final(self).pool(),
            ),
    {
        let mut i: usize = 0;
        while i < self.workers.len()
            invariant
                i <= self.workers@.len(),
                ports_of(self.workers@) == ports_of(old(self).pool()),
                self.workers@.len() == old(self).pool().len(),
                self.ports() == old(self).ports(),
                self.strategy == old(self).active(),
                forall|j: int|
                    0 <= j < i ==> #[trigger] self.workers@[j] == (Worker {
                        status: WorkerStatus::Closing,
                        ..old(self).pool()[j]
                    }),
                forall|j: int| i <= j < self.workers@.len() ==> #[trigger] self.workers@[j] == old(self).pool()[j],
            decreases self.workers@.len() - i,
        {
            self.close_worker(i);
            i = i + 1;
        }
    }

    /// Switches to a fresh strategy for `policy`. The registry holds every
    /// policy, so this always succeeds.
    pub fn set_strategy(&mut self, policy: LoadBalancingPolicy) -> (r: Result<(), LbError>)
        ensures
            r is Ok,
            final(self).ports() == old(self).ports(),
            final(self).pool() == old(self).pool(),
            final(self).active() == default_constructor(policy).builds(),
    {
        match self.strategy_registry.build(&policy) {
            Some(s) => {
                self.strategy = s;
                Ok(())
            },
            None => Err(LbError::FailedToSetStrategy),
        }
    }

    /// Switches to the strategy whose policy is named `strategy_name`; an
    /// unknown name fails and changes nothing.
    pub fn set_strategy_handler(&mut self, strategy_name: &str) -> (r: Result<(), LbError>)
        ensures
            final(self).ports() == old(self).ports(),
            final(self).pool() == old(self).pool(),
            policy_named(strategy_name@) is None ==> r == Err::<(), LbError>(
                LbError::UnknownStrategy,
            ) && final(self).active() == old(self).active(),
            policy_named(strategy_name@) matches Some(p) ==> r is Ok && final(self).active()
                == default_constructor(p).builds(),
    {
        match LoadBalancingPolicy::from_name(strategy_name) {
            Some(p) => self.set_strategy(p),
            None => Err(LbError::UnknownStrategy),
        }
    }

    /// What each worker offers the strategy, given the live handle count of
    /// each.
    pub fn loads(&self, connections: &[usize]) -> (v: Vec<WorkerLoad>)
        requires
            connections@.len() == self.pool().len(),
        ensures
            v@ == worker_loads(self.pool(), connections@),
    {
        let mut v: Vec<WorkerLoad> = Vec::new();
        let mut i: usize = 0;
        while i < self.workers.len()
            invariant
                i <= self.workers@.len(),
                connections@.len() == self.workers@.len(),
                v@ =~= worker_loads(self.workers@, connections@).take(i as int),
            decreases self.workers@.len() - i,
        {
            let w = &self.workers[i];
            v.push(
                WorkerLoad {
                    running: w.is_running(),
                    connections: connections[i],
                    num_threads: w.num_threads,
                },
            );
            assert(worker_loads(self.workers@, connections@).take(i + 1) =~= worker_loads(
                self.workers@,
                connections@,
            ).take(i as int).push(v@.last()));
            i = i + 1;
        }
        assert(worker_loads(self.workers@, connections@).take(i as int) =~= worker_loads(
            self.workers@,
            connections@,
        ));
        v
    }

    /// Picks the worker for the next request with the strategy in force,
    /// given the live handle count of each worker, and returns its position.
    pub fn select_worker(&mut self, connections: &[usize]) -> (r: Result<usize, SelectError>)
        requires
            connections@.len() == old(self).pool().len(),
        ensures
            final(self).ports() == old(self).ports(),
            final(self).pool() == old(self).pool(),
            old(self).active().selects(
                worker_loads(old(self).pool(), connections@),
                r,
                final(self).active(),
            ),
            final(self).active().spec_policy() == old(self).active().spec_policy(),
            r matches Ok(i) ==> i < old(self).pool().len() && old(self).pool()[i as int].status
                == WorkerStatus::Running,
            r is Err <==> !has_running(worker_loads(old(self).pool(), connections@)),
    {
        let loads = self.loads(connections);
        self.strategy.select_worker(loads.as_slice())
    }

    /// Removes every worker that no longer runs and that nothing but the
    /// pool holds (its live handle count is one), returns them in pool
    /// order, and gives their ports back to the end of the port pool in the
    /// same order. The other workers keep their order.
    pub fn prune_workers(&mut self, connections: &[usize]) -> (removed: Vec<Worker<H>>)
        requires
            connections@.len() == old(self).pool().len(),
        ensures
            final(self).active() == old(self).active(),
            final(self).pool() == kept_by_prune(
                old(self).pool(),
                connections@,
                old(self).pool().len(),
            ),
            removed@ == removed_by_prune(old(self).pool(), connections@, old(self).pool().len()),
            final(self).ports() == old(self).ports() + ports_of(removed@),
            port_multiset(final(self).ports(), final(self).pool()) == port_multiset(
                old(self).ports(),
                old(self).pool(),
            ),
            ports_accounted(old(self).ports(), old(self).pool()) ==> ports_accounted(
                final(self).ports(),
                final(self).pool(),
            ),
    {
        let mut rest: Vec<Worker<H>> = Vec::new();
        std::mem::swap(&mut rest, &mut self.workers);
        let ghost all = rest@;
        let ghost cs = connections@;
        let ghost old_ports = self.ports_pool@;
        let mut kept: Vec<Worker<H>> = Vec::new();
        let mut removed: Vec<Worker<H>> = Vec::new();
        let mut k: usize = 0;
        let total = rest.len();
        assert(all.subrange(0, all.len() as int) =~= all);
        while rest.len() > 0
            invariant
                all.len() == total,
                k <= all.len(),
                cs.len() == all.len(),
                connections@ == cs,
                rest@ =~= all.subrange(k as int, all.len() as int),
                kept@ == kept_by_prune(all, cs, k as nat),
                removed@ == removed_by_prune(all, cs, k as nat),
                self.ports_pool@ == old_ports + ports_of(removed@),
                ports_of(kept@).to_multiset().add(ports_of(removed@).to_multiset()) =~= ports_of(
                    all.take(k as int),
                ).to_multiset(),
                self.strategy_registry == old(self).strategy_registry,
                self.strategy == old(self).active(),
            decreases rest@.len(),
        {
            assert(k < all.len());
            let ghost kept_before = kept@;
            let ghost removed_before = removed@;
            let w = rest.remove(0);
            assert(w == all[k as int]);
            assert(ports_of(all.take(k + 1)) =~= ports_of(all.take(k as int)).push(w.port));
            assert(ports_of(all.take(k + 1)).to_multiset() =~= ports_of(all.take(k as int)).to_multiset().insert(w.port));
            if !w.is_running() && connections[k] == 1 {
                self.ports_pool.push_back(w.port);
                removed.push(w);
                assert(ports_of(removed@) =~= ports_of(removed@.drop_last()).push(
                    removed@.last().port,
                ));
                assert(old_ports + ports_of(removed@) =~= (old_ports + ports_of(
                    removed@.drop_last(),
                )).push(removed@.last().port));
                assert(removed@.drop_last() =~= removed_before);
                assert(ports_of(removed@).to_multiset() =~= ports_of(removed_before).to_multiset().insert(w.port));
            } else {
                kept.push(w);
                assert(ports_of(kept@) =~= ports_of(kept@.drop_last()).push(kept@.last().port));
                assert(kept@.drop_last() =~= kept_before);
                assert(ports_of(kept@).to_multiset() =~= ports_of(kept_before).to_multiset().insert(w.port));
            }
            k = k + 1;
        }
        assert(all.take(all.len() as int) =~= all);
        self.workers = kept;
        proof {
            vstd::seq_lib::lemma_multiset_commutative(old_ports, ports_of(removed@));
        }
        removed
    }

    /// One round of shutting down: prunes as `prune_workers` does, and tells
    /// whether the pool is now empty, which ends the shutdown. While a round
    /// says no, another follows after a pause.
    pub fn exit_round(&mut self, connections: &[usize]) -> (r: (Vec<Worker<H>>, bool))
        requires
            connections@.len() == old(self).pool().len(),
        ensures
            final(self).active() == old(self).active(),
            final(self).pool() == kept_by_prune(
                old(self).pool(),
                connections@,
                old(self).pool().len(),
            ),
            r.0@ == removed_by_prune(old(self).pool(), connections@, old(self).pool().len()),
            final(self).ports() == old(self).ports() + ports_of(r.0@),
            ports_accounted(old(self).ports(), old(self).pool()) ==> ports_accounted(
                final(self).ports(),
                final(self).pool(),
            ),
            r.1 <==> final(self).pool().len() == 0,
    {
        let removed = self.prune_workers(connections);
        let done = self.workers.len() == 0;
        (removed, done)
    }
}

} // verus!
