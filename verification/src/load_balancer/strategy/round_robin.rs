use crate::load_balancer::strategy::{
    has_running, lemma_running_positions, running_positions, LoadBalancingPolicy,
    LoadBalancingStrategy, SelectError, WorkerLoad,
};
use vstd::prelude::*;

verus! {

/// Cycles through the running workers in pool order.
pub struct RoundRobinStrategy {
    current_worker_index: usize,
}

impl RoundRobinStrategy {
    /// Where the cycle stands: the running worker picked last, counted among
    /// the running workers.
    pub closed spec fn cursor(&self) -> nat {
        self.current_worker_index as nat
    }
}

/// A round robin strategy that has not picked yet.
pub closed spec fn initial() -> RoundRobinStrategy {
    RoundRobinStrategy { current_worker_index: 0 }
}

/// The cursor after a pick among `n` running workers.
pub open spec fn next_cursor(cursor: nat, n: nat) -> nat
    recommends
        n > 0,
{
    ((cursor + 1) as int % (n as int)) as nat
}

/// What a round robin pick returns: an error for an empty pool or a pool
/// with no running worker (the strategy unchanged), and otherwise the
/// running worker after the one picked last, wrapping around.
pub open spec fn round_robin_selects(
    before: RoundRobinStrategy,
    workers: Seq<WorkerLoad>,
    r: Result<usize, SelectError>,
    after: RoundRobinStrategy,
) -> bool {
    let running = running_positions(workers);
    if workers.len() == 0 {
        r == Err::<usize, SelectError>(SelectError::NoWorkers) && after == before
    } else if running.len() == 0 {
        r == Err::<usize, SelectError>(SelectError::NoRunningWorkers) && after == before
    } else {
        let c = next_cursor(before.cursor(), running.len());
        &&& after.cursor() == c
        &&& r matches Ok(i) && i == running[c as int]
    }
}

impl LoadBalancingStrategy for RoundRobinStrategy {
    open spec fn implements(&self) -> LoadBalancingPolicy {
        LoadBalancingPolicy::RoundRobin
    }

    fn policy(&self) -> (p: LoadBalancingPolicy) {
        LoadBalancingPolicy::RoundRobin
    }

    fn new() -> (s: Self)
        ensures
            s == initial(),
            s.cursor() == 0,
    {
        RoundRobinStrategy { current_worker_index: 0 }
    }

    fn select_worker(&mut self, workers: &[WorkerLoad]) -> (r: Result<usize, SelectError>)
        ensures
            round_robin_selects(*old(self), workers@, r, *final(self)),
    {
        proof {
            lemma_running_positions(workers@);
        }
        if workers.len() == 0 {
            return Err(SelectError::NoWorkers);
        }
        let mut running: Vec<usize> = Vec::new();
        let mut i: usize = 0;
        while i < workers.len()
            invariant
                i <= workers@.len(),
                running@.len() == running_positions(workers@.take(i as int)).len(),
                forall|k: int|
                    0 <= k < running@.len() ==> running@[k] as int == running_positions(
                        workers@.take(i as int),
                    )[k],
            decreases workers@.len() - i,
        {
            assert(workers@.take(i + 1).drop_last() =~= workers@.take(i as int));
            if workers[i].running {
                running.push(i);
            }
            i = i + 1;
        }
        assert(workers@.take(workers@.len() as int) =~= workers@);
        if running.len() == 0 {
            return Err(SelectError::NoRunningWorkers);
        }
        let n = running.len();
        self.current_worker_index = (self.current_worker_index % n + 1) % n;
        proof {
            lemma_mod_succ(old(self).current_worker_index as int, n as int);
        }
        Ok(running[self.current_worker_index])
    }
}

/// Over as many consecutive picks as there are running workers, on a pool
/// that does not change, round robin picks every running worker exactly once.
pub proof fn lemma_round_robin_visits_each_once(cursor: nat, n: nat, a: nat, b: nat)
    requires
        n > 0,
        a < n,
        b < n,
        a != b,
    ensures
        cursor_after(cursor, n, a) != cursor_after(cursor, n, b),
        cursor_after(cursor, n, a) < n,
{
    lemma_cursor_after(cursor, n, a);
    lemma_cursor_after(cursor, n, b);
    let x = (cursor + 1) as int;
    let ni = n as int;
    assert(((x + a) % ni) != ((x + b) % ni)) by {
        vstd::arithmetic::div_mod::lemma_fundamental_div_mod(x + a, ni);
        vstd::arithmetic::div_mod::lemma_fundamental_div_mod(x + b, ni);
        if (x + a) % ni == (x + b) % ni {
            let qa = (x + a) / ni;
            let qb = (x + b) / ni;
            assert(a - b == ni * (qa - qb)) by (nonlinear_arith)
                requires
                    x + a == ni * qa + (x + a) % ni,
                    x + b == ni * qb + (x + b) % ni,
                    (x + a) % ni == (x + b) % ni,
            ;
            if qa == qb {
                assert(a - b == 0) by (nonlinear_arith)
                    requires
                        a - b == ni * (qa - qb),
                        qa == qb,
                ;
            } else if qa > qb {
                assert(ni * (qa - qb) >= ni) by (nonlinear_arith)
                    requires
                        qa - qb >= 1,
                        ni > 0,
                ;
            } else {
                assert(ni * (qb - qa) >= ni) by (nonlinear_arith)
                    requires
                        qb - qa >= 1,
                        ni > 0,
                ;
                assert(b - a == ni * (qb - qa)) by (nonlinear_arith)
                    requires
                        a - b == ni * (qa - qb),
                ;
            }
            assert(false);
        }
    }
    vstd::arithmetic::div_mod::lemma_mod_bound(x + a, ni);
}

/// Pick `k` of `results` is the running worker at place `(j + k) % n` of
/// `running`, the `n` running workers in pool order.
pub open spec fn cycles_from(
    results: Seq<Result<usize, SelectError>>,
    running: Seq<int>,
    j: int,
) -> bool {
    &&& 0 <= j < running.len()
    &&& forall|k: int|
        0 <= k < results.len() ==> (#[trigger] results[k] matches Ok(i) && i == running[(j + k)
            % (running.len() as int)])
}

/// Consecutive round robin picks on a pool that does not change cycle
/// through its running workers in pool order: for some start `j`, pick `k`
/// returns the running worker at place `(j + k) % n` among the `n` running
/// ones, so any `n` consecutive picks return each running worker once.
pub proof fn lemma_round_robin_cycles(
    states: Seq<RoundRobinStrategy>,
    results: Seq<Result<usize, SelectError>>,
    workers: Seq<WorkerLoad>,
)
    requires
        has_running(workers),
        states.len() == results.len() + 1,
        forall|k: int|
            0 <= k < results.len() ==> round_robin_selects(
                #[trigger] states[k],
                workers,
                results[k],
                states[k + 1],
            ),
    ensures
        exists|j: int| #[trigger] cycles_from(results, running_positions(workers), j),
{
    lemma_running_positions(workers);
    let running = running_positions(workers);
    let n = running.len() as int;
    let c0 = states[0].cursor() as int;
    let j = (c0 + 1) % n;
    assert forall|k: int| 0 <= k < results.len() implies (#[trigger] results[k] matches Ok(i) && i
        == running[(j + k) % n]) by {
        lemma_round_robin_state(states, results, workers, k);
        lemma_mod_succ(c0 + k, n);
        vstd::arithmetic::div_mod::lemma_add_mod_noop_right(k, c0 + 1, n);
        if k == 0 {
            vstd::arithmetic::div_mod::lemma_small_mod(0, n as nat);
        }
    }
    vstd::arithmetic::div_mod::lemma_mod_bound(c0 + 1, n);
    assert(cycles_from(results, running, j));
}

/// Where the cursor stands before pick `k` of consecutive picks.
proof fn lemma_round_robin_state(
    states: Seq<RoundRobinStrategy>,
    results: Seq<Result<usize, SelectError>>,
    workers: Seq<WorkerLoad>,
    k: int,
)
    requires
        has_running(workers),
        states.len() == results.len() + 1,
        forall|k: int|
            0 <= k < results.len() ==> round_robin_selects(
                #[trigger] states[k],
                workers,
                results[k],
                states[k + 1],
            ),
        0 <= k < states.len(),
    ensures
        k == 0 ==> states[k].cursor() == states[0].cursor(),
        k > 0 ==> states[k].cursor() as int == (states[0].cursor() + k) % (running_positions(
            workers,
        ).len() as int),
    decreases k,
{
    lemma_running_positions(workers);
    let n = running_positions(workers).len() as int;
    if k > 0 {
        lemma_round_robin_state(states, results, workers, k - 1);
        assert(round_robin_selects(states[k - 1], workers, results[k - 1], states[k]));
        if k > 1 {
            lemma_mod_succ(states[0].cursor() + k - 1, n);
        }
    }
}

/// The cursor after `k + 1` picks among `n` running workers, starting at
/// `cursor`.
pub open spec fn cursor_after(cursor: nat, n: nat, k: nat) -> nat
    recommends
        n > 0,
    decreases k,
{
    if k == 0 {
        next_cursor(cursor, n)
    } else {
        next_cursor(cursor_after(cursor, n, (k - 1) as nat), n)
    }
}

/// After `k + 1` picks, the cursor stands `k + 1` places further, modulo `n`.
pub proof fn lemma_cursor_after(cursor: nat, n: nat, k: nat)
    requires
        n > 0,
    ensures
        cursor_after(cursor, n, k) == ((cursor + 1 + k) as int) % (n as int),
    decreases k,
{
    if k > 0 {
        lemma_cursor_after(cursor, n, (k - 1) as nat);
        lemma_mod_succ((cursor + k) as int, n as int);
    }
}

/// Taking the remainder before adding one does not change the result.
proof fn lemma_mod_succ(c: int, n: int)
    requires
        n > 0,
        c >= 0,
    ensures
        (c % n + 1) % n == (c + 1) % n,
{
    vstd::arithmetic::div_mod::lemma_add_mod_noop_right(1, c, n);
}

} // verus!
