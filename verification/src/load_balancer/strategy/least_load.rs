use crate::load_balancer::strategy::{
    has_running, LoadBalancingPolicy, LoadBalancingStrategy, SelectError, WorkerLoad,
};
use vstd::prelude::*;

verus! {

/// Picks the running worker with the fewest live handles per thread.
pub struct LeastLoadStrategy {}

/// `a` carries no more load per thread than `b`: the ratios
/// `connections / num_threads` compared by cross-multiplication, so that a
/// worker with no threads and some connections weighs more than any other.
pub open spec fn load_le(a: WorkerLoad, b: WorkerLoad) -> bool {
    a.connections * b.num_threads <= b.connections * a.num_threads
}

/// Every running worker has a load ratio: none has both no connections and
/// no threads.
pub open spec fn loads_defined(s: Seq<WorkerLoad>) -> bool {
    forall|i: int|
        0 <= i < s.len() && #[trigger] s[i].running ==> !(s[i].connections == 0
            && s[i].num_threads == 0)
}

/// `i` is a running worker whose load is no greater than that of any running
/// worker of `s`, and the last such one in pool order.
pub open spec fn is_least_loaded(s: Seq<WorkerLoad>, i: int) -> bool {
    &&& 0 <= i < s.len()
    &&& s[i].running
    &&& forall|j: int| 0 <= j < s.len() && #[trigger] s[j].running ==> load_le(s[i], s[j])
    &&& forall|j: int| i < j < s.len() && #[trigger] s[j].running ==> !load_le(s[j], s[i])
}

/// The pick after looking at the first `n` workers of `s` in pool order:
/// the first running one, then each later running worker that is not
/// strictly heavier than the pick so far replaces it.
pub open spec fn least_load_pick(s: Seq<WorkerLoad>, n: nat) -> Option<int>
    decreases n,
{
    if n == 0 {
        None
    } else {
        let i = n - 1;
        let before = least_load_pick(s, (n - 1) as nat);
        if !s[i].running {
            before
        } else {
            match before {
                None => Some(i),
                Some(b) => if load_le(s[i], s[b]) {
                    Some(i)
                } else {
                    Some(b)
                },
            }
        }
    }
}

/// What a least-load pick returns: an error for an empty pool or a pool with
/// no running worker, otherwise the running worker that `least_load_pick`
/// settles on, which is the last least-loaded one where every running worker
/// has a load ratio.
pub open spec fn least_load_selects(workers: Seq<WorkerLoad>, r: Result<usize, SelectError>) -> bool {
    if workers.len() == 0 {
        r == Err::<usize, SelectError>(SelectError::NoWorkers)
    } else if !has_running(workers) {
        r == Err::<usize, SelectError>(SelectError::SelectionFailed)
    } else {
        r matches Ok(i) && i < workers.len() && workers[i as int].running && least_load_pick(
            workers,
            workers.len(),
        ) == Some(i as int) && (loads_defined(workers) ==> is_least_loaded(workers, i as int))
    }
}

/// Load comparison is transitive between workers that have a load ratio.
pub proof fn lemma_load_le_transitive(a: WorkerLoad, b: WorkerLoad, c: WorkerLoad)
    requires
        !(a.connections == 0 && a.num_threads == 0),
        !(b.connections == 0 && b.num_threads == 0),
        !(c.connections == 0 && c.num_threads == 0),
        load_le(a, b),
        load_le(b, c),
    ensures
        load_le(a, c),
{
    let (ac, at, bc, bt, cc, ct) = (
        a.connections as int,
        a.num_threads as int,
        b.connections as int,
        b.num_threads as int,
        c.connections as int,
        c.num_threads as int,
    );
    if bt > 0 {
        assert(ac * ct <= cc * at) by (nonlinear_arith)
            requires
                ac * bt <= bc * at,
                bc * ct <= cc * bt,
                bt > 0,
                ac >= 0,
                at >= 0,
                bc >= 0,
                ct >= 0,
                cc >= 0,
        {
            assert(ac * bt * ct <= bc * at * ct);
            assert(bc * ct * at <= cc * bt * at);
        }
    } else {
        assert(bc > 0);
        assert(bc * ct <= 0) by (nonlinear_arith)
            requires
                bc * ct <= cc * bt,
                bt == 0,
        ;
        assert(ct == 0) by (nonlinear_arith)
            requires
                bc * ct <= 0,
                bc > 0,
                ct >= 0,
        ;
        assert(ac * ct <= cc * at) by (nonlinear_arith)
            requires
                ct == 0,
                cc >= 0,
                at >= 0,
        ;
    }
}

/// Whether `b` carries strictly more load per thread than `a`.
fn heavier(b: &WorkerLoad, a: &WorkerLoad) -> (r: bool)
    ensures
        r == !load_le(*b, *a),
{
    let bc: u128 = b.connections as u128;
    let at: u128 = a.num_threads as u128;
    let ac: u128 = a.connections as u128;
    let bt: u128 = b.num_threads as u128;
    assert(bc * at <= 0xffff_ffff_ffff_ffffu128 * 0xffu128) by (nonlinear_arith)
        requires
            bc <= 0xffff_ffff_ffff_ffffu128,
            at <= 0xffu128,
    ;
    assert(ac * bt <= 0xffff_ffff_ffff_ffffu128 * 0xffu128) by (nonlinear_arith)
        requires
            ac <= 0xffff_ffff_ffff_ffffu128,
            bt <= 0xffu128,
    ;
    let lhs: u128 = bc * at;
    let rhs: u128 = ac * bt;
    lhs > rhs
}

impl LoadBalancingStrategy for LeastLoadStrategy {
    open spec fn implements(&self) -> LoadBalancingPolicy {
        LoadBalancingPolicy::LeastLoad
    }

    fn policy(&self) -> (p: LoadBalancingPolicy) {
        LoadBalancingPolicy::LeastLoad
    }

    fn new() -> (s: Self) {
        LeastLoadStrategy {}
    }

    fn select_worker(&mut self, workers: &[WorkerLoad]) -> (r: Result<usize, SelectError>)
        ensures
            least_load_selects(workers@, r),
    {
        if workers.len() == 0 {
            return Err(SelectError::NoWorkers);
        }
        let mut best: Option<usize> = None;
        let mut i: usize = 0;
        while i < workers.len()
            invariant
                i <= workers@.len(),
                best is None ==> least_load_pick(workers@, i as nat) is None,
                best matches Some(b) ==> least_load_pick(workers@, i as nat) == Some(b as int),
                best is None ==> forall|j: int| 0 <= j < i ==> !(#[trigger] workers@[j]).running,
                best matches Some(b) ==> {
                    &&& b < i
                    &&& workers@[b as int].running
                    &&& loads_defined(workers@) ==> forall|j: int|
                        0 <= j < i && #[trigger] workers@[j].running ==> load_le(
                            workers@[b as int],
                            workers@[j],
                        )
                    &&& loads_defined(workers@) ==> forall|j: int|
                        b < j < i && #[trigger] workers@[j].running ==> !load_le(
                            workers@[j],
                            workers@[b as int],
                        )
                },
            decreases workers@.len() - i,
        {
            if workers[i].running {
                match best {
                    None => {
                        best = Some(i);
                    },
                    Some(b) => {
                        if !heavier(&workers[i], &workers[b]) {
                            proof {
                                if loads_defined(workers@) {
                                    assert forall|j: int|
                                        0 <= j < i + 1 && #[trigger] workers@[j].running
                                            implies load_le(workers@[i as int], workers@[j]) by {
                                        if j < i {
                                            lemma_load_le_transitive(
                                                workers@[i as int],
                                                workers@[b as int],
                                                workers@[j],
                                            );
                                        }
                                    }
                                }
                            }
                            best = Some(i);
                        }
                    },
                }
            }
            i = i + 1;
        }
        match best {
            None => Err(SelectError::SelectionFailed),
            Some(b) => Ok(b),
        }
    }
}

} // verus!
