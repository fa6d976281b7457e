use crate::load_balancer::strategy::{
    has_running, LoadBalancingPolicy, LoadBalancingStrategy, SelectError, WorkerLoad,
};
use vstd::prelude::*;

verus! {

/// Picks the running worker with the fewest live handles.
pub struct LeastConnectionStrategy {}

/// `i` is a running worker with no more connections than any running worker
/// of `s`, and the last such one in pool order.
pub open spec fn is_least_connected(s: Seq<WorkerLoad>, i: int) -> bool {
    &&& 0 <= i < s.len()
    &&& s[i].running
    &&& forall|j: int|
        0 <= j < s.len() && #[trigger] s[j].running ==> s[i].connections <= s[j].connections
    &&& forall|j: int|
        i < j < s.len() && #[trigger] s[j].running ==> s[i].connections < s[j].connections
}

/// What a least-connections pick returns: an error for an empty pool or a
/// pool with no running worker, otherwise the last least-connected worker.
pub open spec fn least_connection_selects(
    workers: Seq<WorkerLoad>,
    r: Result<usize, SelectError>,
) -> bool {
    if workers.len() == 0 {
        r == Err::<usize, SelectError>(SelectError::NoWorkers)
    } else if !has_running(workers) {
        r == Err::<usize, SelectError>(SelectError::SelectionFailed)
    } else {
        r matches Ok(i) && is_least_connected(workers, i as int)
    }
}

impl LoadBalancingStrategy for LeastConnectionStrategy {
    open spec fn implements(&self) -> LoadBalancingPolicy {
        LoadBalancingPolicy::LeastConnections
    }

    fn policy(&self) -> (p: LoadBalancingPolicy) {
        LoadBalancingPolicy::LeastConnections
    }

    fn new() -> (s: Self) {
        LeastConnectionStrategy {}
    }

    fn select_worker(&mut self, workers: &[WorkerLoad]) -> (r: Result<usize, SelectError>)
        ensures
            least_connection_selects(workers@, r),
    {
        if workers.len() == 0 {
            return Err(SelectError::NoWorkers);
        }
        let mut best: Option<usize> = None;
        let mut i: usize = 0;
        while i < workers.len()
            invariant
                i <= workers@.len(),
                best is None ==> forall|j: int| 0 <= j < i ==> !(#[trigger] workers@[j]).running,
                best matches Some(b) ==> {
                    &&& b < i
                    &&& workers@[b as int].running
                    &&& forall|j: int|
                        0 <= j < i && #[trigger] workers@[j].running
                            ==> workers@[b as int].connections <= workers@[j].connections
                    &&& forall|j: int|
                        b < j < i && #[trigger] workers@[j].running
                            ==> workers@[b as int].connections < workers@[j].connections
                },
            decreases workers@.len() - i,
        {
            if workers[i].running {
                match best {
                    None => {
                        best = Some(i);
                    },
                    Some(b) => {
                        if !(workers[i].connections > workers[b].connections) {
                            best = Some(i);
                        }
                    },
                }
            }
            i = i + 1;
        }
        match best {
            None => Err(SelectError::SelectionFailed),
            Some(b) => Ok(b),
        }
    }
}

} // verus!
