use vstd::prelude::*;

verus! {

/// Picks, among all workers, the first one with the fewest live handles.
pub struct LeastConnectionStrategy {}

/// `i` is the first of the workers with the fewest connections.
pub open spec fn is_first_least_connected(connections: Seq<usize>, i: int) -> bool {
    &&& 0 <= i < connections.len()
    &&& forall|j: int| 0 <= j < connections.len() ==> connections[i] <= connections[j]
    &&& forall|j: int| 0 <= j < i ==> connections[i] < connections[j]
}

impl LeastConnectionStrategy {
    pub fn new() -> (s: Self) {
        LeastConnectionStrategy {}
    }

    /// Picks a worker of a non-empty pool, given the live handle count of
    /// each, and returns its position.
    pub fn select_worker(&self, connections: &[usize]) -> (i: usize)
        requires
            connections@.len() > 0,
        ensures
            is_first_least_connected(connections@, i as int),
    {
        let mut best: usize = 0;
        let mut k: usize = 1;
        while k < connections.len()
            invariant
                1 <= k <= connections@.len(),
                best < k,
                forall|j: int| 0 <= j < k ==> connections@[best as int] <= connections@[j],
                forall|j: int| 0 <= j < best ==> connections@[best as int] < connections@[j],
            decreases connections@.len() - k,
        {
            if connections[k] < connections[best] {
                best = k;
            }
            k = k + 1;
        }
        best
    }
}

} // verus!
