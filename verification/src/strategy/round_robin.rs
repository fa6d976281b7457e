use vstd::prelude::*;

verus! {

/// Cycles through all workers in pool order, running or not.
pub struct RoundRobinStrategy {
    current_worker_index: usize,
}

impl RoundRobinStrategy {
    /// The position of the worker the next pick returns.
    pub closed spec fn cursor(&self) -> nat {
        self.current_worker_index as nat
    }

    /// A strategy whose next pick is the first worker.
    pub fn new() -> (s: Self)
        ensures
            s.cursor() == 0,
    {
        RoundRobinStrategy { current_worker_index: 0 }
    }

    /// Picks the worker at the cursor among `worker_count` workers and moves
    /// the cursor to the next one, wrapping around.
    pub fn select_worker(&mut self, worker_count: usize) -> (i: usize)
        requires
            old(self).cursor() < worker_count,
        ensures
            i == old(self).cursor(),
            final(self).cursor() == (old(self).cursor() + 1) % (worker_count as nat),
    {
        let current = self.current_worker_index;
        self.current_worker_index = (current + 1) % worker_count;
        current
    }
}

} // verus!
