use vstd::prelude::*;

verus! {

/// Port the balancer listens on.
pub const PORT: u16 = 1337;

/// First port handed out to spawned workers.
pub const FIRST_WORKER_PORT: u16 = 3000;

/// Number of ports in the worker port pool.
pub const MAX_WORKERS_COUNT: u16 = 1000;

} // verus!
