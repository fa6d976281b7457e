use load_balancer::load_balancer::strategy::least_connection::LeastConnectionStrategy;
use load_balancer::load_balancer::strategy::least_load::LeastLoadStrategy;
use load_balancer::load_balancer::strategy::round_robin::RoundRobinStrategy;
use load_balancer::load_balancer::strategy::{
    LoadBalancingPolicy, LoadBalancingStrategy, SelectError, Strategy, StrategyConstructor,
    StrategyRegistry, WorkerLoad,
};

fn load(running: bool, connections: usize, num_threads: u8) -> WorkerLoad {
    WorkerLoad { running, connections, num_threads }
}

#[test]
fn policy_names_round_trip() {
    for p in LoadBalancingPolicy::all() {
        assert_eq!(LoadBalancingPolicy::from_name(p.name()), Some(p));
    }
    assert_eq!(LoadBalancingPolicy::RoundRobin.name(), "Round Robin");
    assert_eq!(LoadBalancingPolicy::LeastConnections.name(), "Least Connections");
    assert_eq!(LoadBalancingPolicy::LeastLoad.name(), "Least Load");
}

#[test]
fn policy_from_unknown_name() {
    assert_eq!(LoadBalancingPolicy::from_name("round robin"), None);
    assert_eq!(LoadBalancingPolicy::from_name("Round Robin "), None);
    assert_eq!(LoadBalancingPolicy::from_name(""), None);
    assert_eq!(LoadBalancingPolicy::from_name("least_connections"), None);
}

#[test]
fn policies_listed_in_order() {
    assert_eq!(
        LoadBalancingPolicy::all(),
        vec![
            LoadBalancingPolicy::RoundRobin,
            LoadBalancingPolicy::LeastConnections,
            LoadBalancingPolicy::LeastLoad
        ]
    );
}

#[test]
fn round_robin_cycles_running_workers() {
    let workers = vec![load(true, 1, 1), load(false, 1, 1), load(true, 1, 1), load(true, 1, 1)];
    let mut s = RoundRobinStrategy::new();
    let picks: Vec<usize> = (0..6).map(|_| s.select_worker(&workers).unwrap()).collect();
    assert_eq!(picks, vec![2, 3, 0, 2, 3, 0]);
}

#[test]
fn round_robin_visits_each_running_worker_once_per_cycle() {
    let workers: Vec<WorkerLoad> = (0..7).map(|i| load(i % 3 != 1, 1, 1)).collect();
    let running = workers.iter().filter(|w| w.running).count();
    let mut s = RoundRobinStrategy::new();
    let mut seen: Vec<usize> = (0..running).map(|_| s.select_worker(&workers).unwrap()).collect();
    seen.sort();
    seen.dedup();
    assert_eq!(seen.len(), running);
    assert!(seen.iter().all(|&i| workers[i].running));
}

#[test]
fn round_robin_errors() {
    let mut s = RoundRobinStrategy::new();
    assert_eq!(s.select_worker(&[]), Err(SelectError::NoWorkers));
    assert_eq!(s.select_worker(&[load(false, 1, 1)]), Err(SelectError::NoRunningWorkers));
    assert_eq!(s.policy(), LoadBalancingPolicy::RoundRobin);
}

#[test]
fn least_connections_picks_last_least_connected() {
    let workers = vec![load(true, 3, 1), load(true, 1, 1), load(false, 0, 1), load(true, 1, 4)];
    let mut s = LeastConnectionStrategy::new();
    assert_eq!(s.select_worker(&workers), Ok(3));
    let workers = vec![load(true, 2, 1), load(true, 5, 1)];
    assert_eq!(s.select_worker(&workers), Ok(0));
}

#[test]
fn least_connections_errors() {
    let mut s = LeastConnectionStrategy::new();
    assert_eq!(s.select_worker(&[]), Err(SelectError::NoWorkers));
    assert_eq!(
        s.select_worker(&[load(false, 1, 1), load(false, 2, 1)]),
        Err(SelectError::SelectionFailed)
    );
    assert_eq!(s.policy(), LoadBalancingPolicy::LeastConnections);
}

#[test]
fn least_load_picks_lowest_ratio() {
    // ratios: 1.0, 1.0, 0.75, infinite
    let workers = vec![load(true, 2, 2), load(true, 1, 1), load(true, 3, 4), load(true, 2, 0)];
    let mut s = LeastLoadStrategy::new();
    assert_eq!(s.select_worker(&workers), Ok(2));
    // ties go to the last worker
    let workers = vec![load(true, 2, 2), load(true, 1, 1), load(false, 0, 3)];
    assert_eq!(s.select_worker(&workers), Ok(1));
}

#[test]
fn least_load_with_threadless_idle_worker() {
    // a running worker with no handles and no threads has no load ratio;
    // the pick then goes as the pairwise comparisons in pool order decide
    let mut s = LeastLoadStrategy::new();
    let workers = vec![load(true, 0, 0), load(true, 1, 1)];
    assert_eq!(s.select_worker(&workers), Ok(1));
    let workers = vec![load(true, 1, 1), load(true, 0, 0)];
    assert_eq!(s.select_worker(&workers), Ok(1));
    let workers = vec![load(true, 0, 0), load(true, 1, 1), load(true, 2, 1)];
    assert_eq!(s.select_worker(&workers), Ok(1));
    let workers = vec![load(true, 3, 0), load(true, 0, 0), load(false, 0, 1)];
    assert_eq!(s.select_worker(&workers), Ok(1));
}

#[test]
fn least_load_errors() {
    let mut s = LeastLoadStrategy::new();
    assert_eq!(s.select_worker(&[]), Err(SelectError::NoWorkers));
    assert_eq!(s.select_worker(&[load(false, 1, 1)]), Err(SelectError::SelectionFailed));
    assert_eq!(s.policy(), LoadBalancingPolicy::LeastLoad);
}

fn float_least_load(workers: &[WorkerLoad]) -> Option<usize> {
    workers
        .iter()
        .enumerate()
        .filter(|(_, w)| w.running)
        .reduce(|a, b| {
            let a_load = a.1.connections as f64 / a.1.num_threads as f64;
            let b_load = b.1.connections as f64 / b.1.num_threads as f64;
            if b_load > a_load {
                a
            } else {
                b
            }
        })
        .map(|(i, _)| i)
}

#[test]
fn least_load_agrees_with_float_ratios() {
    let mut seed: u64 = 12345;
    for _ in 0..500 {
        let n = (seed % 6) as usize;
        let mut workers = Vec::new();
        for _ in 0..n {
            seed = seed.wrapping_mul(6364136223846793005).wrapping_add(1442695040888963407);
            let running = (seed >> 33) % 4 != 0;
            let connections = ((seed >> 40) % 5) as usize + 1;
            let threads = ((seed >> 50) % 4) as u8;
            workers.push(load(running, connections, threads));
        }
        seed = seed.wrapping_mul(6364136223846793005).wrapping_add(1442695040888963407);
        let mut s = LeastLoadStrategy::new();
        assert_eq!(s.select_worker(&workers).ok(), float_least_load(&workers));
    }
}

#[test]
fn select_error_messages() {
    assert_eq!(SelectError::NoWorkers.message(), "There are no workers to select form!");
    assert_eq!(SelectError::NoRunningWorkers.message(), "No running workers available!");
    assert_eq!(SelectError::SelectionFailed.message(), "Failed to select worker");
}

#[test]
fn default_registry_builds_each_policy() {
    let registry = StrategyRegistry::default();
    for p in LoadBalancingPolicy::all() {
        let s = registry.build(&p).unwrap();
        assert_eq!(s.policy(), p);
    }
}

#[test]
fn empty_registry_builds_nothing() {
    let registry = StrategyRegistry::new();
    assert!(registry.build(&LoadBalancingPolicy::RoundRobin).is_none());
}

#[test]
fn first_registration_wins() {
    let mut registry = StrategyRegistry::new();
    registry.register(LoadBalancingPolicy::LeastLoad, StrategyConstructor::RoundRobin);
    registry.register(LoadBalancingPolicy::LeastLoad, StrategyConstructor::LeastLoad);
    let s = registry.build(&LoadBalancingPolicy::LeastLoad).unwrap();
    assert_eq!(s.policy(), LoadBalancingPolicy::RoundRobin);
    assert!(registry.build(&LoadBalancingPolicy::LeastConnections).is_none());
}

#[test]
fn strategy_dispatches_to_its_kind() {
    let workers = vec![load(true, 5, 1), load(true, 1, 1), load(true, 9, 1)];
    let mut rr = Strategy::RoundRobin(RoundRobinStrategy::new());
    assert_eq!(rr.select_worker(&workers), Ok(1));
    let mut lc = Strategy::LeastConnections(LeastConnectionStrategy::new());
    assert_eq!(lc.select_worker(&workers), Ok(1));
    let mut ll = Strategy::LeastLoad(LeastLoadStrategy::new());
    assert_eq!(ll.select_worker(&workers), Ok(1));
}
