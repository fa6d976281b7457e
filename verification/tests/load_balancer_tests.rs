use load_balancer::config::{FIRST_WORKER_PORT, MAX_WORKERS_COUNT};
use load_balancer::load_balancer::decision_engine::engine1::Engine1;
use load_balancer::load_balancer::decision_engine::engine2::Engine2;
use load_balancer::load_balancer::decision_engine::{DecisionEngine, Rule};
use load_balancer::load_balancer::load_balancer::{LbError, LoadBalancer};
use load_balancer::load_balancer::strategy::{LoadBalancingPolicy, SelectError};
use load_balancer::load_balancer::worker::{
    random_thread_count, shutdown_command, thread_count_from_byte, worker_args, Worker,
    WorkerStatus,
};

fn launch(port: u16, threads: u8) -> (u16, u8) {
    (port, threads)
}

fn balancer(policy: LoadBalancingPolicy) -> LoadBalancer<(u16, u8)> {
    LoadBalancer::new(policy).unwrap()
}

#[test]
fn new_balancer_is_empty_with_full_port_pool() {
    let lb = balancer(LoadBalancingPolicy::LeastLoad);
    assert!(lb.workers().is_empty());
    assert_eq!(lb.strategy().policy(), LoadBalancingPolicy::LeastLoad);
    let ports: Vec<u16> = lb.available_ports().iter().copied().collect();
    assert_eq!(ports.len(), MAX_WORKERS_COUNT as usize);
    assert_eq!(ports[0], FIRST_WORKER_PORT);
    assert_eq!(ports[999], 3999);
}

#[test]
fn spawn_takes_ports_in_order() {
    let mut lb = balancer(LoadBalancingPolicy::RoundRobin);
    lb.spawn_worker(2, "a".to_string(), None, launch).unwrap();
    lb.spawn_worker(3, "b".to_string(), None, launch).unwrap();
    let w = lb.workers();
    assert_eq!(w.len(), 2);
    assert_eq!((w[0].port, w[0].num_threads, w[0].status), (3000, 2, WorkerStatus::Running));
    assert_eq!(w[0].name, "a");
    assert_eq!(w[0].handle, (3000, 2));
    assert_eq!((w[1].port, w[1].num_threads), (3001, 3));
    assert_eq!(lb.available_ports().front(), Some(&3002));
    assert_eq!(lb.available_ports().len(), 998);
}

#[test]
fn spawn_on_given_port_keeps_pool() {
    let mut lb = balancer(LoadBalancingPolicy::RoundRobin);
    lb.spawn_worker(1, "x".to_string(), Some(4242), launch).unwrap();
    assert_eq!(lb.workers()[0].port, 4242);
    assert_eq!(lb.workers()[0].handle, (4242, 1));
    assert_eq!(lb.available_ports().len(), 1000);
}

#[test]
fn spawn_fails_when_pool_is_empty() {
    let mut lb = balancer(LoadBalancingPolicy::RoundRobin);
    for i in 0..1000 {
        assert!(lb.spawn_worker(1, format!("w{}", i), None, launch).is_ok());
    }
    assert_eq!(
        lb.spawn_worker(1, "late".to_string(), None, launch),
        Err(LbError::NoAvailablePorts)
    );
    assert_eq!(lb.workers().len(), 1000);
    assert!(lb.spawn_worker(1, "given".to_string(), Some(5000), launch).is_ok());
}

#[test]
fn close_marks_worker_closing() {
    let mut lb = balancer(LoadBalancingPolicy::RoundRobin);
    lb.spawn_worker(1, "a".to_string(), None, launch).unwrap();
    lb.spawn_worker(1, "b".to_string(), None, launch).unwrap();
    lb.close_worker(1);
    assert_eq!(lb.workers()[0].status, WorkerStatus::Running);
    assert_eq!(lb.workers()[1].status, WorkerStatus::Closing);
    lb.close_worker(7);
    assert_eq!(lb.workers().len(), 2);
}

#[test]
fn prune_removes_idle_closed_workers_and_returns_ports() {
    let mut lb = balancer(LoadBalancingPolicy::RoundRobin);
    for name in ["a", "b", "c", "d"] {
        lb.spawn_worker(1, name.to_string(), None, launch).unwrap();
    }
    lb.close_worker(0);
    lb.close_worker(2);
    lb.close_worker(3);
    // worker 2 still serves a request
    let removed = lb.prune_workers(&[1, 1, 2, 1]);
    let removed_ports: Vec<u16> = removed.iter().map(|w| w.port).collect();
    assert_eq!(removed_ports, vec![3000, 3003]);
    let kept: Vec<&str> = lb.workers().iter().map(|w| w.name.as_str()).collect();
    assert_eq!(kept, vec!["b", "c"]);
    let ports: Vec<u16> = lb.available_ports().iter().copied().collect();
    assert_eq!(ports.len(), 998);
    assert_eq!(&ports[ports.len() - 2..], &[3000, 3003]);
}

#[test]
fn spawn_close_prune_restores_port_count() {
    let mut lb = balancer(LoadBalancingPolicy::RoundRobin);
    lb.spawn_worker(1, "a".to_string(), None, launch).unwrap();
    lb.close_worker(0);
    let removed = lb.prune_workers(&[1]);
    assert_eq!(removed.len(), 1);
    assert!(lb.workers().is_empty());
    let ports: Vec<u16> = lb.available_ports().iter().copied().collect();
    assert_eq!(ports.len(), 1000);
    assert_eq!(ports[0], 3001);
    assert_eq!(ports[999], 3000);
}

#[test]
fn close_all_closes_everything() {
    let mut lb = balancer(LoadBalancingPolicy::RoundRobin);
    for name in ["a", "b", "c"] {
        lb.spawn_worker(1, name.to_string(), None, launch).unwrap();
    }
    lb.close_all();
    assert!(lb.workers().iter().all(|w| w.status == WorkerStatus::Closing));
    let removed = lb.prune_workers(&[1, 1, 1]);
    assert_eq!(removed.len(), 3);
    assert!(lb.workers().is_empty());
}

#[test]
fn set_strategy_by_name() {
    let mut lb = balancer(LoadBalancingPolicy::RoundRobin);
    assert_eq!(lb.set_strategy_handler("Least Load"), Ok(()));
    assert_eq!(lb.strategy().policy(), LoadBalancingPolicy::LeastLoad);
    assert_eq!(lb.set_strategy_handler("least_load"), Err(LbError::UnknownStrategy));
    assert_eq!(lb.strategy().policy(), LoadBalancingPolicy::LeastLoad);
    assert_eq!(lb.set_strategy(LoadBalancingPolicy::LeastConnections), Ok(()));
    assert_eq!(lb.strategy().policy(), LoadBalancingPolicy::LeastConnections);
}

#[test]
fn balancer_selects_running_workers_only() {
    let mut lb = balancer(LoadBalancingPolicy::RoundRobin);
    assert_eq!(lb.select_worker(&[]), Err(SelectError::NoWorkers));
    lb.spawn_worker(1, "a".to_string(), None, launch).unwrap();
    lb.spawn_worker(1, "b".to_string(), None, launch).unwrap();
    lb.spawn_worker(1, "c".to_string(), None, launch).unwrap();
    lb.close_worker(1);
    let picks: Vec<usize> = (0..4).map(|_| lb.select_worker(&[1, 1, 1]).unwrap()).collect();
    assert_eq!(picks, vec![2, 0, 2, 0]);
    lb.set_strategy(LoadBalancingPolicy::LeastConnections).unwrap();
    assert_eq!(lb.select_worker(&[3, 1, 2]), Ok(2));
    lb.close_all();
    assert_eq!(lb.select_worker(&[1, 1, 1]), Err(SelectError::SelectionFailed));
}

#[test]
fn loads_reflect_workers() {
    let mut lb = balancer(LoadBalancingPolicy::RoundRobin);
    lb.spawn_worker(4, "a".to_string(), None, launch).unwrap();
    lb.spawn_worker(2, "b".to_string(), None, launch).unwrap();
    lb.close_worker(0);
    let loads = lb.loads(&[5, 7]);
    assert_eq!((loads[0].running, loads[0].connections, loads[0].num_threads), (false, 5, 4));
    assert_eq!((loads[1].running, loads[1].connections, loads[1].num_threads), (true, 7, 2));
}

#[test]
fn lb_error_messages() {
    assert_eq!(LbError::NoAvailablePorts.message(), "No available ports to spawn new worker");
    assert_eq!(LbError::FailedToSetStrategy.message(), "Failed to set strategy!");
    assert_eq!(LbError::StrategyNotInRequest.message(), "Strategy not found in request body!");
    assert_eq!(
        LbError::FailedToInitializeStrategy.message(),
        "Failed to initialize load balancing strategy!"
    );
    assert_eq!(LbError::UnknownStrategy.message(), "Matching variant not found");
}

#[test]
fn engine1_threshold() {
    let engine = Engine1::default();
    assert_eq!(engine.rules(), &[Rule::WorkerCount { max_workers: 5 }]);
    let mut lb = balancer(LoadBalancingPolicy::LeastLoad);
    for i in 0..5 {
        lb.spawn_worker(1, format!("w{}", i), None, launch).unwrap();
    }
    engine.select_strategy(&mut lb);
    assert_eq!(lb.strategy().policy(), LoadBalancingPolicy::LeastConnections);
    lb.spawn_worker(1, "w5".to_string(), None, launch).unwrap();
    engine.select_strategy(&mut lb);
    assert_eq!(lb.strategy().policy(), LoadBalancingPolicy::RoundRobin);
}

#[test]
fn engine2_threshold() {
    let engine = Engine2::default();
    let mut lb = balancer(LoadBalancingPolicy::LeastLoad);
    for i in 0..3 {
        lb.spawn_worker(1, format!("w{}", i), None, launch).unwrap();
    }
    engine.select_strategy(&mut lb);
    assert_eq!(lb.strategy().policy(), LoadBalancingPolicy::LeastConnections);
    lb.spawn_worker(1, "w3".to_string(), None, launch).unwrap();
    engine.select_strategy(&mut lb);
    assert_eq!(lb.strategy().policy(), LoadBalancingPolicy::RoundRobin);
}

#[test]
fn rule_evaluation() {
    let lb = balancer(LoadBalancingPolicy::RoundRobin);
    let rule = Rule::WorkerCount { max_workers: 0 };
    assert_eq!(rule.evaluate(&lb), Some(LoadBalancingPolicy::LeastConnections));
}

#[test]
fn worker_status_names() {
    assert_eq!(WorkerStatus::Running.name(), "Running");
    assert_eq!(WorkerStatus::Closing.name(), "Closing");
    assert_eq!(WorkerStatus::Closed.name(), "Closed");
    assert_eq!(WorkerStatus::Unknown.name(), "Unknown");
}

#[test]
fn worker_life_cycle() {
    let mut w = Worker::new("w".to_string(), 3000, 2, ());
    assert!(w.is_running());
    w.close();
    assert!(!w.is_running());
    assert_eq!(w.status, WorkerStatus::Closing);
}

#[test]
fn worker_process_arguments() {
    assert_eq!(worker_args(3007, 3), vec!["--port", "3007", "--num-threads", "3"]);
    assert_eq!(worker_args(0, 0), vec!["--port", "0", "--num-threads", "0"]);
    assert_eq!(worker_args(65535, 255), vec!["--port", "65535", "--num-threads", "255"]);
    assert_eq!(shutdown_command(), "shutdown\n");
}

#[test]
fn demo_thread_counts() {
    assert_eq!(thread_count_from_byte(0), 1);
    assert_eq!(thread_count_from_byte(4), 2);
    assert_eq!(thread_count_from_byte(255), 1);
    for _ in 0..100 {
        let n = random_thread_count();
        assert!((1..=3).contains(&n));
    }
}

#[test]
fn ports_stay_accounted_across_operations() {
    let mut lb = balancer(LoadBalancingPolicy::LeastConnections);
    for name in ["a", "b", "c", "d"] {
        lb.spawn_worker(2, name.to_string(), None, launch).unwrap();
    }
    lb.close_worker(1);
    lb.close_worker(3);
    lb.set_strategy_handler("Round Robin").unwrap();
    let removed = lb.prune_workers(&[1, 1, 2, 2]);
    assert_eq!(removed.len(), 1);
    assert_eq!(removed[0].port, 3001);
    lb.spawn_worker(1, "e".to_string(), None, launch).unwrap();
    let mut all: Vec<u16> = lb.available_ports().iter().copied().collect();
    all.extend(lb.workers().iter().map(|w| w.port));
    assert_eq!(all.len(), MAX_WORKERS_COUNT as usize);
    all.sort();
    let expected: Vec<u16> = (0..MAX_WORKERS_COUNT).map(|k| FIRST_WORKER_PORT + k as u16).collect();
    assert_eq!(all, expected);
}

#[test]
fn exit_rounds_until_pool_is_empty() {
    let mut lb = balancer(LoadBalancingPolicy::RoundRobin);
    lb.spawn_worker(1, "a".to_string(), None, launch).unwrap();
    lb.spawn_worker(1, "b".to_string(), None, launch).unwrap();
    lb.close_all();
    // worker b still serves a request
    let (removed, done) = lb.exit_round(&[1, 2]);
    assert_eq!(removed.len(), 1);
    assert!(!done);
    let (removed, done) = lb.exit_round(&[1]);
    assert_eq!(removed[0].name, "b");
    assert!(done);
    assert_eq!(lb.available_ports().len(), MAX_WORKERS_COUNT as usize);
    let (removed, done) = lb.exit_round(&[]);
    assert!(removed.is_empty() && done);
}
