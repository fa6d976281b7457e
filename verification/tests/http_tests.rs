use load_balancer::load_balancer::http::{
    echo_message, is_shutdown_line, route, set_strategy_handler, strategy_reply, worker_target, worker_uri, Route,
};
use load_balancer::load_balancer::load_balancer::{LbError, LoadBalancer};
use load_balancer::load_balancer::strategy::LoadBalancingPolicy;

fn balancer() -> LoadBalancer<()> {
    LoadBalancer::new(LoadBalancingPolicy::RoundRobin).unwrap()
}

#[test]
fn routes_strategy_posts() {
    assert_eq!(route("POST", "/strategy"), Route::SetStrategy);
    assert_eq!(route("GET", "/strategy"), Route::Proxy);
    assert_eq!(route("POST", "/strategy/"), Route::Proxy);
    assert_eq!(route("POST", "/test"), Route::Proxy);
}

#[test]
fn strategy_request_switches_strategy() {
    let mut lb = balancer();
    let reply = set_strategy_handler(&mut lb, br#"{"strategy": "Least Connections"}"#).unwrap();
    assert_eq!((reply.status, reply.message), (200, "ok"));
    assert_eq!(lb.strategy().policy(), LoadBalancingPolicy::LeastConnections);
}

#[test]
fn strategy_request_unknown_name() {
    let mut lb = balancer();
    let reply = set_strategy_handler(&mut lb, br#"{"strategy": "Fastest"}"#).unwrap();
    assert_eq!((reply.status, reply.message), (400, "unknown strategy"));
    assert_eq!(lb.strategy().policy(), LoadBalancingPolicy::RoundRobin);
}

#[test]
fn strategy_request_without_name() {
    let mut lb = balancer();
    assert_eq!(
        set_strategy_handler(&mut lb, b"not json").err(),
        Some(LbError::StrategyNotInRequest)
    );
    assert_eq!(
        set_strategy_handler(&mut lb, br#"{"mode": "Least Load"}"#).err(),
        Some(LbError::StrategyNotInRequest)
    );
    assert_eq!(
        set_strategy_handler(&mut lb, br#"{"strategy": 3}"#).err(),
        Some(LbError::StrategyNotInRequest)
    );
    assert_eq!(
        set_strategy_handler(&mut lb, br#"["strategy"]"#).err(),
        Some(LbError::StrategyNotInRequest)
    );
    assert_eq!(lb.strategy().policy(), LoadBalancingPolicy::RoundRobin);
}

#[test]
fn strategy_request_last_duplicate_wins() {
    let mut lb = balancer();
    let body = br#"{"strategy": "Least Connections", "other": 1, "strategy": "Least Load"}"#;
    let reply = set_strategy_handler(&mut lb, body).unwrap();
    assert_eq!(reply.status, 200);
    assert_eq!(lb.strategy().policy(), LoadBalancingPolicy::LeastLoad);
}

#[test]
fn strategy_reply_from_field() {
    let mut lb = balancer();
    assert_eq!(strategy_reply(&mut lb, None).err(), Some(LbError::StrategyNotInRequest));
    let reply = strategy_reply(&mut lb, Some("Least Load".to_string())).unwrap();
    assert_eq!((reply.status, reply.message), (200, "ok"));
    let reply = strategy_reply(&mut lb, Some("least load".to_string())).unwrap();
    assert_eq!((reply.status, reply.message), (400, "unknown strategy"));
    assert_eq!(lb.strategy().policy(), LoadBalancingPolicy::LeastLoad);
}

#[test]
fn worker_uris() {
    assert_eq!(worker_uri(3000, Some("/test?x=1")), "http://localhost:3000/test?x=1");
    assert_eq!(worker_uri(3, None), "http://localhost:3");
}

#[test]
fn worker_echo() {
    assert_eq!(echo_message(3001, "GET", Some("/a?b")), "worker on port 3001 received GET /a?b");
    assert_eq!(echo_message(80, "POST", None), "worker on port 80 received POST /");
}

#[test]
fn shutdown_lines() {
    assert!(is_shutdown_line("shutdown\n"));
    assert!(!is_shutdown_line("shutdown"));
    assert!(!is_shutdown_line("shutdown\n\n"));
}

#[test]
fn worker_targets_are_checked_uris() {
    assert_eq!(
        worker_target(3000, Some("/test?x=1")),
        Some("http://localhost:3000/test?x=1".to_string())
    );
    assert_eq!(worker_target(3999, None), Some("http://localhost:3999".to_string()));
    assert_eq!(worker_target(3000, Some("/a b")), None);
    assert_eq!(worker_target(3000, Some(":1")), None);
}
