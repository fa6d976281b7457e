pub mod decision_engine;
pub mod load_balancer;
pub mod strategy;
pub mod worker;
pub mod http;
pub mod port_scan;
