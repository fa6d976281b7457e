//! Worker pool, balancing strategies, rule-based strategy selection and the
//! dashboard state machine of an HTTP load balancer, with their contracts.
pub mod config;
pub mod load_balancer;
pub mod strategy;
pub mod text;
pub mod tui;
