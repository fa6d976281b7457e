use load_balancer::strategy::least_connection::LeastConnectionStrategy;
use load_balancer::strategy::round_robin::RoundRobinStrategy;
use load_balancer::load_balancer::port_scan::next_port;
use load_balancer::strategy::{strategy_from_name, LoadBalancerStrategy, NamedStrategy};
use load_balancer::text::{parse_u16, push_decimal, str_equals};
use load_balancer::tui::component::add_item_menu::AddItemMenu;
use load_balancer::tui::component::{HandleEvent, KeyCode};

#[test]
fn port_parsing_matches_std() {
    let cases = [
        "", "0", "1", "3000", "+3000", "65535", "65536", "99999999999", "-1", "+", "++1", " 1",
        "1 ", "12a", "٣", "007", "+0", "-0", "1_000",
    ];
    for s in cases {
        assert_eq!(parse_u16(s), s.parse::<u16>().ok(), "{:?}", s);
    }
    for n in (0u32..70000).step_by(97) {
        let s = n.to_string();
        assert_eq!(parse_u16(&s), s.parse::<u16>().ok());
    }
}

#[test]
fn decimal_rendering_matches_std() {
    for n in [0u64, 7, 10, 99, 100, 3000, 65535, u64::MAX] {
        let mut s = String::from("x");
        push_decimal(&mut s, n);
        assert_eq!(s, format!("x{}", n));
    }
}

#[test]
fn string_equality() {
    assert!(str_equals("abc", "abc"));
    assert!(!str_equals("abc", "abd"));
    assert!(!str_equals("abc", "ab"));
    assert!(str_equals("", ""));
}

#[test]
fn popup_text_editing() {
    let mut m = AddItemMenu::new();
    m.handle_key(KeyCode::Char('a'));
    m.handle_key(KeyCode::Char('é'));
    assert_eq!(m.name, "aé");
    m.handle_key(KeyCode::Backspace);
    assert_eq!(m.name, "a");
    m.handle_key(KeyCode::Backspace);
    m.handle_key(KeyCode::Backspace);
    assert_eq!(m.name, "");
}

#[test]
fn popup_port_accepts_numeric_characters_only() {
    let mut m = AddItemMenu::new();
    m.handle_key(KeyCode::Tab);
    for c in ['7', 'a', '+', '¾', '٣'] {
        m.handle_key(KeyCode::Char(c));
    }
    assert_eq!(m.port_str, "7¾٣");
}

#[test]
fn snake_case_strategy_names() {
    assert_eq!(LoadBalancerStrategy::from_name("round_robin"), Some(LoadBalancerStrategy::RoundRobin));
    assert_eq!(
        LoadBalancerStrategy::from_name("least_connections"),
        Some(LoadBalancerStrategy::LeastConnections)
    );
    assert_eq!(LoadBalancerStrategy::from_name("Round Robin"), None);
    for s in [LoadBalancerStrategy::RoundRobin, LoadBalancerStrategy::LeastConnections] {
        assert_eq!(LoadBalancerStrategy::from_name(s.name()), Some(s));
    }
}

#[test]
fn first_round_robin_cycles_all_workers() {
    let mut s = RoundRobinStrategy::new();
    let picks: Vec<usize> = (0..5).map(|_| s.select_worker(3)).collect();
    assert_eq!(picks, vec![0, 1, 2, 0, 1]);
}

#[test]
fn first_least_connection_picks_fewest_held() {
    let s = LeastConnectionStrategy::new();
    assert_eq!(s.select_worker(&[3, 1, 2, 1]), 1);
    assert_eq!(s.select_worker(&[1, 2]), 0);
    assert_eq!(s.select_worker(&[4, 4, 4]), 0);
    assert_eq!(s.select_worker(&[5]), 0);
}

#[test]
fn next_port_finds_first_gap() {
    assert_eq!(next_port(&[]), 3000);
    assert_eq!(next_port(&[3000, 3001, 3002]), 3003);
    assert_eq!(next_port(&[3002, 3000, 3001]), 3003);
    assert_eq!(next_port(&[3000, 3002]), 3001);
    assert_eq!(next_port(&[3001]), 3000);
    assert_eq!(next_port(&[2999, 3000]), 3000);
    assert_eq!(next_port(&[3000, 3000]), 3001);
}

#[test]
fn snake_case_names_select_strategies() {
    assert!(matches!(strategy_from_name("round_robin"), Some(NamedStrategy::RoundRobin(_))));
    assert!(matches!(strategy_from_name("least_connections"), Some(NamedStrategy::LeastConnection(_))));
    assert!(strategy_from_name("Round Robin").is_none());
}
