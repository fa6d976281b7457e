use load_balancer::load_balancer::load_balancer::LoadBalancer;
use load_balancer::load_balancer::strategy::LoadBalancingPolicy;
use load_balancer::load_balancer::worker::WorkerStatus;
use load_balancer::tui::app::App;
use load_balancer::tui::component::add_item_menu::AddItemMenu;
use load_balancer::tui::component::main_menu::MainMenu;
use load_balancer::tui::component::mode_select_menu::ModeSelectMenu;
use load_balancer::tui::component::{
    ComponentAction, Event, HandleEvent, KeyCode, Position, Rect,
};
use load_balancer::tui::models::{AppMode, InputField, Item};
use load_balancer::tui::table_state::TableState;
use load_balancer::tui::ui::{header_title, mode_entry_label, mode_title, options_menu_area};

fn launch(port: u16, threads: u8) -> (u16, u8) {
    (port, threads)
}

fn balancer() -> LoadBalancer<(u16, u8)> {
    LoadBalancer::new(LoadBalancingPolicy::RoundRobin).unwrap()
}

fn key(code: KeyCode) -> Event {
    Event::Key { code, press: true }
}

fn click(column: u16, row: u16) -> Event {
    Event::Mouse { left_down: true, column, row }
}

#[test]
fn rect_geometry() {
    let r = Rect::new(2, 3, 4, 5);
    assert_eq!((r.right(), r.bottom(), r.top()), (6, 8, 3));
    assert!(r.contains(Position::new(2, 3)));
    assert!(r.contains(Position::new(5, 7)));
    assert!(!r.contains(Position::new(6, 7)));
    assert!(!r.contains(Position::new(5, 8)));
    assert!(!r.contains(Position::new(1, 3)));
    let clipped = Rect::new(65530, 65534, 10, 10);
    assert_eq!((clipped.width, clipped.height), (5, 1));
}

#[test]
fn table_state_moves() {
    let mut t = TableState::default();
    t.select_next();
    assert_eq!(t.selected(), Some(0));
    t.select_next();
    assert_eq!(t.selected(), Some(1));
    t.select_previous();
    t.select_previous();
    assert_eq!(t.selected(), Some(0));
    let mut t = TableState::default();
    t.select_previous();
    assert_eq!(t.selected(), Some(usize::MAX));
    t.select_next();
    assert_eq!(t.selected(), Some(usize::MAX));
    assert_eq!(TableState::default().with_selected(Some(4)).selected(), Some(4));
}

#[test]
fn main_menu_keys() {
    let mut m = MainMenu::new();
    assert_eq!(m.handle_key(KeyCode::Char('q')), ComponentAction::Quit);
    assert_eq!(m.handle_key(KeyCode::Esc), ComponentAction::Quit);
    assert_eq!(m.handle_key(KeyCode::Char('j')), ComponentAction::TableSelectNext);
    assert_eq!(m.handle_key(KeyCode::Up), ComponentAction::TableSelectPrevious);
    assert_eq!(m.handle_key(KeyCode::Char('X')), ComponentAction::DeleteSelected);
    assert_eq!(m.handle_key(KeyCode::Char('A')), ComponentAction::StartAdding);
    assert_eq!(m.handle_key(KeyCode::Char('z')), ComponentAction::Continue);
    assert_eq!(m.handle_key(KeyCode::Enter), ComponentAction::Continue);
}

#[test]
fn main_menu_clicks() {
    let mut m = MainMenu::new();
    assert_eq!(m.handle_mouse(Position::new(1, 1)), ComponentAction::Continue);
    m.add_button_area = Some(Rect::new(50, 0, 9, 3));
    m.delete_button_area = Some(Rect::new(59, 0, 9, 3));
    m.options_button_area = Some(Rect::new(68, 0, 13, 3));
    m.table_area = Some(Rect::new(0, 3, 81, 20));
    assert_eq!(m.handle_mouse(Position::new(52, 1)), ComponentAction::StartAdding);
    assert_eq!(m.handle_mouse(Position::new(60, 2)), ComponentAction::DeleteSelected);
    assert_eq!(m.handle_mouse(Position::new(70, 0)), ComponentAction::ToggleOptions);
    assert_eq!(m.handle_mouse(Position::new(10, 5)), ComponentAction::Continue);
    assert_eq!(m.handle_mouse(Position::new(10, 6)), ComponentAction::Continue);
    assert_eq!(m.handle_mouse(Position::new(10, 7)), ComponentAction::SelectTableRow(0));
    assert_eq!(m.handle_mouse(Position::new(10, 10)), ComponentAction::SelectTableRow(3));
    assert_eq!(m.handle_mouse(Position::new(10, 40)), ComponentAction::Continue);
}

#[test]
fn mode_menu_keys_cycle() {
    let mut m = ModeSelectMenu::new(&LoadBalancingPolicy::LeastLoad);
    assert_eq!(m.selection_index, 2);
    assert_eq!(m.handle_key(KeyCode::Down), ComponentAction::Continue);
    assert_eq!(m.selection_index, 0);
    m.handle_key(KeyCode::Char('k'));
    assert_eq!(m.selection_index, 2);
    m.handle_key(KeyCode::Char('k'));
    assert_eq!(m.selection_index, 1);
    m.handle_key(KeyCode::Char('j'));
    m.handle_key(KeyCode::Char('j'));
    m.handle_key(KeyCode::Char('j'));
    assert_eq!(m.selection_index, 1);
    assert_eq!(m.handle_key(KeyCode::Esc), ComponentAction::Cancel);
    assert_eq!(m.handle_key(KeyCode::Enter), ComponentAction::Confirm);
}

#[test]
fn mode_menu_open_confirm_round_trip() {
    for p in LoadBalancingPolicy::all() {
        let mut m = ModeSelectMenu::new(&p);
        let mut mode = LoadBalancingPolicy::RoundRobin;
        m.confirm(&mut mode);
        assert_eq!(mode, p);
    }
    let mut m = ModeSelectMenu { selection_index: 9, menu_area: None };
    let mut mode = LoadBalancingPolicy::RoundRobin;
    m.confirm(&mut mode);
    assert_eq!(mode, LoadBalancingPolicy::LeastLoad);
}

#[test]
fn mode_menu_clicks() {
    let mut m = ModeSelectMenu::new(&LoadBalancingPolicy::RoundRobin);
    assert_eq!(m.handle_mouse(Position::new(0, 0)), ComponentAction::Continue);
    m.menu_area = Some(Rect::new(10, 10, 40, 20));
    assert_eq!(m.handle_mouse(Position::new(20, 18)), ComponentAction::Confirm);
    assert_eq!(m.selection_index, 1);
    assert_eq!(m.handle_mouse(Position::new(20, 21)), ComponentAction::Confirm);
    assert_eq!(m.selection_index, 2);
    assert_eq!(m.handle_mouse(Position::new(20, 15)), ComponentAction::Confirm);
    assert_eq!(m.selection_index, 0);
    assert_eq!(m.handle_mouse(Position::new(20, 19)), ComponentAction::Confirm);
    assert_eq!(m.selection_index, 1);
    assert_eq!(m.handle_mouse(Position::new(20, 22)), ComponentAction::Confirm);
    assert_eq!(m.selection_index, 2);
    assert_eq!(m.handle_mouse(Position::new(20, 16)), ComponentAction::Confirm);
    assert_eq!(m.selection_index, 0);
    assert_eq!(m.handle_mouse(Position::new(20, 14)), ComponentAction::Continue);
    assert_eq!(m.handle_mouse(Position::new(20, 17)), ComponentAction::Continue);
    assert_eq!(m.handle_mouse(Position::new(20, 20)), ComponentAction::Continue);
    assert_eq!(m.handle_mouse(Position::new(5, 5)), ComponentAction::Cancel);
}

#[test]
fn add_menu_typing() {
    let mut m = AddItemMenu::new();
    for c in ['w', '1'] {
        assert_eq!(m.handle_key(KeyCode::Char(c)), ComponentAction::Continue);
    }
    assert_eq!(m.name, "w1");
    m.handle_key(KeyCode::Backspace);
    assert_eq!(m.name, "w");
    m.handle_key(KeyCode::Tab);
    assert_eq!(m.focused, InputField::Port);
    for c in ['3', 'x', '٣', '1'] {
        m.handle_key(KeyCode::Char(c));
    }
    assert_eq!(m.port_str, "3٣1");
    m.port_error = true;
    m.handle_key(KeyCode::Backspace);
    assert_eq!(m.port_str, "3٣");
    assert!(!m.port_error);
    m.handle_key(KeyCode::Tab);
    assert_eq!(m.focused, InputField::Name);
    assert_eq!(m.handle_key(KeyCode::Esc), ComponentAction::Cancel);
    assert_eq!(m.handle_key(KeyCode::Enter), ComponentAction::Submit);
    let mut empty = AddItemMenu::new();
    empty.handle_key(KeyCode::Backspace);
    assert_eq!(empty.name, "");
}

#[test]
fn add_menu_clicks() {
    let mut m = AddItemMenu::new();
    assert_eq!(m.handle_mouse(Position::new(0, 0)), ComponentAction::Continue);
    m.popup_area = Some(Rect::new(10, 10, 30, 12));
    m.name_input_area = Some(Rect::new(11, 12, 28, 3));
    m.port_input_area = Some(Rect::new(11, 17, 28, 3));
    m.port_error = true;
    assert_eq!(m.handle_mouse(Position::new(12, 18)), ComponentAction::Continue);
    assert_eq!(m.focused, InputField::Port);
    assert!(!m.port_error);
    assert_eq!(m.handle_mouse(Position::new(12, 13)), ComponentAction::Continue);
    assert_eq!(m.focused, InputField::Name);
    assert_eq!(m.handle_mouse(Position::new(12, 16)), ComponentAction::Continue);
    assert_eq!(m.focused, InputField::Name);
    assert_eq!(m.handle_mouse(Position::new(0, 0)), ComponentAction::Cancel);
}

#[test]
fn add_menu_submit() {
    let mut lb = balancer();
    let mut table = TableState::default();
    let mut m = AddItemMenu::new();
    m.name = "api".to_string();
    m.port_str = "70000".to_string();
    m.submit(&mut lb, &mut table, launch);
    assert!(m.port_error);
    assert!(lb.workers().is_empty());
    m.port_str = "+4100".to_string();
    m.submit(&mut lb, &mut table, launch);
    assert!(!m.port_error);
    assert_eq!(lb.workers().len(), 1);
    assert_eq!((lb.workers()[0].port, lb.workers()[0].num_threads), (4100, 1));
    assert_eq!(lb.workers()[0].name, "api");
    assert_eq!(table.selected(), Some(0));
    let mut unnamed = AddItemMenu::new();
    unnamed.port_str = "4200".to_string();
    unnamed.submit(&mut lb, &mut table, launch);
    assert_eq!(lb.workers().len(), 1);
}

#[test]
fn app_adds_worker_through_popup() {
    let mut lb = balancer();
    let mut app = App::new();
    assert_eq!(app.table_state.selected(), Some(0));
    assert!(app.handle_event(key(KeyCode::Char('a')), &mut lb, launch));
    assert!(app.add_item_menu.is_some());
    for c in "web".chars() {
        app.handle_event(key(KeyCode::Char(c)), &mut lb, launch);
    }
    app.handle_event(key(KeyCode::Tab), &mut lb, launch);
    for c in "4001".chars() {
        app.handle_event(key(KeyCode::Char(c)), &mut lb, launch);
    }
    app.handle_event(key(KeyCode::Enter), &mut lb, launch);
    assert!(app.add_item_menu.is_none());
    assert_eq!(lb.workers().len(), 1);
    assert_eq!(lb.workers()[0].port, 4001);
    assert_eq!(lb.workers()[0].name, "web");
}

#[test]
fn app_keeps_popup_on_bad_port() {
    let mut lb = balancer();
    let mut app = App::new();
    app.start_adding();
    app.handle_event(key(KeyCode::Char('w')), &mut lb, launch);
    app.handle_event(key(KeyCode::Tab), &mut lb, launch);
    for c in "99999".chars() {
        app.handle_event(key(KeyCode::Char(c)), &mut lb, launch);
    }
    app.handle_event(key(KeyCode::Enter), &mut lb, launch);
    assert!(app.add_item_menu.as_ref().unwrap().port_error);
    assert!(lb.workers().is_empty());
    app.handle_event(key(KeyCode::Esc), &mut lb, launch);
    assert!(app.add_item_menu.is_none());
}

#[test]
fn app_deletes_selected_worker() {
    let mut lb = balancer();
    lb.spawn_worker(1, "a".to_string(), None, launch).unwrap();
    lb.spawn_worker(1, "b".to_string(), None, launch).unwrap();
    let mut app = App::new();
    app.handle_event(key(KeyCode::Down), &mut lb, launch);
    assert_eq!(app.table_state.selected(), Some(1));
    app.handle_event(key(KeyCode::Char('d')), &mut lb, launch);
    assert_eq!(lb.workers()[1].status, WorkerStatus::Closing);
    assert_eq!(lb.workers()[0].status, WorkerStatus::Running);
    app.delete_at(&mut lb, 0);
    assert_eq!(lb.workers()[0].status, WorkerStatus::Closing);
}

#[test]
fn app_changes_mode_through_options() {
    let mut lb = balancer();
    let mut app = App::new();
    app.main_menu.options_button_area = Some(Rect::new(68, 0, 13, 3));
    assert!(app.handle_event(click(70, 1), &mut lb, launch));
    assert_eq!(app.options_menu, Some(Rect::new(0, 0, 0, 0)));
    app.options_menu = Some(options_menu_area(Rect::new(68, 0, 13, 3), Rect::new(0, 0, 100, 40)));
    // first entry row: "Set Mode"
    app.handle_event(click(70, 4), &mut lb, launch);
    assert!(app.options_menu.is_none());
    assert_eq!(app.mode_selector_menu.as_ref().unwrap().selection_index, 0);
    app.handle_event(key(KeyCode::Down), &mut lb, launch);
    app.handle_event(key(KeyCode::Down), &mut lb, launch);
    app.handle_event(key(KeyCode::Enter), &mut lb, launch);
    assert!(app.mode_selector_menu.is_none());
    assert_eq!(app.current_mode, LoadBalancingPolicy::LeastLoad);
    assert_eq!(lb.strategy().policy(), LoadBalancingPolicy::LeastLoad);
}

#[test]
fn app_quits_from_options_and_keys() {
    let mut lb = balancer();
    let mut app = App::new();
    app.options_menu = Some(Rect::new(59, 3, 22, 5));
    app.handle_event(click(60, 5), &mut lb, launch);
    assert!(app.should_quit);
    let mut app = App::new();
    app.handle_event(key(KeyCode::Char('q')), &mut lb, launch);
    assert!(app.should_quit);
}

#[test]
fn app_options_menu_closes() {
    let mut lb = balancer();
    let mut app = App::new();
    app.toggle_options_menu();
    app.handle_event(key(KeyCode::Char('q')), &mut lb, launch);
    assert!(app.options_menu.is_some());
    assert!(!app.should_quit);
    app.handle_event(key(KeyCode::Esc), &mut lb, launch);
    assert!(app.options_menu.is_none());
    app.toggle_options_menu();
    app.handle_event(click(0, 30), &mut lb, launch);
    assert!(app.options_menu.is_none());
}

#[test]
fn app_ignores_other_events() {
    let mut lb = balancer();
    let mut app = App::new();
    assert!(!app.handle_event(Event::Key { code: KeyCode::Char('q'), press: false }, &mut lb, launch));
    assert!(!app.handle_event(Event::Mouse { left_down: false, column: 1, row: 1 }, &mut lb, launch));
    assert!(!app.handle_event(Event::Other, &mut lb, launch));
    assert!(!app.should_quit);
}

#[test]
fn app_mode_popup_cancel() {
    let mut lb = balancer();
    let mut app = App::new();
    app.open_mode_select();
    app.handle_event(key(KeyCode::Down), &mut lb, launch);
    app.handle_event(key(KeyCode::Esc), &mut lb, launch);
    assert!(app.mode_selector_menu.is_none());
    assert_eq!(app.current_mode, LoadBalancingPolicy::RoundRobin);
    app.open_mode_select();
    app.cancel_mode_selection();
    assert!(app.mode_selector_menu.is_none());
    app.confirm_mode_selection(&mut lb);
    assert_eq!(lb.strategy().policy(), LoadBalancingPolicy::RoundRobin);
}

#[test]
fn options_menu_placement() {
    let r = options_menu_area(Rect::new(68, 0, 13, 3), Rect::new(0, 0, 100, 40));
    assert_eq!(r, Rect::new(59, 3, 22, 5));
    let r = options_menu_area(Rect::new(90, 0, 13, 3), Rect::new(0, 0, 100, 40));
    assert_eq!(r, Rect::new(78, 3, 22, 5));
    let r = options_menu_area(Rect::new(0, 0, 10, 3), Rect::new(0, 0, 100, 40));
    assert_eq!(r.x, 0);
}

#[test]
fn dashboard_title() {
    assert_eq!(header_title(LoadBalancingPolicy::LeastConnections), "Load Balancer | Least Connections");
}

#[test]
fn models() {
    let item = Item { name: "a".to_string(), port: 3000 };
    let copy = item.clone();
    assert_eq!((copy.name.as_str(), copy.port), ("a", 3000));
    assert_ne!(AppMode::Normal, AppMode::Adding);
    assert_ne!(InputField::Name, InputField::Port);
}

#[test]
fn mode_popup_texts() {
    assert_eq!(mode_title(LoadBalancingPolicy::LeastLoad), "Mode: Least Load");
    assert_eq!(mode_entry_label(0, 0), "\u{25b6} Round Robin");
    assert_eq!(mode_entry_label(1, 0), "  Least Connections");
    assert_eq!(mode_entry_label(2, 2), "\u{25b6} Least Load");
}

#[test]
fn options_menu_click_lines() {
    let menu = Rect::new(59, 3, 22, 5);
    let mut app = App::new();
    app.handle_mouse_options_menu(Position::new(60, 3));
    assert_eq!(app.options_menu, None);
    assert!(app.mode_selector_menu.is_none());
    app.options_menu = Some(menu);
    app.handle_mouse_options_menu(Position::new(60, 4));
    assert!(app.options_menu.is_none());
    assert_eq!(app.mode_selector_menu.as_ref().unwrap().selection_index, 0);
    let mut app = App::new();
    app.current_mode = LoadBalancingPolicy::LeastLoad;
    app.options_menu = Some(menu);
    app.handle_mouse_options_menu(Position::new(60, 3));
    assert_eq!(app.mode_selector_menu.as_ref().unwrap().selection_index, 2);
    let mut app = App::new();
    app.options_menu = Some(menu);
    app.handle_mouse_options_menu(Position::new(60, 6));
    assert_eq!(app.options_menu, Some(menu));
    assert!(!app.should_quit);
    app.handle_mouse_options_menu(Position::new(60, 5));
    assert!(app.should_quit);
    app.handle_mouse_options_menu(Position::new(10, 30));
    assert!(app.options_menu.is_none());
}

#[test]
fn add_menu_port_ignores_letters() {
    let mut m = AddItemMenu::new();
    let keys = [
        KeyCode::Char('w'),
        KeyCode::Tab,
        KeyCode::Char('8'),
        KeyCode::Char('x'),
        KeyCode::Char('0'),
        KeyCode::Enter,
    ];
    let actions: Vec<ComponentAction> = keys.iter().map(|k| m.handle_key(*k)).collect();
    assert_eq!(
        actions,
        vec![
            ComponentAction::Continue,
            ComponentAction::Continue,
            ComponentAction::Continue,
            ComponentAction::Continue,
            ComponentAction::Continue,
            ComponentAction::Submit,
        ]
    );
    assert_eq!(m.name, "w");
    assert_eq!(m.port_str, "80");
    assert_eq!(m.focused, InputField::Port);
    assert!(!m.port_error);
}
