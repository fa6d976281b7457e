use crate::load_balancer::load_balancer::{same_state, spawned_worker, LoadBalancer};
use crate::load_balancer::strategy::{
    default_constructor, lemma_policy_name_round_trip, LoadBalancingPolicy,
};
use crate::load_balancer::worker::{Worker, WorkerStatus};
use crate::text::{is_ascii_digit, u16_from_str};
use crate::tui::component::add_item_menu::{
    add_menu_click, add_menu_key_effect, add_menu_text, AddItemMenu,
};
use crate::tui::component::main_menu::{
    hits, main_menu_click_action, main_menu_key_action, MainMenu, DATA_START,
};
use crate::tui::component::mode_select_menu::{
    entry_above, entry_below, entry_of, mode_menu_click, policy_of_entry, ModeSelectMenu,
};
use crate::tui::component::{
    rect_contains, saturating_sub_u16, ComponentAction, Event, HandleEvent, KeyCode, Position,
    Rect,
};
use crate::tui::models::InputField;
use crate::tui::table_state::{next_selection, previous_selection, TableState};
use vstd::prelude::*;

verus! {

/// The dashboard: the worker table, the policy shown as current, and the
/// popups that may be open.
pub struct App {
    pub table_state: TableState,
    pub current_mode: LoadBalancingPolicy,
    pub should_quit: bool,
    pub main_menu: MainMenu,
    pub add_item_menu: Option<AddItemMenu>,
    pub options_menu: Option<Rect>,
    pub mode_selector_menu: Option<ModeSelectMenu>,
}

/// `m` is an add-worker popup as it opens: empty, name focused, not drawn.
pub open spec fn is_fresh_add_menu(m: AddItemMenu) -> bool {
    &&& m.name@.len() == 0
    &&& m.port_str@.len() == 0
    &&& m.focused == InputField::Name
    &&& !m.port_error
    &&& m.popup_area is None
    &&& m.name_input_area is None
    &&& m.port_input_area is None
}

/// The rectangle an options menu has before it is drawn.
pub open spec fn empty_rect() -> Rect {
    Rect { x: 0, y: 0, width: 0, height: 0 }
}

/// `lb1` is `lb0` with the worker at `i` marked as closing (nothing where
/// there is no such worker).
pub open spec fn closed_worker<H>(lb0: LoadBalancer<H>, lb1: LoadBalancer<H>, i: usize) -> bool {
    &&& lb1.ports() == lb0.ports()
    &&& lb1.active() == lb0.active()
    &&& lb1.pool() == if i < lb0.pool().len() {
        lb0.pool().update(i as int, Worker { status: WorkerStatus::Closing, ..lb0.pool()[i as int] })
    } else {
        lb0.pool()
    }
}

/// `lb1` is `lb0` running a fresh strategy for `p`.
pub open spec fn switched_to<H>(
    lb0: LoadBalancer<H>,
    lb1: LoadBalancer<H>,
    p: LoadBalancingPolicy,
) -> bool {
    &&& lb1.ports() == lb0.ports()
    &&& lb1.pool() == lb0.pool()
    &&& lb1.active() == default_constructor(p).builds()
}

/// The effect of submitting the add-worker popup `m`: the worker it
/// describes is added and selected (an empty name adds nothing), and the
/// popup closes unless its port text is not a port, which it then flags.
pub open spec fn submitted<H, F: FnOnce(u16, u8) -> H>(
    m: AddItemMenu,
    app0: App,
    app1: App,
    lb0: LoadBalancer<H>,
    lb1: LoadBalancer<H>,
    launch: F,
) -> bool {
    let port = u16_from_str(m.port_str@);
    &&& app1 == (App {
        add_item_menu: if port is None {
            Some(AddItemMenu { port_error: true, ..m })
        } else {
            None
        },
        table_state: app1.table_state,
        ..app0
    })
    &&& lb1.ports() == lb0.ports()
    &&& lb1.active() == lb0.active()
    &&& match port {
        Some(p) if m.name@.len() > 0 => {
            &&& spawned_worker(lb0.pool(), lb1.pool(), m.name, p, 1)
            &&& launch.ensures((p, 1u8), lb1.pool().last().handle)
            &&& app1.table_state.selected == Some((lb1.pool().len() - 1) as usize)
        },
        _ => lb1.pool() == lb0.pool() && app1.table_state == app0.table_state,
    }
}

/// The effect of a main-screen action.
pub open spec fn action_applied<H>(
    app0: App,
    app1: App,
    lb0: LoadBalancer<H>,
    lb1: LoadBalancer<H>,
    action: ComponentAction,
) -> bool {
    match action {
        ComponentAction::Quit => app1 == (App { should_quit: true, ..app0 }) && same_state(lb0, lb1),
        ComponentAction::DeleteSelected => app1 == app0 && match app0.table_state.selected {
            Some(i) => closed_worker(lb0, lb1, i),
            None => same_state(lb0, lb1),
        },
        ComponentAction::StartAdding => {
            &&& app1 == (App { add_item_menu: app1.add_item_menu, ..app0 })
            &&& app1.add_item_menu matches Some(m) && is_fresh_add_menu(m)
            &&& same_state(lb0, lb1)
        },
        ComponentAction::ToggleOptions => app1 == (App {
            options_menu: if app0.options_menu is Some {
                None
            } else {
                Some(empty_rect())
            },
            ..app0
        }) && same_state(lb0, lb1),
        ComponentAction::TableSelectNext => app1 == (App {
            table_state: TableState { selected: Some(next_selection(app0.table_state.selected)) },
            ..app0
        }) && same_state(lb0, lb1),
        ComponentAction::TableSelectPrevious => app1 == (App {
            table_state: TableState {
                selected: Some(previous_selection(app0.table_state.selected)),
            },
            ..app0
        }) && same_state(lb0, lb1),
        ComponentAction::SelectTableRow(i) => app1 == (App {
            table_state: TableState { selected: Some(i) },
            ..app0
        }) && same_state(lb0, lb1),
        _ => app1 == app0 && same_state(lb0, lb1),
    }
}

/// The effect of the action `a` of the mode popup, whose selection is now
/// `index`: cancel closes it, confirm switches to the selected policy and
/// closes it, anything else keeps it open on `index`.
pub open spec fn mode_action_applied<H>(
    m: ModeSelectMenu,
    index: usize,
    a: ComponentAction,
    app0: App,
    app1: App,
    lb0: LoadBalancer<H>,
    lb1: LoadBalancer<H>,
) -> bool {
    match a {
        ComponentAction::Cancel => app1 == (App { mode_selector_menu: None, ..app0 }) && same_state(
            lb0,
            lb1,
        ),
        ComponentAction::Confirm => {
            &&& app1 == (App {
                current_mode: policy_of_entry(index),
                mode_selector_menu: None,
                ..app0
            })
            &&& switched_to(lb0, lb1, policy_of_entry(index))
        },
        _ => app1 == (App {
            mode_selector_menu: Some(ModeSelectMenu { selection_index: index, ..m }),
            ..app0
        }) && same_state(lb0, lb1),
    }
}

/// The effect of a key press on the dashboard: the mode popup takes it if
/// open, else the options menu, else the add-worker popup, else the main
/// screen.
pub open spec fn key_handled<H, F: FnOnce(u16, u8) -> H>(
    app0: App,
    app1: App,
    lb0: LoadBalancer<H>,
    lb1: LoadBalancer<H>,
    key: KeyCode,
    launch: F,
) -> bool {
    if app0.mode_selector_menu is Some {
        let m = app0.mode_selector_menu->0;
        let index = match key {
            KeyCode::Down | KeyCode::Char('j') => entry_below(m.selection_index),
            KeyCode::Up | KeyCode::Char('k') => entry_above(m.selection_index),
            _ => m.selection_index,
        };
        let a = match key {
            KeyCode::Esc => ComponentAction::Cancel,
            KeyCode::Enter => ComponentAction::Confirm,
            _ => ComponentAction::Continue,
        };
        mode_action_applied(m, index, a, app0, app1, lb0, lb1)
    } else if app0.options_menu is Some {
        app1 == (if key == KeyCode::Esc {
            App { options_menu: None, ..app0 }
        } else {
            app0
        }) && same_state(lb0, lb1)
    } else if app0.add_item_menu is Some {
        let m = app0.add_item_menu->0;
        match key {
            KeyCode::Esc => app1 == (App { add_item_menu: None, ..app0 }) && same_state(lb0, lb1),
            KeyCode::Enter => submitted(m, app0, app1, lb0, lb1, launch),
            _ => {
                &&& app1 == (App { add_item_menu: app1.add_item_menu, ..app0 })
                &&& app1.add_item_menu matches Some(m1) && add_menu_text(m1)
                    == add_menu_key_effect(add_menu_text(m), key) && m1.popup_area
                    == m.popup_area && m1.name_input_area == m.name_input_area
                    && m1.port_input_area == m.port_input_area
                &&& same_state(lb0, lb1)
            },
        }
    } else {
        action_applied(app0, app1, lb0, lb1, main_menu_key_action(key))
    }
}

/// The effect of a left click at `pos` on the dashboard: the mode popup
/// takes it if open, else the add-worker popup, else the options menu, else
/// the main screen.
pub open spec fn click_handled<H, F: FnOnce(u16, u8) -> H>(
    app0: App,
    app1: App,
    lb0: LoadBalancer<H>,
    lb1: LoadBalancer<H>,
    pos: Position,
    launch: F,
) -> bool {
    if app0.mode_selector_menu is Some {
        let m = app0.mode_selector_menu->0;
        let (a, index) = mode_menu_click(m, pos);
        mode_action_applied(m, index, a, app0, app1, lb0, lb1)
    } else if app0.add_item_menu is Some {
        let m = app0.add_item_menu->0;
        let (a, focused, error) = add_menu_click(m, pos);
        match a {
            ComponentAction::Cancel => app1 == (App { add_item_menu: None, ..app0 }) && same_state(
                lb0,
                lb1,
            ),
            _ => {
                &&& app1.add_item_menu matches Some(m1) && m1 == (AddItemMenu {
                    name: m1.name,
                    port_str: m1.port_str,
                    focused,
                    port_error: error,
                    ..m
                }) && m1.name == m.name && m1.port_str == m.port_str
                &&& app1 == (App { add_item_menu: app1.add_item_menu, ..app0 })
                &&& same_state(lb0, lb1)
            },
        }
    } else if app0.options_menu is Some {
        let area = app0.options_menu->0;
        &&& same_state(lb0, lb1)
        &&& if !rect_contains(area, pos) {
            app1 == (App { options_menu: None, ..app0 })
        } else {
            let rel = saturating_sub_u16(pos.y, (area.y + 1) as u16);
            if rel == 0 {
                app1 == (App {
                    options_menu: None,
                    mode_selector_menu: Some(
                        ModeSelectMenu {
                            selection_index: entry_of(app0.current_mode),
                            menu_area: None,
                        },
                    ),
                    ..app0
                })
            } else if rel == 1 {
                app1 == (App { should_quit: true, ..app0 })
            } else {
                app1 == app0
            }
        }
    } else {
        action_applied(app0, app1, lb0, lb1, main_menu_click_action(app0.main_menu, pos))
    }
}

/// On the main screen with no popup open, a click on the line where worker
/// row `i` of the table is drawn (below the border and the header, outside
/// the header buttons) selects row `i`, and nothing else changes: neither
/// the rest of the dashboard nor the balancer.
pub proof fn lemma_click_selects_row<H, F: FnOnce(u16, u8) -> H>(
    app0: App,
    app1: App,
    lb0: LoadBalancer<H>,
    lb1: LoadBalancer<H>,
    pos: Position,
    launch: F,
    table: Rect,
)
    requires
        click_handled(app0, app1, lb0, lb1, pos, launch),
        app0.mode_selector_menu is None,
        app0.add_item_menu is None,
        app0.options_menu is None,
        app0.main_menu.table_area == Some(table),
        rect_contains(table, pos),
        pos.y >= table.y + DATA_START,
        !hits(app0.main_menu.add_button_area, pos),
        !hits(app0.main_menu.delete_button_area, pos),
        !hits(app0.main_menu.options_button_area, pos),
    ensures
        app1 == (App {
            table_state: TableState { selected: Some((pos.y - table.y - DATA_START) as usize) },
            ..app0
        }),
        lb1.pool() == lb0.pool(),
        lb1.ports() == lb0.ports(),
        lb1.active() == lb0.active(),
{
}

/// Selecting row `i`, for any `i`, sets the selection to `i` and changes
/// nothing else of the dashboard or the balancer.
pub proof fn lemma_select_row_action<H>(
    app0: App,
    app1: App,
    lb0: LoadBalancer<H>,
    lb1: LoadBalancer<H>,
    i: usize,
)
    requires
        action_applied(app0, app1, lb0, lb1, ComponentAction::SelectTableRow(i)),
    ensures
        app1.table_state.selected == Some(i),
        app1 == (App { table_state: app1.table_state, ..app0 }),
        lb1.pool() == lb0.pool(),
        lb1.ports() == lb0.ports(),
        lb1.active() == lb0.active(),
{
}

/// While the add-worker popup is open (and no mode popup), it alone takes
/// a left click: outside the drawn popup the click closes it; on the name
/// field it focuses the name; on the port field it focuses the port and
/// clears the port error; elsewhere inside it changes nothing. The typed
/// texts, the rest of the dashboard and the balancer stay as they were.
pub proof fn lemma_add_popup_takes_clicks<H, F: FnOnce(u16, u8) -> H>(
    app0: App,
    app1: App,
    lb0: LoadBalancer<H>,
    lb1: LoadBalancer<H>,
    pos: Position,
    launch: F,
    popup: Rect,
    name_area: Rect,
    port_area: Rect,
)
    requires
        click_handled(app0, app1, lb0, lb1, pos, launch),
        app0.mode_selector_menu is None,
        app0.add_item_menu matches Some(m) && m.popup_area == Some(popup) && m.name_input_area
            == Some(name_area) && m.port_input_area == Some(port_area),
    ensures
        lb1.pool() == lb0.pool(),
        lb1.ports() == lb0.ports(),
        lb1.active() == lb0.active(),
        !rect_contains(popup, pos) ==> app1 == (App { add_item_menu: None, ..app0 }),
        rect_contains(popup, pos) ==> {
            let m = app0.add_item_menu->0;
            &&& app1.add_item_menu matches Some(m1)
            &&& app1 == (App { add_item_menu: app1.add_item_menu, ..app0 })
            &&& m1.name == m.name
            &&& m1.port_str == m.port_str
            &&& m1.popup_area == m.popup_area
            &&& m1.name_input_area == m.name_input_area
            &&& m1.port_input_area == m.port_input_area
            &&& rect_contains(name_area, pos) ==> m1.focused == InputField::Name && m1.port_error
                == m.port_error
            &&& !rect_contains(name_area, pos) && rect_contains(port_area, pos) ==> m1.focused
                == InputField::Port && !m1.port_error
            &&& !rect_contains(name_area, pos) && !rect_contains(port_area, pos) ==> m1.focused
                == m.focused && m1.port_error == m.port_error
        },
{
}

/// A left click on the open mode popup: outside it the popup closes and
/// nothing else changes; on the label line of an entry or the line below
/// it (rows 5 and 6 below the popup's top for round robin, 8 and 9 for
/// least connections, 11 and 12 for least load) the popup closes, that
/// policy becomes the current mode and the balancer runs a fresh strategy
/// for it; any other line inside changes nothing.
pub proof fn lemma_mode_popup_clicks<H, F: FnOnce(u16, u8) -> H>(
    app0: App,
    app1: App,
    lb0: LoadBalancer<H>,
    lb1: LoadBalancer<H>,
    pos: Position,
    launch: F,
    area: Rect,
)
    requires
        click_handled(app0, app1, lb0, lb1, pos, launch),
        app0.mode_selector_menu matches Some(m) && m.menu_area == Some(area),
        area.y + 4 <= u16::MAX,
    ensures
        !rect_contains(area, pos) ==> app1 == (App { mode_selector_menu: None, ..app0 })
            && lb1.pool() == lb0.pool() && lb1.ports() == lb0.ports() && lb1.active()
            == lb0.active(),
        rect_contains(area, pos) && (pos.y == area.y + 5 || pos.y == area.y + 6) ==> {
            &&& app1 == (App {
                current_mode: LoadBalancingPolicy::RoundRobin,
                mode_selector_menu: None,
                ..app0
            })
            &&& lb1.pool() == lb0.pool() && lb1.ports() == lb0.ports()
            &&& lb1.active() == default_constructor(LoadBalancingPolicy::RoundRobin).builds()
        },
        rect_contains(area, pos) && (pos.y == area.y + 8 || pos.y == area.y + 9) ==> {
            &&& app1 == (App {
                current_mode: LoadBalancingPolicy::LeastConnections,
                mode_selector_menu: None,
                ..app0
            })
            &&& lb1.pool() == lb0.pool() && lb1.ports() == lb0.ports()
            &&& lb1.active() == default_constructor(LoadBalancingPolicy::LeastConnections).builds()
        },
        rect_contains(area, pos) && (pos.y == area.y + 11 || pos.y == area.y + 12) ==> {
            &&& app1 == (App {
                current_mode: LoadBalancingPolicy::LeastLoad,
                mode_selector_menu: None,
                ..app0
            })
            &&& lb1.pool() == lb0.pool() && lb1.ports() == lb0.ports()
            &&& lb1.active() == default_constructor(LoadBalancingPolicy::LeastLoad).builds()
        },
        rect_contains(area, pos) && !(pos.y == area.y + 5 || pos.y == area.y + 6 || pos.y == area.y
            + 8 || pos.y == area.y + 9 || pos.y == area.y + 11 || pos.y == area.y + 12) ==> app1
            == app0 && lb1.pool() == lb0.pool() && lb1.ports() == lb0.ports() && lb1.active()
            == lb0.active(),
{
}

/// On the main screen with no popup open: up and `k` move the selection
/// one row up (staying on the first row), down and `j` one row down, `q`
/// and Esc ask to quit, `d`, `D`, `x` and `X` mark the selected worker as
/// closing, `a` and `A` open an empty add-worker popup, and any other key
/// changes nothing. Only deleting touches the balancer.
pub proof fn lemma_main_screen_keys_drive_table<H, F: FnOnce(u16, u8) -> H>(
    app0: App,
    app1: App,
    lb0: LoadBalancer<H>,
    lb1: LoadBalancer<H>,
    key: KeyCode,
    launch: F,
)
    requires
        key_handled(app0, app1, lb0, lb1, key, launch),
        app0.mode_selector_menu is None,
        app0.options_menu is None,
        app0.add_item_menu is None,
    ensures
        !(key == KeyCode::Char('d') || key == KeyCode::Char('D') || key == KeyCode::Char('x') || key
            == KeyCode::Char('X')) ==> lb1.pool() == lb0.pool() && lb1.ports() == lb0.ports()
            && lb1.active() == lb0.active(),
        key == KeyCode::Up || key == KeyCode::Char('k') ==> (app0.table_state.selected matches Some(
            i,
        ) ==> app1 == (App {
            table_state: TableState { selected: Some(if i == 0 { 0 } else { (i - 1) as usize }) },
            ..app0
        })),
        key == KeyCode::Down || key == KeyCode::Char('j') ==> (app0.table_state.selected matches Some(
            i,
        ) ==> i < usize::MAX ==> app1 == (App {
            table_state: TableState { selected: Some((i + 1) as usize) },
            ..app0
        })),
        key == KeyCode::Down || key == KeyCode::Char('j') ==> (app0.table_state.selected is None
            ==> app1 == (App { table_state: TableState { selected: Some(0) }, ..app0 })),
        key == KeyCode::Char('q') || key == KeyCode::Esc ==> app1 == (App {
            should_quit: true,
            ..app0
        }),
        key == KeyCode::Char('d') || key == KeyCode::Char('D') || key == KeyCode::Char('x') || key
            == KeyCode::Char('X') ==> {
            let sel = app0.table_state.selected;
            let on_worker = sel is Some && sel->0 < lb0.pool().len();
            &&& app1 == app0
            &&& lb1.ports() == lb0.ports()
            &&& lb1.active() == lb0.active()
            &&& on_worker ==> lb1.pool() == lb0.pool().update(
                sel->0 as int,
                Worker { status: WorkerStatus::Closing, ..lb0.pool()[sel->0 as int] },
            )
            &&& !on_worker ==> lb1.pool() == lb0.pool()
        },
        key == KeyCode::Char('a') || key == KeyCode::Char('A') ==> {
            &&& app1.add_item_menu matches Some(m) && m.name@.len() == 0 && m.port_str@.len() == 0
                && m.focused == InputField::Name && !m.port_error
            &&& app1 == (App { add_item_menu: app1.add_item_menu, ..app0 })
        },
        !(key == KeyCode::Up || key == KeyCode::Down || key == KeyCode::Esc || key == KeyCode::Char(
            'k',
        ) || key == KeyCode::Char('j') || key == KeyCode::Char('d') || key == KeyCode::Char('D')
            || key == KeyCode::Char('x') || key == KeyCode::Char('X') || key == KeyCode::Char('a')
            || key == KeyCode::Char('A') || key == KeyCode::Char('q')) ==> app1 == app0,
{
}

/// While the mode popup is open it takes every key: down and `j` move its
/// selection to the next entry (from the last back to the first), up and
/// `k` to the previous one (from the first to the last), Esc closes it
/// changing nothing else, and Enter closes it, makes the selected entry's
/// policy (round robin, least connections, least load, in entry order) the
/// current mode and switches the balancer to a fresh strategy for it.
pub proof fn lemma_mode_popup_keys<H, F: FnOnce(u16, u8) -> H>(
    app0: App,
    app1: App,
    lb0: LoadBalancer<H>,
    lb1: LoadBalancer<H>,
    key: KeyCode,
    launch: F,
    m: ModeSelectMenu,
)
    requires
        key_handled(app0, app1, lb0, lb1, key, launch),
        app0.mode_selector_menu == Some(m),
        m.selection_index < 3,
    ensures
        key != KeyCode::Enter ==> lb1.pool() == lb0.pool() && lb1.ports() == lb0.ports()
            && lb1.active() == lb0.active(),
        key == KeyCode::Down || key == KeyCode::Char('j') ==> app1 == (App {
            mode_selector_menu: Some(
                ModeSelectMenu {
                    selection_index: if m.selection_index == 2 {
                        0
                    } else {
                        (m.selection_index + 1) as usize
                    },
                    ..m
                },
            ),
            ..app0
        }),
        key == KeyCode::Up || key == KeyCode::Char('k') ==> app1 == (App {
            mode_selector_menu: Some(
                ModeSelectMenu {
                    selection_index: if m.selection_index == 0 {
                        2
                    } else {
                        (m.selection_index - 1) as usize
                    },
                    ..m
                },
            ),
            ..app0
        }),
        key == KeyCode::Esc ==> app1 == (App { mode_selector_menu: None, ..app0 }),
        key == KeyCode::Enter ==> {
            let p = if m.selection_index == 0 {
                LoadBalancingPolicy::RoundRobin
            } else if m.selection_index == 1 {
                LoadBalancingPolicy::LeastConnections
            } else {
                LoadBalancingPolicy::LeastLoad
            };
            &&& app1 == (App { current_mode: p, mode_selector_menu: None, ..app0 })
            &&& lb1.pool() == lb0.pool()
            &&& lb1.ports() == lb0.ports()
            &&& lb1.active() == default_constructor(p).builds()
            &&& lb1.active().spec_policy() == p
        },
{
}

/// Enter on the add-worker popup (no mode popup or options menu open):
/// where the port text reads as a port and the name is not empty, a running
/// worker with that name, on that port, with one thread, is added at the
/// end of the pool, the popup closes and the new row is selected; where the
/// port text is not a port, the popup stays open with its port error set
/// and nothing else changes; with a port but no name the popup closes and
/// nothing is added.
pub proof fn lemma_add_popup_submit<H, F: FnOnce(u16, u8) -> H>(
    app0: App,
    app1: App,
    lb0: LoadBalancer<H>,
    lb1: LoadBalancer<H>,
    launch: F,
    m: AddItemMenu,
)
    requires
        key_handled(app0, app1, lb0, lb1, KeyCode::Enter, launch),
        app0.mode_selector_menu is None,
        app0.options_menu is None,
        app0.add_item_menu == Some(m),
    ensures
        lb1.ports() == lb0.ports(),
        lb1.active() == lb0.active(),
        u16_from_str(m.port_str@) is None ==> app1 == (App {
            add_item_menu: Some(AddItemMenu { port_error: true, ..m }),
            ..app0
        }) && lb1.pool() == lb0.pool(),
        u16_from_str(m.port_str@) matches Some(p) ==> app1.add_item_menu is None && (m.name@.len()
            > 0 ==> {
            &&& lb1.pool().len() == lb0.pool().len() + 1
            &&& lb1.pool().drop_last() == lb0.pool()
            &&& lb1.pool().last().name == m.name
            &&& lb1.pool().last().port == p
            &&& lb1.pool().last().num_threads == 1
            &&& lb1.pool().last().status == WorkerStatus::Running
            &&& app1 == (App {
                add_item_menu: None,
                table_state: TableState { selected: Some(lb0.pool().len() as usize) },
                ..app0
            })
        }) && (m.name@.len() == 0 ==> lb1.pool() == lb0.pool() && app1 == (App {
            add_item_menu: None,
            ..app0
        })),
{
}

/// On the main screen with no popup open, a click on the add button opens
/// an empty add-worker popup, one on the delete button (not on the add
/// button) marks the selected worker as closing, and one on the options
/// button (on neither other button) opens the options menu, or closes it.
/// A click that hits no button and no worker row changes nothing.
pub proof fn lemma_main_screen_buttons<H, F: FnOnce(u16, u8) -> H>(
    app0: App,
    app1: App,
    lb0: LoadBalancer<H>,
    lb1: LoadBalancer<H>,
    pos: Position,
    launch: F,
)
    requires
        click_handled(app0, app1, lb0, lb1, pos, launch),
        app0.mode_selector_menu is None,
        app0.add_item_menu is None,
        app0.options_menu is None,
    ensures
        hits(app0.main_menu.add_button_area, pos) ==> {
            &&& app1.add_item_menu matches Some(m) && m.name@.len() == 0 && m.port_str@.len() == 0
                && m.focused == InputField::Name && !m.port_error
            &&& app1 == (App { add_item_menu: app1.add_item_menu, ..app0 })
            &&& lb1.pool() == lb0.pool() && lb1.ports() == lb0.ports() && lb1.active()
                == lb0.active()
        },
        !hits(app0.main_menu.add_button_area, pos) && hits(app0.main_menu.delete_button_area, pos)
            ==> {
            let sel = app0.table_state.selected;
            let on_worker = sel is Some && sel->0 < lb0.pool().len();
            &&& app1 == app0
            &&& lb1.ports() == lb0.ports()
            &&& lb1.active() == lb0.active()
            &&& on_worker ==> lb1.pool() == lb0.pool().update(
                sel->0 as int,
                Worker { status: WorkerStatus::Closing, ..lb0.pool()[sel->0 as int] },
            )
            &&& !on_worker ==> lb1.pool() == lb0.pool()
        },
        !hits(app0.main_menu.add_button_area, pos) && !hits(app0.main_menu.delete_button_area, pos)
            && hits(app0.main_menu.options_button_area, pos) ==> app1 == (App {
            options_menu: Some(Rect { x: 0, y: 0, width: 0, height: 0 }),
            ..app0
        }) && lb1.pool() == lb0.pool() && lb1.ports() == lb0.ports() && lb1.active()
            == lb0.active(),
        !hits(app0.main_menu.add_button_area, pos) && !hits(app0.main_menu.delete_button_area, pos)
            && !hits(app0.main_menu.options_button_area, pos) && !(app0.main_menu.table_area matches Some(
            t,
        ) && rect_contains(t, pos) && pos.y >= t.y + DATA_START) ==> app1 == app0 && lb1.pool()
            == lb0.pool() && lb1.ports() == lb0.ports() && lb1.active() == lb0.active(),
{
}

/// Keys on the open add-worker popup (no mode popup or options menu open):
/// Esc closes it; a character goes to the end of the focused field, where
/// in the port field an ASCII character is taken only if it is a digit (and
/// then clears the port error); Tab moves the focus to the other field;
/// Backspace removes the last character of the focused field (in the port
/// field also clearing the port error). Nothing but the popup changes, and
/// the balancer stays as it was.
pub proof fn lemma_add_popup_keys<H, F: FnOnce(u16, u8) -> H>(
    app0: App,
    app1: App,
    lb0: LoadBalancer<H>,
    lb1: LoadBalancer<H>,
    key: KeyCode,
    launch: F,
    m: AddItemMenu,
)
    requires
        key_handled(app0, app1, lb0, lb1, key, launch),
        app0.mode_selector_menu is None,
        app0.options_menu is None,
        app0.add_item_menu == Some(m),
        key != KeyCode::Enter,
    ensures
        lb1.pool() == lb0.pool(),
        lb1.ports() == lb0.ports(),
        lb1.active() == lb0.active(),
        key == KeyCode::Esc ==> app1 == (App { add_item_menu: None, ..app0 }),
        key != KeyCode::Esc ==> {
            &&& app1.add_item_menu is Some
            &&& app1 == (App { add_item_menu: app1.add_item_menu, ..app0 })
        },
        key matches KeyCode::Char(c) ==> {
            let m1 = app1.add_item_menu->0;
            &&& m.focused == InputField::Name ==> m1.name@ == m.name@.push(c) && m1.port_str@
                == m.port_str@ && m1.focused == m.focused && m1.port_error == m.port_error
            &&& m.focused == InputField::Port && is_ascii_digit(c) ==> m1.port_str@
                == m.port_str@.push(c) && m1.name@ == m.name@ && m1.focused == m.focused
                && !m1.port_error
            &&& m.focused == InputField::Port && (c as u32) < 128 && !is_ascii_digit(c) ==> m1.port_str@
                == m.port_str@ && m1.name@ == m.name@ && m1.focused == m.focused && m1.port_error
                == m.port_error
        },
        key == KeyCode::Tab ==> {
            let m1 = app1.add_item_menu->0;
            &&& m1.name@ == m.name@ && m1.port_str@ == m.port_str@ && m1.port_error == m.port_error
            &&& m.focused == InputField::Name ==> m1.focused == InputField::Port
            &&& m.focused == InputField::Port ==> m1.focused == InputField::Name
        },
        key == KeyCode::Backspace && m.name@.len() > 0 && m.focused == InputField::Name ==> {
            let m1 = app1.add_item_menu->0;
            &&& m1.name@ == m.name@.drop_last() && m1.port_str@ == m.port_str@
            &&& m1.focused == m.focused && m1.port_error == m.port_error
        },
        key == KeyCode::Backspace && m.port_str@.len() > 0 && m.focused == InputField::Port ==> {
            let m1 = app1.add_item_menu->0;
            &&& m1.port_str@ == m.port_str@.drop_last() && m1.name@ == m.name@
            &&& m1.focused == m.focused && !m1.port_error
        },
{
}

/// A left click while the options menu is open (no mode or add-worker
/// popup): outside it the menu closes; on its first line (" Set Mode ") the
/// menu closes and the mode popup opens on the entry of the current mode
/// (round robin, least connections, least load in that order), not yet
/// drawn; on its second line (" Quit ") the app asks to quit; any other
/// line inside changes nothing. The balancer never changes.
pub proof fn lemma_options_menu_clicks<H, F: FnOnce(u16, u8) -> H>(
    app0: App,
    app1: App,
    lb0: LoadBalancer<H>,
    lb1: LoadBalancer<H>,
    pos: Position,
    launch: F,
    area: Rect,
)
    requires
        click_handled(app0, app1, lb0, lb1, pos, launch),
        app0.mode_selector_menu is None,
        app0.add_item_menu is None,
        app0.options_menu == Some(area),
    ensures
        lb1.pool() == lb0.pool(),
        lb1.ports() == lb0.ports(),
        lb1.active() == lb0.active(),
        !rect_contains(area, pos) ==> app1 == (App { options_menu: None, ..app0 }),
        rect_contains(area, pos) && pos.y <= area.y + 1 ==> {
            &&& app1.mode_selector_menu matches Some(m) && m.menu_area is None && m.selection_index
                == match app0.current_mode {
                LoadBalancingPolicy::RoundRobin => 0usize,
                LoadBalancingPolicy::LeastConnections => 1usize,
                LoadBalancingPolicy::LeastLoad => 2usize,
            }
            &&& app1 == (App {
                options_menu: None,
                mode_selector_menu: app1.mode_selector_menu,
                ..app0
            })
        },
        rect_contains(area, pos) && pos.y == area.y + 2 ==> app1 == (App {
            should_quit: true,
            ..app0
        }),
        rect_contains(area, pos) && pos.y > area.y + 2 ==> app1 == app0,
{
}

impl App {
    /// The dashboard at start: first row selected, round robin shown, no
    /// popup open.
    pub fn new() -> (app: Self)
        ensures
            app.table_state.selected == Some(0usize),
            app.current_mode == LoadBalancingPolicy::RoundRobin,
            !app.should_quit,
            app.main_menu.add_button_area is None,
            app.main_menu.delete_button_area is None,
            app.main_menu.options_button_area is None,
            app.main_menu.table_area is None,
            app.add_item_menu is None,
            app.options_menu is None,
            app.mode_selector_menu is None,
    {
        Self {
            table_state: TableState::default().with_selected(Some(0)),
            current_mode: LoadBalancingPolicy::RoundRobin,
            should_quit: false,
            main_menu: MainMenu::new(),
            add_item_menu: None,
            options_menu: None,
            mode_selector_menu: None,
        }
    }

    /// Opens an empty add-worker popup.
    pub fn start_adding(&mut self)
        ensures
            *final(self) == (App { add_item_menu: final(self).add_item_menu, ..*old(self) }),
            final(self).add_item_menu matches Some(m) && is_fresh_add_menu(m),
    {
        self.add_item_menu = Some(AddItemMenu::new());
    }

    /// Closes the add-worker popup.
    pub fn cancel_adding(&mut self)
        ensures
            *final(self) == (App { add_item_menu: None, ..*old(self) }),
    {
        self.add_item_menu = None;
    }

    /// Submits the add-worker popup, if open (see `submitted`).
    pub fn submit_adding<H, F: FnOnce(u16, u8) -> H>(
        &mut self,
        load_balancer: &mut LoadBalancer<H>,
        launch: F,
    )
        requires
            forall|p: u16| launch.requires((p, 1u8)),
        ensures
            old(self).add_item_menu is None ==> *final(self) == *old(self) && same_state(
                *old(load_balancer),
                *final(load_balancer),
            ),
            old(self).add_item_menu matches Some(m) ==> submitted(
                m,
                *old(self),
                *final(self),
                *old(load_balancer),
                *final(load_balancer),
                launch,
            ),
    {
        if let Some(mut menu) = self.add_item_menu.take() {
            menu.submit(load_balancer, &mut self.table_state, launch);
            if menu.port_error {
                self.add_item_menu = Some(menu);
            }
        }
    }

    /// Marks the worker at `index` as closing.
    pub fn delete_at<H>(&mut self, load_balancer: &mut LoadBalancer<H>, index: usize)
        ensures
            *final(self) == *old(self),
            closed_worker(*old(load_balancer), *final(load_balancer), index),
    {
        load_balancer.close_worker(index);
    }

    /// Marks the selected worker as closing.
    pub fn delete_selected<H>(&mut self, load_balancer: &mut LoadBalancer<H>)
        ensures
            *final(self) == *old(self),
            old(self).table_state.selected matches Some(i) ==> closed_worker(
                *old(load_balancer),
                *final(load_balancer),
                i,
            ),
            old(self).table_state.selected is None ==> same_state(
                *old(load_balancer),
                *final(load_balancer),
            ),
    {
        if let Some(i) = self.table_state.selected() {
            self.delete_at(load_balancer, i);
        }
    }

    /// Opens the options menu, or closes it where it is open.
    pub fn toggle_options_menu(&mut self)
        ensures
            *final(self) == (App {
                options_menu: if old(self).options_menu is Some {
                    None
                } else {
                    Some(empty_rect())
                },
                ..*old(self)
            }),
    {
        if self.options_menu.is_some() {
            self.options_menu = None;
        } else {
            self.options_menu = Some(Rect { x: 0, y: 0, width: 0, height: 0 });
        }
    }

    /// Opens the mode popup on the policy shown as current.
    pub fn open_mode_select(&mut self)
        ensures
            *final(self) == (App {
                mode_selector_menu: Some(
                    ModeSelectMenu {
                        selection_index: entry_of(old(self).current_mode),
                        menu_area: None,
                    },
                ),
                ..*old(self)
            }),
    {
        self.mode_selector_menu = Some(ModeSelectMenu::new(&self.current_mode));
    }

    /// Takes the policy selected in the mode popup (if open) as current,
    /// switches the balancer to it, and closes the popup.
    pub fn confirm_mode_selection<H>(&mut self, load_balancer: &mut LoadBalancer<H>)
        requires
        ensures
            *final(self) == (App {
                current_mode: final(self).current_mode,
                mode_selector_menu: None,
                ..*old(self)
            }),
            final(self).current_mode == match old(self).mode_selector_menu {
                Some(m) => policy_of_entry(m.selection_index),
                None => old(self).current_mode,
            },
            switched_to(*old(load_balancer), *final(load_balancer), final(self).current_mode),
    {
        if let Some(menu) = self.mode_selector_menu.take() {
            let mut menu = menu;
            menu.confirm(&mut self.current_mode);
        }
        proof {
            lemma_policy_name_round_trip(self.current_mode, Seq::empty());
        }
        let _ = load_balancer.set_strategy_handler(self.current_mode.name());
        self.mode_selector_menu = None;
    }

    /// Closes the mode popup.
    pub fn cancel_mode_selection(&mut self)
        ensures
            *final(self) == (App { mode_selector_menu: None, ..*old(self) }),
    {
        self.mode_selector_menu = None;
    }

    /// Reacts to a terminal event: key presses and left clicks are handled
    /// (see `key_handled` and `click_handled`) and reported as such; any
    /// other event changes nothing.
    pub fn handle_event<H, F: FnOnce(u16, u8) -> H>(
        &mut self,
        event: Event,
        load_balancer: &mut LoadBalancer<H>,
        launch: F,
    ) -> (handled: bool)
        requires
            forall|p: u16| launch.requires((p, 1u8)),
            event matches Event::Mouse { left_down: true, column, row } ==> (
            old(self).mode_selector_menu matches Some(m) ==> m.takes_click(
                Position { x: column, y: row },
            )),
        ensures
            handled == (event matches Event::Key { press: true, .. } || event matches Event::Mouse {
                left_down: true,
                ..
            }),
            !handled ==> *final(self) == *old(self) && same_state(
                *old(load_balancer),
                *final(load_balancer),
            ),
            event matches Event::Key { code, press: true } ==> key_handled(
                *old(self),
                *final(self),
                *old(load_balancer),
                *final(load_balancer),
                code,
                launch,
            ),
            event matches Event::Mouse { left_down: true, column, row } ==> click_handled(
                *old(self),
                *final(self),
                *old(load_balancer),
                *final(load_balancer),
                Position { x: column, y: row },
                launch,
            ),
    {
        match event {
            Event::Key { code, press } => {
                if press {
                    self.handle_key_event(code, load_balancer, launch)
                } else {
                    false
                }
            },
            Event::Mouse { left_down, column, row } => {
                if left_down {
                    self.handle_mouse_event(Position::new(column, row), load_balancer, launch)
                } else {
                    false
                }
            },
            Event::Other => false,
        }
    }

    fn handle_key_event<H, F: FnOnce(u16, u8) -> H>(
        &mut self,
        key: KeyCode,
        load_balancer: &mut LoadBalancer<H>,
        launch: F,
    ) -> (handled: bool)
        requires
            forall|p: u16| launch.requires((p, 1u8)),
        ensures
            handled,
            key_handled(
                *old(self),
                *final(self),
                *old(load_balancer),
                *final(load_balancer),
                key,
                launch,
            ),
    {
        if self.mode_selector_menu.is_some() {
            self.handle_key_mode_selector(key, load_balancer);
            return true;
        }
        if self.options_menu.is_some() {
            self.handle_key_options_menu(key);
            return true;
        }
        if self.add_item_menu.is_some() {
            self.handle_key_add_menu(key, load_balancer, launch);
            return true;
        }
        let action = self.main_menu.handle_key(key);
        self.apply_action(action, load_balancer);
        true
    }

    fn handle_mouse_event<H, F: FnOnce(u16, u8) -> H>(
        &mut self,
        pos: Position,
        load_balancer: &mut LoadBalancer<H>,
        launch: F,
    ) -> (handled: bool)
        requires
            old(self).mode_selector_menu matches Some(m) ==> m.takes_click(pos),
        ensures
            handled,
            click_handled(
                *old(self),
                *final(self),
                *old(load_balancer),
                *final(load_balancer),
                pos,
                launch,
            ),
    {
        if self.mode_selector_menu.is_some() {
            self.handle_mouse_mode_selector(pos, load_balancer);
            return true;
        }
        if self.add_item_menu.is_some() {
            self.handle_mouse_add_menu(pos);
            return true;
        }
        if self.options_menu.is_some() {
            self.handle_mouse_options_menu(pos);
            return true;
        }
        let action = self.main_menu.handle_mouse(pos);
        self.apply_action(action, load_balancer);
        true
    }

    fn apply_action<H>(&mut self, action: ComponentAction, load_balancer: &mut LoadBalancer<H>)
        ensures
            action_applied(*old(self), *final(self), *old(load_balancer), *final(load_balancer), action),
            action matches ComponentAction::SelectTableRow(i) ==> {
                &&& *final(self) == (App {
                    table_state: TableState { selected: Some(i) },
                    ..*old(self)
                })
                &&& final(load_balancer).pool() == old(load_balancer).pool()
                &&& final(load_balancer).ports() == old(load_balancer).ports()
                &&& final(load_balancer).active() == old(load_balancer).active()
            },
    {
        match action {
            ComponentAction::Quit => self.should_quit = true,
            ComponentAction::DeleteSelected => self.delete_selected(load_balancer),
            ComponentAction::StartAdding => self.start_adding(),
            ComponentAction::ToggleOptions => self.toggle_options_menu(),
            ComponentAction::TableSelectNext => self.table_state.select_next(),
            ComponentAction::TableSelectPrevious => self.table_state.select_previous(),
            ComponentAction::SelectTableRow(row_idx) => self.table_state.select(Some(row_idx)),
            _ => {},
        }
    }

    fn handle_key_mode_selector<H>(&mut self, key: KeyCode, load_balancer: &mut LoadBalancer<H>)
        requires
            old(self).mode_selector_menu is Some,
        ensures
            ({
                let m = old(self).mode_selector_menu->0;
                let index = match key {
                    KeyCode::Down | KeyCode::Char('j') => entry_below(m.selection_index),
                    KeyCode::Up | KeyCode::Char('k') => entry_above(m.selection_index),
                    _ => m.selection_index,
                };
                let a = match key {
                    KeyCode::Esc => ComponentAction::Cancel,
                    KeyCode::Enter => ComponentAction::Confirm,
                    _ => ComponentAction::Continue,
                };
                mode_action_applied(
                    m,
                    index,
                    a,
                    *old(self),
                    *final(self),
                    *old(load_balancer),
                    *final(load_balancer),
                )
            }),
    {
        if let Some(mut menu) = self.mode_selector_menu.take() {
            let action = menu.handle_key(key);
            self.mode_selector_menu = Some(menu);
            match action {
                ComponentAction::Cancel => self.cancel_mode_selection(),
                ComponentAction::Confirm => self.confirm_mode_selection(load_balancer),
                _ => {},
            }
        }
    }

    fn handle_key_add_menu<H, F: FnOnce(u16, u8) -> H>(
        &mut self,
        key: KeyCode,
        load_balancer: &mut LoadBalancer<H>,
        launch: F,
    )
        requires
            old(self).add_item_menu is Some,
            forall|p: u16| launch.requires((p, 1u8)),
        ensures
            ({
                let m = old(self).add_item_menu->0;
                match key {
                    KeyCode::Esc => *final(self) == (App { add_item_menu: None, ..*old(self) })
                        && same_state(*old(load_balancer), *final(load_balancer)),
                    KeyCode::Enter => submitted(
                        m,
                        *old(self),
                        *final(self),
                        *old(load_balancer),
                        *final(load_balancer),
                        launch,
                    ),
                    _ => {
                        &&& *final(self) == (App {
                            add_item_menu: final(self).add_item_menu,
                            ..*old(self)
                        })
                        &&& final(self).add_item_menu matches Some(m1) && add_menu_text(m1)
                            == add_menu_key_effect(add_menu_text(m), key) && m1.popup_area
                            == m.popup_area && m1.name_input_area == m.name_input_area
                            && m1.port_input_area == m.port_input_area
                        &&& same_state(*old(load_balancer), *final(load_balancer))
                    },
                }
            }),
    {
        if let Some(mut menu) = self.add_item_menu.take() {
            let action = menu.handle_key(key);
            self.add_item_menu = Some(menu);
            match action {
                ComponentAction::Cancel => self.cancel_adding(),
                ComponentAction::Submit => self.submit_adding(load_balancer, launch),
                _ => {},
            }
        }
    }

    fn handle_mouse_mode_selector<H>(&mut self, pos: Position, load_balancer: &mut LoadBalancer<H>)
        requires
            old(self).mode_selector_menu matches Some(m) && m.takes_click(pos),
        ensures
            ({
                let m = old(self).mode_selector_menu->0;
                let (a, index) = mode_menu_click(m, pos);
                mode_action_applied(
                    m,
                    index,
                    a,
                    *old(self),
                    *final(self),
                    *old(load_balancer),
                    *final(load_balancer),
                )
            }),
    {
        if let Some(mut menu) = self.mode_selector_menu.take() {
            let action = menu.handle_mouse(pos);
            self.mode_selector_menu = Some(menu);
            match action {
                ComponentAction::Cancel => self.cancel_mode_selection(),
                ComponentAction::Confirm => self.confirm_mode_selection(load_balancer),
                _ => {},
            }
        }
    }

    fn handle_mouse_add_menu(&mut self, pos: Position)
        requires
            old(self).add_item_menu is Some,
        ensures
            ({
                let m = old(self).add_item_menu->0;
                let (a, focused, error) = add_menu_click(m, pos);
                match a {
                    ComponentAction::Cancel => *final(self) == (App {
                        add_item_menu: None,
                        ..*old(self)
                    }),
                    _ => {
                        &&& final(self).add_item_menu matches Some(m1) && m1 == (AddItemMenu {
                            name: m1.name,
                            port_str: m1.port_str,
                            focused,
                            port_error: error,
                            ..m
                        }) && m1.name == m.name && m1.port_str == m.port_str
                        &&& *final(self) == (App {
                            add_item_menu: final(self).add_item_menu,
                            ..*old(self)
                        })
                    },
                }
            }),
    {
        if let Some(mut menu) = self.add_item_menu.take() {
            let action = menu.handle_mouse(pos);
            self.add_item_menu = Some(menu);
            match action {
                ComponentAction::Cancel => self.cancel_adding(),
                _ => {},
            }
        }
    }

    fn handle_key_options_menu(&mut self, key: KeyCode)
        ensures
            *final(self) == if key == KeyCode::Esc {
                App { options_menu: None, ..*old(self) }
            } else {
                *old(self)
            },
    {
        if key == KeyCode::Esc {
            self.options_menu = None;
        }
    }

    /// A left click while the options menu is open: on its first line
    /// (" Set Mode ") it closes the menu and opens the mode selector on the
    /// mode in force, on its second (" Quit ") it asks to quit, elsewhere
    /// inside it does nothing, and outside it closes the menu. With no
    /// options menu open nothing changes.
    pub fn handle_mouse_options_menu(&mut self, pos: Position)
        ensures
            old(self).options_menu is None ==> *final(self) == *old(self),
            old(self).options_menu is Some ==> ({
                let area = old(self).options_menu->0;
                if !rect_contains(area, pos) {
                    *final(self) == (App { options_menu: None, ..*old(self) })
                } else {
                    let rel = saturating_sub_u16(pos.y, (area.y + 1) as u16);
                    if rel == 0 {
                        *final(self) == (App {
                            options_menu: None,
                            mode_selector_menu: Some(
                                ModeSelectMenu {
                                    selection_index: entry_of(old(self).current_mode),
                                    menu_area: None,
                                },
                            ),
                            ..*old(self)
                        })
                    } else if rel == 1 {
                        *final(self) == (App { should_quit: true, ..*old(self) })
                    } else {
                        *final(self) == *old(self)
                    }
                }
            }),
    {
        if let Some(area) = self.options_menu {
            if area.contains(pos) {
                let rel_y = pos.y.saturating_sub(area.y + 1);
                if rel_y == 0 {
                    self.options_menu = None;
                    self.open_mode_select();
                } else if rel_y == 1 {
                    self.should_quit = true;
                }
            } else {
                self.options_menu = None;
            }
        }
    }
}

} // verus!
