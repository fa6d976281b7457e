use crate::tui::component::{
    rect_contains, saturating_sub_u16, ComponentAction, HandleEvent, KeyCode, Position, Rect,
};
use vstd::prelude::*;

verus! {

/// The header buttons and the worker table, with where they were last drawn.
pub struct MainMenu {
    pub add_button_area: Option<Rect>,
    pub delete_button_area: Option<Rect>,
    pub options_button_area: Option<Rect>,
    pub table_area: Option<Rect>,
}

/// Rows of the table area above the first worker row: the border, the
/// header's top margin, the header, and its bottom margin.
pub const DATA_START: u16 = 4;

/// What a key does on the main screen.
pub open spec fn main_menu_key_action(key: KeyCode) -> ComponentAction {
    match key {
        KeyCode::Char('q') | KeyCode::Esc => ComponentAction::Quit,
        KeyCode::Down | KeyCode::Char('j') => ComponentAction::TableSelectNext,
        KeyCode::Up | KeyCode::Char('k') => ComponentAction::TableSelectPrevious,
        KeyCode::Char('d') | KeyCode::Char('D') | KeyCode::Char('x') | KeyCode::Char('X') =>
            ComponentAction::DeleteSelected,
        KeyCode::Char('a') | KeyCode::Char('A') => ComponentAction::StartAdding,
        _ => ComponentAction::Continue,
    }
}

/// The keys the main screen answers to: the arrows, `j`, `k`, `d`, `D`,
/// `x`, `X`, `a`, `A`, `q` and Esc.
pub open spec fn main_screen_key(key: KeyCode) -> bool {
    ||| key == KeyCode::Up
    ||| key == KeyCode::Down
    ||| key == KeyCode::Esc
    ||| key == KeyCode::Char('k')
    ||| key == KeyCode::Char('j')
    ||| key == KeyCode::Char('d')
    ||| key == KeyCode::Char('D')
    ||| key == KeyCode::Char('x')
    ||| key == KeyCode::Char('X')
    ||| key == KeyCode::Char('a')
    ||| key == KeyCode::Char('A')
    ||| key == KeyCode::Char('q')
}

/// The main screen's key map: up and `k` move the selection up, down and
/// `j` move it down, `d`, `D`, `x` and `X` delete the selected worker, `a`
/// and `A` open the add-worker popup, `q` and Esc quit, and every other key
/// does nothing.
pub proof fn lemma_main_screen_keys(key: KeyCode)
    ensures
        key == KeyCode::Up || key == KeyCode::Char('k') ==> main_menu_key_action(key)
            == ComponentAction::TableSelectPrevious,
        key == KeyCode::Down || key == KeyCode::Char('j') ==> main_menu_key_action(key)
            == ComponentAction::TableSelectNext,
        key == KeyCode::Char('d') || key == KeyCode::Char('D') || key == KeyCode::Char('x') || key
            == KeyCode::Char('X') ==> main_menu_key_action(key) == ComponentAction::DeleteSelected,
        key == KeyCode::Char('a') || key == KeyCode::Char('A') ==> main_menu_key_action(key)
            == ComponentAction::StartAdding,
        key == KeyCode::Char('q') || key == KeyCode::Esc ==> main_menu_key_action(key)
            == ComponentAction::Quit,
        !main_screen_key(key) ==> main_menu_key_action(key) == ComponentAction::Continue,
{
}

/// Whether `pos` lies in the area, where the area has been drawn.
pub open spec fn hits(area: Option<Rect>, pos: Position) -> bool {
    area matches Some(a) && rect_contains(a, pos)
}

/// What a click does on the main screen: the add, delete and options
/// buttons are tried in that order, then the worker rows of the table.
pub open spec fn main_menu_click_action(m: MainMenu, pos: Position) -> ComponentAction {
    if hits(m.add_button_area, pos) {
        ComponentAction::StartAdding
    } else if hits(m.delete_button_area, pos) {
        ComponentAction::DeleteSelected
    } else if hits(m.options_button_area, pos) {
        ComponentAction::ToggleOptions
    } else if m.table_area is Some && rect_contains(m.table_area->0, pos) && saturating_sub_u16(
        pos.y,
        m.table_area->0.y,
    ) >= DATA_START {
        ComponentAction::SelectTableRow(
            (saturating_sub_u16(pos.y, m.table_area->0.y) - DATA_START) as usize,
        )
    } else {
        ComponentAction::Continue
    }
}

impl MainMenu {
    /// A main menu that has not been drawn yet.
    pub fn new() -> (m: Self)
        ensures
            m.add_button_area is None,
            m.delete_button_area is None,
            m.options_button_area is None,
            m.table_area is None,
    {
        MainMenu {
            add_button_area: None,
            delete_button_area: None,
            options_button_area: None,
            table_area: None,
        }
    }
}

impl HandleEvent for MainMenu {
    open spec fn takes_click(&self, pos: Position) -> bool {
        true
    }

    fn handle_key(&mut self, key: KeyCode) -> (a: ComponentAction)
        ensures
            a == main_menu_key_action(key),
            *final(self) == *old(self),
            key == KeyCode::Up || key == KeyCode::Char('k') ==> a
                == ComponentAction::TableSelectPrevious,
            key == KeyCode::Down || key == KeyCode::Char('j') ==> a == ComponentAction::TableSelectNext,
            key == KeyCode::Char('d') || key == KeyCode::Char('D') || key == KeyCode::Char('x') || key
                == KeyCode::Char('X') ==> a == ComponentAction::DeleteSelected,
            key == KeyCode::Char('a') || key == KeyCode::Char('A') ==> a == ComponentAction::StartAdding,
            key == KeyCode::Char('q') || key == KeyCode::Esc ==> a == ComponentAction::Quit,
            !main_screen_key(key) ==> a == ComponentAction::Continue,
    {
        match key {
            KeyCode::Char('q') | KeyCode::Esc => ComponentAction::Quit,
            KeyCode::Down | KeyCode::Char('j') => ComponentAction::TableSelectNext,
            KeyCode::Up | KeyCode::Char('k') => ComponentAction::TableSelectPrevious,
            KeyCode::Char('d') | KeyCode::Char('D') | KeyCode::Char('x') | KeyCode::Char('X') => {
                ComponentAction::DeleteSelected
            },
            KeyCode::Char('a') | KeyCode::Char('A') => ComponentAction::StartAdding,
            _ => ComponentAction::Continue,
        }
    }

    fn handle_mouse(&mut self, pos: Position) -> (a: ComponentAction)
        ensures
            a == main_menu_click_action(*old(self), pos),
            *final(self) == *old(self),
    {
        if let Some(area) = self.add_button_area {
            if area.contains(pos) {
                return ComponentAction::StartAdding;
            }
        }
        if let Some(area) = self.delete_button_area {
            if area.contains(pos) {
                return ComponentAction::DeleteSelected;
            }
        }
        if let Some(area) = self.options_button_area {
            if area.contains(pos) {
                return ComponentAction::ToggleOptions;
            }
        }
        if let Some(table_area) = self.table_area {
            if table_area.contains(pos) {
                let relative_y = pos.y.saturating_sub(table_area.top());
                if relative_y >= DATA_START {
                    let row_idx = (relative_y - DATA_START) as usize;
                    return ComponentAction::SelectTableRow(row_idx);
                }
            }
        }
        ComponentAction::Continue
    }
}

} // verus!
