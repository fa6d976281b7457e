use vstd::prelude::*;

pub mod add_item_menu;
pub mod main_menu;
pub mod mode_select_menu;

verus! {

/// A cell of the terminal.
#[derive(Clone, Copy, Debug, PartialEq, Eq, Structural)]
pub struct Position {
    pub x: u16,
    pub y: u16,
}

impl Position {
    pub fn new(x: u16, y: u16) -> (p: Self)
        ensures
            p == (Position { x, y }),
    {
        Position { x, y }
    }
}

/// A rectangle of the terminal.
#[derive(Clone, Copy, Debug, PartialEq, Eq, Structural)]
pub struct Rect {
    pub x: u16,
    pub y: u16,
    pub width: u16,
    pub height: u16,
}

/// `a + b`, or the largest `u16` where that overflows.
pub open spec fn saturating_add_u16(a: u16, b: u16) -> u16 {
    if a + b > u16::MAX {
        u16::MAX
    } else {
        (a + b) as u16
    }
}

/// `a - b`, or zero where that is negative.
pub open spec fn saturating_sub_u16(a: u16, b: u16) -> u16 {
    if a < b {
        0
    } else {
        (a - b) as u16
    }
}

/// Whether `p` lies inside `r`.
pub open spec fn rect_contains(r: Rect, p: Position) -> bool {
    &&& p.x >= r.x
    &&& p.x < saturating_add_u16(r.x, r.width)
    &&& p.y >= r.y
    &&& p.y < saturating_add_u16(r.y, r.height)
}

impl Rect {
    /// A rectangle at `(x, y)`, its size cut to what fits before the
    /// largest coordinate.
    pub fn new(x: u16, y: u16, width: u16, height: u16) -> (r: Self)
        ensures
            r.x == x,
            r.y == y,
            r.width == if width > u16::MAX - x {
                (u16::MAX - x) as u16
            } else {
                width
            },
            r.height == if height > u16::MAX - y {
                (u16::MAX - y) as u16
            } else {
                height
            },
    {
        let max_width = u16::MAX - x;
        let max_height = u16::MAX - y;
        let width = if width > max_width {
            max_width
        } else {
            width
        };
        let height = if height > max_height {
            max_height
        } else {
            height
        };
        Rect { x, y, width, height }
    }

    /// The first column right of the rectangle.
    pub fn right(self) -> (r: u16)
        ensures
            r == saturating_add_u16(self.x, self.width),
    {
        self.x.saturating_add(self.width)
    }

    /// The first row below the rectangle.
    pub fn bottom(self) -> (r: u16)
        ensures
            r == saturating_add_u16(self.y, self.height),
    {
        self.y.saturating_add(self.height)
    }

    /// The top row of the rectangle.
    pub fn top(self) -> (r: u16)
        ensures
            r == self.y,
    {
        self.y
    }

    /// Whether `position` lies inside the rectangle.
    pub fn contains(self, position: Position) -> (r: bool)
        ensures
            r == rect_contains(self, position),
    {
        position.x >= self.x && position.x < self.right() && position.y >= self.y && position.y
            < self.bottom()
    }
}

/// The keys the dashboard reacts to.
#[derive(Clone, Copy, Debug, PartialEq, Eq, Structural)]
pub enum KeyCode {
    Char(char),
    Esc,
    Enter,
    Tab,
    Backspace,
    Up,
    Down,
    Other,
}

/// A terminal event as the dashboard sees it.
#[derive(Clone, Copy, Debug, PartialEq, Eq, Structural)]
pub enum Event {
    /// A key event; `press` tells a press from a release or repeat.
    Key { code: KeyCode, press: bool },
    /// A mouse event at `(column, row)`; `left_down` tells a press of the
    /// left button from any other mouse event.
    Mouse { left_down: bool, column: u16, row: u16 },
    /// Anything else (resize, focus, paste).
    Other,
}

/// What a component asks the dashboard to do after an event.
#[derive(Clone, Copy, Debug, PartialEq, Eq, Structural)]
pub enum ComponentAction {
    Continue,
    Cancel,
    Submit,
    Confirm,
    Quit,
    DeleteSelected,
    StartAdding,
    ToggleOptions,
    SelectTableRow(usize),
    TableSelectNext,
    TableSelectPrevious,
}

/// A dashboard component that reacts to keys and mouse clicks.
pub trait HandleEvent {
    /// Whether a click at `pos` is one the component can take; a click it
    /// cannot take is one whose handling would overflow a coordinate.
    spec fn takes_click(&self, pos: Position) -> bool;

    fn handle_key(&mut self, key: KeyCode) -> ComponentAction;

    fn handle_mouse(&mut self, pos: Position) -> ComponentAction
        requires
            old(self).takes_click(pos),
    ;
}

} // verus!
