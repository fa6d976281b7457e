use crate::load_balancer::load_balancer::{spawned_worker, LoadBalancer};
use crate::text::{
    char_is_numeric, is_ascii_digit, numeric_char, parse_u16, string_pop, string_push,
    u16_from_str,
};
use crate::tui::component::{rect_contains, ComponentAction, HandleEvent, KeyCode, Position, Rect};
use crate::tui::models::InputField;
use crate::tui::table_state::TableState;
use vstd::prelude::*;

verus! {

/// The popup that adds a worker: a name and a port typed by the user.
pub struct AddItemMenu {
    pub name: String,
    pub port_str: String,
    pub focused: InputField,
    pub port_error: bool,
    pub popup_area: Option<Rect>,
    pub name_input_area: Option<Rect>,
    pub port_input_area: Option<Rect>,
}

/// `s` without its last character; the empty string stays empty.
pub open spec fn without_last(s: Seq<char>) -> Seq<char> {
    if s.len() == 0 {
        s
    } else {
        s.drop_last()
    }
}

/// Whether the port field takes `c`: among ASCII characters the digits,
/// beyond ASCII the numeric characters (`char::is_numeric`).
pub open spec fn port_char(c: char) -> bool {
    if (c as u32) < 128 {
        is_ascii_digit(c)
    } else {
        numeric_char(c)
    }
}

/// Every character of a port text is one the port field takes.
pub open spec fn port_text_valid(s: Seq<char>) -> bool {
    forall|i: int| 0 <= i < s.len() ==> port_char(#[trigger] s[i])
}

/// Every character of a port text is numeric (`char::is_numeric`).
pub open spec fn port_text_numeric(s: Seq<char>) -> bool {
    forall|i: int| 0 <= i < s.len() ==> numeric_char(#[trigger] s[i])
}

/// The other input field.
pub open spec fn other_field(f: InputField) -> InputField {
    match f {
        InputField::Name => InputField::Port,
        InputField::Port => InputField::Name,
    }
}

/// What a key does to the text of the popup: `(name, port text, focus,
/// port error)` after the key, given them before it.
pub open spec fn add_menu_key_effect(
    m: (Seq<char>, Seq<char>, InputField, bool),
    key: KeyCode,
) -> (Seq<char>, Seq<char>, InputField, bool) {
    let (name, port, focused, error) = m;
    match key {
        KeyCode::Tab => (name, port, other_field(focused), error),
        KeyCode::Backspace => match focused {
            InputField::Name => (without_last(name), port, focused, error),
            InputField::Port => (name, without_last(port), focused, false),
        },
        KeyCode::Char(c) => match focused {
            InputField::Name => (name.push(c), port, focused, error),
            InputField::Port => if port_char(c) {
                (name, port.push(c), focused, false)
            } else {
                m
            },
        },
        _ => m,
    }
}

/// What a click at `pos` does to the popup: `(action, focus, port error)`.
/// Outside the drawn popup it cancels; on an input field it focuses it (and
/// clears the port error for the port field).
pub open spec fn add_menu_click(m: AddItemMenu, pos: Position) -> (ComponentAction, InputField, bool) {
    match (m.popup_area, m.name_input_area, m.port_input_area) {
        (Some(popup), Some(name_area), Some(port_area)) => if !rect_contains(popup, pos) {
            (ComponentAction::Cancel, m.focused, m.port_error)
        } else if rect_contains(name_area, pos) {
            (ComponentAction::Continue, InputField::Name, m.port_error)
        } else if rect_contains(port_area, pos) {
            (ComponentAction::Continue, InputField::Port, false)
        } else {
            (ComponentAction::Continue, m.focused, m.port_error)
        },
        _ => (ComponentAction::Continue, m.focused, m.port_error),
    }
}

/// The text state of a popup.
pub open spec fn add_menu_text(m: AddItemMenu) -> (Seq<char>, Seq<char>, InputField, bool) {
    (m.name@, m.port_str@, m.focused, m.port_error)
}

impl AddItemMenu {
    /// An empty popup with the name field focused.
    pub fn new() -> (m: Self)
        ensures
            m.name@.len() == 0,
            m.port_str@.len() == 0,
            port_text_valid(m.port_str@),
            port_text_numeric(m.port_str@),
            m.focused == InputField::Name,
            !m.port_error,
            m.popup_area is None,
            m.name_input_area is None,
            m.port_input_area is None,
    {
        Self {
            name: String::new(),
            port_str: String::new(),
            focused: InputField::Name,
            port_error: false,
            popup_area: None,
            name_input_area: None,
            port_input_area: None,
        }
    }

    /// Adds the typed worker: one thread, the typed name, on the typed port,
    /// started by `launch`, and selects it in `table_state`. A port text that
    /// is not a `u16` only sets the port error; an empty name adds nothing.
    pub fn submit<H, F: FnOnce(u16, u8) -> H>(
        &mut self,
        load_balancer: &mut LoadBalancer<H>,
        table_state: &mut TableState,
        launch: F,
    )
        requires
            forall|p: u16| launch.requires((p, 1u8)),
        ensures
            *final(self) == (AddItemMenu {
                port_error: u16_from_str(old(self).port_str@) is None,
                ..*old(self)
            }),
            final(load_balancer).ports() == old(load_balancer).ports(),
            final(load_balancer).active() == old(load_balancer).active(),
            match u16_from_str(old(self).port_str@) {
                Some(p) if old(self).name@.len() > 0 => {
                    &&& spawned_worker(
                        old(load_balancer).pool(),
                        final(load_balancer).pool(),
                        old(self).name,
                        p,
                        1,
                    )
                    &&& launch.ensures((p, 1u8), final(load_balancer).pool().last().handle)
                    &&& final(table_state).selected == Some(
                        (final(load_balancer).pool().len() - 1) as usize,
                    )
                },
                _ => final(load_balancer).pool() == old(load_balancer).pool() && *final(table_state) == *old(table_state),
            },
    {
        let port = parse_u16(self.port_str.as_str());
        self.port_error = port.is_none();
        if let Some(port) = port {
            if self.name.as_str().is_empty() {
                return;
            }
            if load_balancer.spawn_worker(1, self.name.clone(), Some(port), launch).is_ok() {
                table_state.select(Some(load_balancer.workers().len() - 1));
            }
        }
    }
}

impl HandleEvent for AddItemMenu {
    open spec fn takes_click(&self, pos: Position) -> bool {
        true
    }

    fn handle_key(&mut self, key: KeyCode) -> (a: ComponentAction)
        ensures
            a == match key {
                KeyCode::Esc => ComponentAction::Cancel,
                KeyCode::Enter => ComponentAction::Submit,
                _ => ComponentAction::Continue,
            },
            add_menu_text(*final(self)) == add_menu_key_effect(add_menu_text(*old(self)), key),
            (key == KeyCode::Esc || key == KeyCode::Enter) ==> *final(self) == *old(self),
            port_text_valid(old(self).port_str@) ==> port_text_valid(final(self).port_str@),
            port_text_numeric(old(self).port_str@) ==> port_text_numeric(final(self).port_str@),
            final(self).popup_area == old(self).popup_area,
            final(self).name_input_area == old(self).name_input_area,
            final(self).port_input_area == old(self).port_input_area,
    {
        match key {
            KeyCode::Esc => ComponentAction::Cancel,
            KeyCode::Enter => ComponentAction::Submit,
            KeyCode::Tab => {
                self.focused = match self.focused {
                    InputField::Name => InputField::Port,
                    InputField::Port => InputField::Name,
                };
                ComponentAction::Continue
            },
            KeyCode::Backspace => {
                match self.focused {
                    InputField::Name => {
                        let _ = string_pop(&mut self.name);
                    },
                    InputField::Port => {
                        proof {
                            if port_text_valid(old(self).port_str@) {
                                lemma_port_text_stays_valid(add_menu_text(*old(self)), key);
                            }
                        }
                        let _ = string_pop(&mut self.port_str);
                        self.port_error = false;
                        proof {
                            let p = old(self).port_str@;
                            assert forall|i: int| 0 <= i < self.port_str@.len()
                                implies #[trigger] self.port_str@[i] == p[i] by {
                                if p.len() > 0 {
                                    assert(self.port_str@ =~= p.drop_last());
                                }
                            }
                        }
                    },
                }
                ComponentAction::Continue
            },
            KeyCode::Char(c) => {
                match self.focused {
                    InputField::Name => string_push(&mut self.name, c),
                    InputField::Port => {
                        let accepted = char_is_numeric(c);
                        proof {
                            if port_text_valid(old(self).port_str@) {
                                lemma_port_text_stays_valid(add_menu_text(*old(self)), key);
                            }
                        }
                        if accepted {
                            string_push(&mut self.port_str, c);
                            self.port_error = false;
                            proof {
                                let p = old(self).port_str@;
                                assert forall|i: int| 0 <= i < p.len()
                                    implies #[trigger] self.port_str@[i] == p[i] by {
                                    assert(self.port_str@ =~= p.push(c));
                                }
                                assert(self.port_str@ =~= p.push(c));
                            }
                        }
                    },
                }
                ComponentAction::Continue
            },
            _ => ComponentAction::Continue,
        }
    }

    fn handle_mouse(&mut self, pos: Position) -> (a: ComponentAction)
        ensures
            (a, final(self).focused, final(self).port_error) == add_menu_click(*old(self), pos),
            final(self).name == old(self).name,
            final(self).port_str == old(self).port_str,
            final(self).popup_area == old(self).popup_area,
            final(self).name_input_area == old(self).name_input_area,
            final(self).port_input_area == old(self).port_input_area,
    {
        if let (Some(popup_area), Some(name_area), Some(port_area)) = (
            self.popup_area,
            self.name_input_area,
            self.port_input_area,
        ) {
            if popup_area.contains(pos) {
                if name_area.contains(pos) {
                    self.focused = InputField::Name;
                } else if port_area.contains(pos) {
                    self.focused = InputField::Port;
                    self.port_error = false;
                }
                ComponentAction::Continue
            } else {
                ComponentAction::Cancel
            }
        } else {
            ComponentAction::Continue
        }
    }
}

/// Typing a character into the focused field and erasing it again leaves
/// the popup's text as it was (for the port field: a numeric character, and
/// with the port error cleared).
pub proof fn lemma_type_then_erase(
    name: Seq<char>,
    port: Seq<char>,
    focused: InputField,
    error: bool,
    c: char,
)
    requires
        focused == InputField::Port ==> port_char(c),
    ensures
        add_menu_key_effect(
            add_menu_key_effect((name, port, focused, error), KeyCode::Char(c)),
            KeyCode::Backspace,
        ) == (name, port, focused, if focused == InputField::Port {
            false
        } else {
            error
        }),
{
    assert(name.push(c).drop_last() =~= name);
    assert(port.push(c).drop_last() =~= port);
}

/// Whatever keys are pressed, the port text holds only characters the port
/// field takes: it starts empty, and no key adds any other character.
pub proof fn lemma_port_text_stays_valid(m: (Seq<char>, Seq<char>, InputField, bool), key: KeyCode)
    requires
        port_text_valid(m.1),
    ensures
        port_text_valid(add_menu_key_effect(m, key).1),
{
    let p = m.1;
    assert forall|i: int| 0 <= i < p.len() - 1 implies port_char(#[trigger] p.drop_last()[i]) by {
        assert(p.drop_last()[i] == p[i]);
    }
    if let KeyCode::Char(c) = key {
        if m.2 == InputField::Port && port_char(c) {
            assert forall|i: int| 0 <= i < p.len() + 1 implies port_char(#[trigger] p.push(c)[i]) by {
                if i < p.len() {
                    assert(p.push(c)[i] == p[i]);
                }
            }
        }
    }
}

/// Pressing Tab twice gives the focus back to the field that had it.
pub proof fn lemma_tab_twice(m: (Seq<char>, Seq<char>, InputField, bool))
    ensures
        add_menu_key_effect(add_menu_key_effect(m, KeyCode::Tab), KeyCode::Tab) == m,
{
}

} // verus!
