use crate::load_balancer::strategy::LoadBalancingPolicy;
use crate::tui::component::{
    rect_contains, saturating_sub_u16, ComponentAction, HandleEvent, KeyCode, Position, Rect,
};
use vstd::prelude::*;

verus! {

/// The popup that picks the balancing policy: three entries, one per
/// policy, in declaration order.
pub struct ModeSelectMenu {
    pub selection_index: usize,
    pub menu_area: Option<Rect>,
}

/// The entry that shows `p`.
pub open spec fn entry_of(p: LoadBalancingPolicy) -> usize {
    match p {
        LoadBalancingPolicy::RoundRobin => 0,
        LoadBalancingPolicy::LeastConnections => 1,
        LoadBalancingPolicy::LeastLoad => 2,
    }
}

/// The policy that entry `i` picks (the last one for any index past it).
pub open spec fn policy_of_entry(i: usize) -> LoadBalancingPolicy {
    if i == 0 {
        LoadBalancingPolicy::RoundRobin
    } else if i == 1 {
        LoadBalancingPolicy::LeastConnections
    } else {
        LoadBalancingPolicy::LeastLoad
    }
}

/// The entry below `i`, wrapping around.
pub open spec fn entry_below(i: usize) -> usize {
    ((i + 1) % 3) as usize
}

/// The entry above `i`, wrapping around.
pub open spec fn entry_above(i: usize) -> usize {
    if i == 0 {
        2
    } else {
        (i - 1) as usize
    }
}

/// The entry drawn on row `rel` below the popup's fifth row: each entry's
/// label line and the line under it belong to that entry.
pub open spec fn entry_at_row(rel: u16) -> Option<usize> {
    if rel == 1 || rel == 2 {
        Some(0)
    } else if rel == 4 || rel == 5 {
        Some(1)
    } else if rel == 7 || rel == 8 {
        Some(2)
    } else {
        None
    }
}

/// What a click at `pos` does: outside the drawn popup it cancels; on the
/// label line of an entry, or the line under it, it picks that entry and
/// confirms.
pub open spec fn mode_menu_click(m: ModeSelectMenu, pos: Position) -> (ComponentAction, usize) {
    match m.menu_area {
        None => (ComponentAction::Continue, m.selection_index),
        Some(a) => if !rect_contains(a, pos) {
            (ComponentAction::Cancel, m.selection_index)
        } else {
            match entry_at_row(saturating_sub_u16(pos.y, (a.y + 4) as u16)) {
                Some(i) => (ComponentAction::Confirm, i),
                None => (ComponentAction::Continue, m.selection_index),
            }
        },
    }
}

impl ModeSelectMenu {
    /// The popup with the entry of `current_mode` selected.
    pub fn new(current_mode: &LoadBalancingPolicy) -> (m: Self)
        ensures
            m.selection_index == entry_of(*current_mode),
            m.menu_area is None,
    {
        let selection_index = match current_mode {
            LoadBalancingPolicy::RoundRobin => 0,
            LoadBalancingPolicy::LeastConnections => 1,
            LoadBalancingPolicy::LeastLoad => 2,
        };
        Self { selection_index, menu_area: None }
    }

    /// Sets `current_mode` to the policy of the selected entry.
    pub fn confirm(&mut self, current_mode: &mut LoadBalancingPolicy)
        ensures
            *final(current_mode) == policy_of_entry(old(self).selection_index),
            *final(self) == *old(self),
    {
        *current_mode = match self.selection_index {
            0 => LoadBalancingPolicy::RoundRobin,
            1 => LoadBalancingPolicy::LeastConnections,
            _ => LoadBalancingPolicy::LeastLoad,
        };
    }
}

impl HandleEvent for ModeSelectMenu {
    open spec fn takes_click(&self, pos: Position) -> bool {
        self.menu_area matches Some(a) ==> (rect_contains(a, pos) ==> a.y + 4 <= u16::MAX)
    }

    fn handle_key(&mut self, key: KeyCode) -> (a: ComponentAction)
        ensures
            final(self).menu_area == old(self).menu_area,
            a == match key {
                KeyCode::Esc => ComponentAction::Cancel,
                KeyCode::Enter => ComponentAction::Confirm,
                _ => ComponentAction::Continue,
            },
            final(self).selection_index == match key {
                KeyCode::Down | KeyCode::Char('j') => entry_below(old(self).selection_index),
                KeyCode::Up | KeyCode::Char('k') => entry_above(old(self).selection_index),
                _ => old(self).selection_index,
            },
    {
        match key {
            KeyCode::Esc => ComponentAction::Cancel,
            KeyCode::Enter => ComponentAction::Confirm,
            KeyCode::Down | KeyCode::Char('j') => {
                self.selection_index = (self.selection_index % 3 + 1) % 3;
                proof {
                    vstd::arithmetic::div_mod::lemma_add_mod_noop_right(
                        1,
                        old(self).selection_index as int,
                        3,
                    );
                }
                ComponentAction::Continue
            },
            KeyCode::Up | KeyCode::Char('k') => {
                self.selection_index = if self.selection_index == 0 {
                    2
                } else {
                    self.selection_index - 1
                };
                ComponentAction::Continue
            },
            _ => ComponentAction::Continue,
        }
    }

    fn handle_mouse(&mut self, pos: Position) -> (a: ComponentAction)
        ensures
            (a, final(self).selection_index) == mode_menu_click(*old(self), pos),
            final(self).menu_area == old(self).menu_area,
    {
        if let Some(area) = self.menu_area {
            if area.contains(pos) {
                let relative_y = pos.y.saturating_sub(area.y + 4);
                if relative_y == 1 || relative_y == 2 {
                    self.selection_index = 0;
                    return ComponentAction::Confirm;
                } else if relative_y == 4 || relative_y == 5 {
                    self.selection_index = 1;
                    return ComponentAction::Confirm;
                } else if relative_y == 7 || relative_y == 8 {
                    self.selection_index = 2;
                    return ComponentAction::Confirm;
                }
            } else {
                return ComponentAction::Cancel;
            }
        }
        ComponentAction::Continue
    }
}

/// Opening the popup on a policy and confirming right away gives that
/// policy back.
pub proof fn lemma_open_confirm_round_trip(p: LoadBalancingPolicy)
    ensures
        policy_of_entry(entry_of(p)) == p,
{
}

/// Moving the selection down and then up, or up and then down, comes back
/// to the same entry; three moves down come back as well.
pub proof fn lemma_entry_moves_undo(i: usize)
    requires
        i < 3,
    ensures
        entry_above(entry_below(i)) == i,
        entry_below(entry_above(i)) == i,
        entry_below(entry_below(entry_below(i))) == i,
{
}

} // verus!
