use crate::load_balancer::strategy::{policy_name, LoadBalancingPolicy};
use crate::tui::component::mode_select_menu::policy_of_entry;
use crate::tui::component::{saturating_add_u16, saturating_sub_u16, Rect};
use vstd::prelude::*;

verus! {

/// Width of the options menu.
pub const OPTIONS_MENU_WIDTH: u16 = 22;

/// Height of the options menu.
pub const OPTIONS_MENU_HEIGHT: u16 = 5;

/// Where the options menu opens: right-aligned under the options button,
/// kept from running past the right edge of the screen where it can be.
pub open spec fn options_menu_area_spec(button: Rect, screen: Rect) -> Rect {
    let a = saturating_sub_u16(saturating_add_u16(button.x, button.width), OPTIONS_MENU_WIDTH);
    let b = saturating_sub_u16(saturating_add_u16(screen.x, screen.width), OPTIONS_MENU_WIDTH);
    let x = if a <= b {
        a
    } else {
        b
    };
    let y = saturating_add_u16(button.y, button.height);
    Rect {
        x,
        y,
        width: if OPTIONS_MENU_WIDTH > u16::MAX - x {
            (u16::MAX - x) as u16
        } else {
            OPTIONS_MENU_WIDTH
        },
        height: if OPTIONS_MENU_HEIGHT > u16::MAX - y {
            (u16::MAX - y) as u16
        } else {
            OPTIONS_MENU_HEIGHT
        },
    }
}

/// The area of the options menu for the options button drawn at `button` on
/// a screen of area `screen`.
pub fn options_menu_area(button: Rect, screen: Rect) -> (r: Rect)
    ensures
        r == options_menu_area_spec(button, screen),
{
    let x = button.right().saturating_sub(OPTIONS_MENU_WIDTH);
    let limit = screen.right().saturating_sub(OPTIONS_MENU_WIDTH);
    let x = if x <= limit {
        x
    } else {
        limit
    };
    Rect::new(x, button.bottom(), OPTIONS_MENU_WIDTH, OPTIONS_MENU_HEIGHT)
}

/// The dashboard title for the policy in force.
pub fn header_title(policy: LoadBalancingPolicy) -> (t: String)
    ensures
        t@ == "Load Balancer | "@ + policy_name(policy),
{
    let mut t = String::from_str("Load Balancer | ");
    t.append(policy.name());
    t
}

/// The line the mode popup shows for the policy in force.
pub fn mode_title(policy: LoadBalancingPolicy) -> (t: String)
    ensures
        t@ == "Mode: "@ + policy_name(policy),
{
    let mut t = String::from_str("Mode: ");
    t.append(policy.name());
    t
}

/// The label of entry `index` of the mode popup: the policy's name behind a
/// marker where the entry is selected, behind two spaces where it is not.
pub fn mode_entry_label(index: usize, selection_index: usize) -> (t: String)
    requires
        index < 3,
    ensures
        t@ == (if index == selection_index {
            "\u{25b6} "@
        } else {
            "  "@
        }) + policy_name(policy_of_entry(index)),
{
    let mut t = if index == selection_index {
        String::from_str("\u{25b6} ")
    } else {
        String::from_str("  ")
    };
    let policy = if index == 0 {
        LoadBalancingPolicy::RoundRobin
    } else if index == 1 {
        LoadBalancingPolicy::LeastConnections
    } else {
        LoadBalancingPolicy::LeastLoad
    };
    t.append(policy.name());
    t
}

} // verus!
