//! The top-level screen selector: which of the four screens is active, and
//! the tab position each screen occupies in the menu bar.

use vstd::prelude::*;

verus! {

/// The four top-level screens selectable from the menu bar; exactly one is
/// active at a time.
#[derive(Clone, Copy, PartialEq, Eq, Structural, Debug)]
pub enum MenuItem {
    Home,
    Todos,
    Timers,
    TimeTracking,
}

/// The tab position a screen occupies in the menu bar, left to right.
pub open spec fn menu_index(item: MenuItem) -> int {
    match item {
        MenuItem::Home => 0,
        MenuItem::Todos => 1,
        MenuItem::Timers => 2,
        MenuItem::TimeTracking => 3,
    }
}

impl From<MenuItem> for usize {
    /// The tab position of `input` in the menu bar.
    fn from(input: MenuItem) -> (res: usize)
        ensures
            res as int == menu_index(input),
    {
        match input {
            MenuItem::Home => 0,
            MenuItem::Todos => 1,
            MenuItem::Timers => 2,
            MenuItem::TimeTracking => 3,
        }
    }
}

impl vstd::std_specs::convert::FromSpecImpl<MenuItem> for usize {
    open spec fn obeys_from_spec() -> bool {
        true
    }

    open spec fn from_spec(input: MenuItem) -> usize {
        menu_index(input) as usize
    }
}

} // verus!
