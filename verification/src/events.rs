//! The input dispatcher: one ordered stream of keyboard events and periodic
//! ticks drives the application state. Exactly one event is consumed at a
//! time; a tick never mutates state, a recognized key mutates the screen
//! selector or the board cursors, and the quit key alone ends the loop.

use crate::board::{BoardCursors, Column};
use crate::cursor::{advance_spec, retreat_spec, Cursor};
use crate::menu::MenuItem;
use vstd::prelude::*;

verus! {

/// A keyboard event as the dispatcher sees it: a printable character, one
/// of the reserved navigation keys, or anything else.
#[derive(Clone, Copy, PartialEq, Eq, Structural, Debug)]
pub enum Key {
    Char(char),
    Left,
    Right,
    Up,
    Down,
    Other,
}

/// One element of the merged event stream: a keyboard event or a periodic
/// tick.
#[derive(Clone, Copy, PartialEq, Eq, Structural, Debug)]
pub enum Event {
    Input(Key),
    Tick,
}

/// The whole mutable UI state: the active screen and the three column
/// cursors. The task collection itself is not part of it; it is re-read
/// from the store for every query.
#[derive(Clone, Copy, PartialEq, Eq, Structural, Debug)]
pub struct App {
    pub screen: MenuItem,
    pub cursors: BoardCursors,
}

/// The cursors after a down-step in the focused column, where the three
/// columns currently hold `tc`, `dc` and `xc` entries; without a focused
/// column nothing moves.
pub open spec fn advance_focused_spec(c: BoardCursors, tc: int, dc: int, xc: int) -> BoardCursors {
    match c.focused_spec() {
        Option::Some(Column::Todo) => BoardCursors { todo: advance_spec(c.todo, tc), ..c },
        Option::Some(Column::Doing) => BoardCursors { doing: advance_spec(c.doing, dc), ..c },
        Option::Some(Column::Done) => BoardCursors { done: advance_spec(c.done, xc), ..c },
        Option::None => c,
    }
}

/// The cursors after an up-step in the focused column; the mirror of
/// `advance_focused_spec`.
pub open spec fn retreat_focused_spec(c: BoardCursors, tc: int, dc: int, xc: int) -> BoardCursors {
    match c.focused_spec() {
        Option::Some(Column::Todo) => BoardCursors { todo: retreat_spec(c.todo, tc), ..c },
        Option::Some(Column::Doing) => BoardCursors { doing: retreat_spec(c.doing, dc), ..c },
        Option::Some(Column::Done) => BoardCursors { done: retreat_spec(c.done, xc), ..c },
        Option::None => c,
    }
}

/// The cursors after handing focus one column to the right: the focused
/// column is cleared and the next column starts at its first entry when
/// non-empty. Focus on the rightmost column, or no focus at all, moves
/// nothing.
pub open spec fn focus_right_spec(c: BoardCursors, dc: int, xc: int) -> BoardCursors {
    match c.focused_spec() {
        Option::Some(Column::Todo) => BoardCursors {
            todo: Cursor::Unselected,
            doing: if dc > 0 {
                Cursor::SelectedAt(0usize)
            } else {
                Cursor::Unselected
            },
            done: c.done,
        },
        Option::Some(Column::Doing) => BoardCursors {
            todo: c.todo,
            doing: Cursor::Unselected,
            done: if xc > 0 {
                Cursor::SelectedAt(0usize)
            } else {
                Cursor::Unselected
            },
        },
        Option::Some(Column::Done) => c,
        Option::None => c,
    }
}

/// The state after one event, where the three columns currently hold `tc`,
/// `dc` and `xc` entries: ticks and unrecognized keys change nothing, the
/// four screen hotkeys move the screen selector alone, and the three
/// navigation keys move the board cursors alone. The quit key mutates
/// nothing; it only ends the loop.
pub open spec fn step_spec(app: App, ev: Event, tc: int, dc: int, xc: int) -> App {
    match ev {
        Event::Tick => app,
        Event::Input(key) => match key {
            Key::Char(ch) => if ch == 'w' {
                App { screen: MenuItem::Home, ..app }
            } else if ch == 't' {
                App { screen: MenuItem::Todos, ..app }
            } else if ch == 'i' {
                App { screen: MenuItem::Timers, ..app }
            } else if ch == 'm' {
                App { screen: MenuItem::TimeTracking, ..app }
            } else if ch == 'j' {
                App { cursors: advance_focused_spec(app.cursors, tc, dc, xc), ..app }
            } else if ch == 'k' {
                App { cursors: retreat_focused_spec(app.cursors, tc, dc, xc), ..app }
            } else if ch == 'l' {
                App { cursors: focus_right_spec(app.cursors, dc, xc), ..app }
            } else {
                app
            },
            _ => app,
        },
    }
}

/// Whether `ev` ends the event loop: exactly the quit key does.
pub open spec fn quits_spec(ev: Event) -> bool {
    ev == Event::Input(Key::Char('q'))
}

impl App {
    /// The state the application starts in: the Home screen, the Todo
    /// column focused at its first entry.
    pub fn new() -> (res: Self)
        ensures
            res.screen == MenuItem::Home,
            res.cursors == (BoardCursors {
                todo: Cursor::SelectedAt(0usize),
                doing: Cursor::Unselected,
                done: Cursor::Unselected,
            }),
            res.cursors.wf(),
    {
        App { screen: MenuItem::Home, cursors: BoardCursors::new() }
    }

    /// Consume one event against the current column lengths and mutate the
    /// state as `step_spec` says. Returns whether the event loop must end;
    /// only the quit key ends it, at any screen and in any navigation
    /// state. A tick never mutates anything, and a screen switch never
    /// touches any column cursor's stored index.
    pub fn handle_event(
        &mut self,
        ev: Event,
        todo_count: usize,
        doing_count: usize,
        done_count: usize,
    ) -> (quit: bool)
        ensures
            *final(self) == step_spec(
                *old(self),
                ev,
                todo_count as int,
                doing_count as int,
                done_count as int,
            ),
            quit == quits_spec(ev),
            ev == Event::Tick ==> *final(self) == *old(self),
            (ev == Event::Input(Key::Char('w')) || ev == Event::Input(Key::Char('t')) || ev
                == Event::Input(Key::Char('i')) || ev == Event::Input(Key::Char('m')))
                ==> final(self).cursors == old(self).cursors,
            old(self).cursors.wf() ==> final(self).cursors.wf(),
    {
        match ev {
            Event::Tick => false,
            Event::Input(key) => match key {
                Key::Char(ch) => {
                    if ch == 'q' {
                        true
                    } else if ch == 'w' {
                        self.screen = MenuItem::Home;
                        false
                    } else if ch == 't' {
                        self.screen = MenuItem::Todos;
                        false
                    } else if ch == 'i' {
                        self.screen = MenuItem::Timers;
                        false
                    } else if ch == 'm' {
                        self.screen = MenuItem::TimeTracking;
                        false
                    } else if ch == 'j' {
                        match self.cursors.focused() {
                            Option::Some(Column::Todo) => self.cursors.advance(
                                Column::Todo,
                                todo_count,
                            ),
                            Option::Some(Column::Doing) => self.cursors.advance(
                                Column::Doing,
                                doing_count,
                            ),
                            Option::Some(Column::Done) => self.cursors.advance(
                                Column::Done,
                                done_count,
                            ),
                            Option::None => {},
                        }
                        false
                    } else if ch == 'k' {
                        match self.cursors.focused() {
                            Option::Some(Column::Todo) => self.cursors.retreat(
                                Column::Todo,
                                todo_count,
                            ),
                            Option::Some(Column::Doing) => self.cursors.retreat(
                                Column::Doing,
                                doing_count,
                            ),
                            Option::Some(Column::Done) => self.cursors.retreat(
                                Column::Done,
                                done_count,
                            ),
                            Option::None => {},
                        }
                        false
                    } else if ch == 'l' {
                        match self.cursors.focused() {
                            Option::Some(Column::Todo) => self.cursors.focus_next_column(
                                Column::Todo,
                                Column::Doing,
                                doing_count,
                            ),
                            Option::Some(Column::Doing) => self.cursors.focus_next_column(
                                Column::Doing,
                                Column::Done,
                                done_count,
                            ),
                            Option::Some(Column::Done) => {},
                            Option::None => {},
                        }
                        false
                    } else {
                        false
                    }
                },
                _ => false,
            },
        }
    }
}

} // verus!
