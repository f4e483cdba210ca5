//! The board's three per-column cursors as one unit: which column holds the
//! focus, how focus moves to the next column, and how a cursor is turned
//! into the concretely selected task of its column.

use crate::cursor::{resolve_spec, Cursor};
use crate::task::Todo;
use vstd::prelude::*;

verus! {

/// One of the three status columns shown side by side.
#[derive(Clone, Copy, PartialEq, Eq, Structural, Debug)]
pub enum Column {
    Todo,
    Doing,
    Done,
}

/// The three independent selection cursors of the board, one per column.
#[derive(Clone, Copy, PartialEq, Eq, Structural, Debug)]
pub struct BoardCursors {
    pub todo: Cursor,
    pub doing: Cursor,
    pub done: Cursor,
}

impl BoardCursors {
    /// The cursor belonging to `col`.
    pub open spec fn cursor_of(self, col: Column) -> Cursor {
        match col {
            Column::Todo => self.todo,
            Column::Doing => self.doing,
            Column::Done => self.done,
        }
    }

    /// This board with the cursor of `col` replaced by `c` and the other
    /// two cursors kept.
    pub open spec fn with_cursor(self, col: Column, c: Cursor) -> BoardCursors {
        match col {
            Column::Todo => BoardCursors { todo: c, ..self },
            Column::Doing => BoardCursors { doing: c, ..self },
            Column::Done => BoardCursors { done: c, ..self },
        }
    }

    /// The focused column: the first column, left to right, whose cursor
    /// holds a selection.
    pub open spec fn focused_spec(self) -> Option<Column> {
        if self.todo is SelectedAt {
            Option::Some(Column::Todo)
        } else if self.doing is SelectedAt {
            Option::Some(Column::Doing)
        } else if self.done is SelectedAt {
            Option::Some(Column::Done)
        } else {
            Option::None
        }
    }

    /// At most one column holds a selection at a time.
    pub open spec fn wf(self) -> bool {
        (self.todo is SelectedAt ==> self.doing is Unselected && self.done is Unselected)
            && (self.doing is SelectedAt ==> self.done is Unselected)
    }

    /// The board as it starts: the Todo column focused at its first entry,
    /// the other two columns unselected.
    pub fn new() -> (res: Self)
        ensures
            res.todo == Cursor::SelectedAt(0usize),
            res.doing == Cursor::Unselected,
            res.done == Cursor::Unselected,
            res.wf(),
    {
        BoardCursors { todo: Cursor::SelectedAt(0), doing: Cursor::Unselected, done: Cursor::Unselected }
    }

    /// The cursor currently belonging to `col`.
    pub fn cursor(&self, col: Column) -> (res: Cursor)
        ensures
            res == self.cursor_of(col),
    {
        match col {
            Column::Todo => self.todo,
            Column::Doing => self.doing,
            Column::Done => self.done,
        }
    }

    /// The focused column, if any cursor holds a selection.
    pub fn focused(&self) -> (res: Option<Column>)
        ensures
            res == self.focused_spec(),
    {
        if matches!(self.todo, Cursor::SelectedAt(_)) {
            Option::Some(Column::Todo)
        } else if matches!(self.doing, Cursor::SelectedAt(_)) {
            Option::Some(Column::Doing)
        } else if matches!(self.done, Cursor::SelectedAt(_)) {
            Option::Some(Column::Done)
        } else {
            Option::None
        }
    }

    /// Move the selection of `col` one entry down its list of `count`
    /// entries; the other two cursors are untouched.
    pub fn advance(&mut self, col: Column, count: usize)
        ensures
            *final(self) == old(self).with_cursor(
                col,
                crate::cursor::advance_spec(old(self).cursor_of(col), count as int),
            ),
            old(self).wf() ==> final(self).wf(),
    {
        match col {
            Column::Todo => self.todo.advance(count),
            Column::Doing => self.doing.advance(count),
            Column::Done => self.done.advance(count),
        }
    }

    /// Move the selection of `col` one entry up its list of `count`
    /// entries; the other two cursors are untouched.
    pub fn retreat(&mut self, col: Column, count: usize)
        ensures
            *final(self) == old(self).with_cursor(
                col,
                crate::cursor::retreat_spec(old(self).cursor_of(col), count as int),
            ),
            old(self).wf() ==> final(self).wf(),
    {
        match col {
            Column::Todo => self.todo.retreat(count),
            Column::Doing => self.doing.retreat(count),
            Column::Done => self.done.retreat(count),
        }
    }

    /// Hand the focus from `from` to `to`: the cursor of `from` is cleared,
    /// and `to` starts at its first entry when its list of `to_count`
    /// entries is non-empty, else it too is left unselected. Any third
    /// column keeps its cursor.
    pub fn focus_next_column(&mut self, from: Column, to: Column, to_count: usize)
        requires
            from != to,
        ensures
            *final(self) == old(self).with_cursor(from, Cursor::Unselected).with_cursor(
                to,
                if to_count > 0 {
                    Cursor::SelectedAt(0usize)
                } else {
                    Cursor::Unselected
                },
            ),
    {
        self.set(from, Cursor::Unselected);
        if to_count > 0 {
            self.set(to, Cursor::SelectedAt(0));
        } else {
            self.set(to, Cursor::Unselected);
        }
    }

    /// Overwrite the cursor of `col`, leaving the other two untouched.
    fn set(&mut self, col: Column, c: Cursor)
        ensures
            *final(self) == old(self).with_cursor(col, c),
    {
        match col {
            Column::Todo => { self.todo = c },
            Column::Doing => { self.doing = c },
            Column::Done => { self.done = c },
        }
    }

    /// The task the cursor of `col` denotes within that column's filtered
    /// `list`: nothing when the cursor is unselected or the list empty, the
    /// entry at the held index while it is in range, and the last entry when
    /// the list has shrunk below the held index.
    pub fn selected_task(&self, col: Column, list: &Vec<Todo>) -> (res: Option<Todo>)
        ensures
            res == (match resolve_spec(self.cursor_of(col), list@.len() as int) {
                Option::Some(i) => Option::Some(list@[i]),
                Option::None => Option::<Todo>::None,
            }),
    {
        let cur = self.cursor(col);
        match cur.resolve(list.len()) {
            Option::Some(i) => Option::Some(list[i].clone()),
            Option::None => Option::None,
        }
    }
}

} // verus!
