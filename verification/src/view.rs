//! The view projection: a pure function from the active screen, the board
//! cursors and the three filtered task lists to a renderable description —
//! column title lists, the resolved selection of each column, the focused
//! column, and the detail record of the selected task. The drawing itself
//! belongs to the terminal toolkit outside this library.

use crate::board::{BoardCursors, Column};
use crate::cursor::{resolve_index, resolve_spec, Cursor};
use crate::menu::MenuItem;
use crate::task::{Todo, TodoStatus};
use vstd::prelude::*;

verus! {

/// The renderable description of the Todos screen: one list of titles per
/// column, each column's resolved selection, the focused column, and the
/// detail record projected from the selected task.
pub struct BoardView {
    pub todo_titles: Vec<String>,
    pub doing_titles: Vec<String>,
    pub done_titles: Vec<String>,
    pub todo_selected: Option<usize>,
    pub doing_selected: Option<usize>,
    pub done_selected: Option<usize>,
    pub focused: Option<Column>,
    pub detail: Option<Todo>,
}

/// What one render cycle shows: the board for the Todos screen, and static
/// placeholder content for the other three screens.
pub enum ScreenView {
    Home,
    Todos(BoardView),
    Timers,
    TimeTracking,
}

/// The task a cursor denotes within one filtered list, after clamping.
pub open spec fn task_at(list: Seq<Todo>, c: Cursor) -> Option<Todo> {
    match resolve_spec(c, list.len() as int) {
        Option::Some(i) => Option::Some(list[i]),
        Option::None => Option::None,
    }
}

/// Status law: whatever task the clamped selection denotes within a
/// column's filtered list, it carries that column's status — a selection
/// can never hand out a task of a foreign column.
pub proof fn lemma_selected_task_status(tasks: Seq<Todo>, status: TodoStatus, c: Cursor)
    ensures
        match task_at(crate::store::by_status(tasks, status), c) {
            Option::Some(t) => t.status == status,
            Option::None => true,
        },
{
    let list = crate::store::by_status(tasks, status);
    match resolve_spec(c, list.len() as int) {
        Option::Some(i) => {
            crate::store::lemma_by_status_status(tasks, status, i);
        },
        Option::None => {},
    }
}

/// The detail record of the selected task: the clamped selection of the
/// focused column, nothing when no column is focused.
pub open spec fn detail_spec(
    cursors: BoardCursors,
    todo: Seq<Todo>,
    doing: Seq<Todo>,
    done: Seq<Todo>,
) -> Option<Todo> {
    match cursors.focused_spec() {
        Option::Some(Column::Todo) => task_at(todo, cursors.todo),
        Option::Some(Column::Doing) => task_at(doing, cursors.doing),
        Option::Some(Column::Done) => task_at(done, cursors.done),
        Option::None => Option::None,
    }
}

/// The static text of the Home screen, line by line: a greeting and the
/// hint naming the screen hotkeys. Blank lines separate the parts.
pub fn home_lines() -> (res: Vec<String>)
    ensures
        res@.len() == 8,
        res@[1]@ == "Welcome"@,
        res@[3]@ == "to"@,
        res@[5]@ == "Personal Work Suit CLI"@,
        res@[7]@
            == "Press 't' to access To-Do, 'i' to access timers and 'm' to check time tracking."@,
        res@[0]@ == ""@ && res@[2]@ == ""@ && res@[4]@ == ""@ && res@[6]@ == ""@,
{
    let mut res: Vec<String> = Vec::new();
    res.push(String::from_str(""));
    res.push(String::from_str("Welcome"));
    res.push(String::from_str(""));
    res.push(String::from_str("to"));
    res.push(String::from_str(""));
    res.push(String::from_str("Personal Work Suit CLI"));
    res.push(String::from_str(""));
    res.push(String::from_str(
        "Press 't' to access To-Do, 'i' to access timers and 'm' to check time tracking.",
    ));
    res
}

/// The titles of `list`, in order.
fn titles_of(list: &Vec<Todo>) -> (res: Vec<String>)
    ensures
        res@ == list@.map_values(|t: Todo| t.title),
{
    let mut res: Vec<String> = Vec::new();
    let mut i: usize = 0;
    proof {
        assert(res@ =~= list@.take(0int).map_values(|t: Todo| t.title));
    }
    while i < list.len()
        invariant
            i <= list.len(),
            res@ == list@.take(i as int).map_values(|t: Todo| t.title),
        decreases list.len() - i,
    {
        res.push(list[i].title.clone());
        proof {
            assert(res@ =~= list@.take(i + 1).map_values(|t: Todo| t.title));
        }
        i += 1;
    }
    proof {
        assert(list@.take(list@.len() as int) =~= list@);
    }
    res
}

/// Project the current state onto a renderable screen description. For the
/// Todos screen this lists each column's titles in store order, resolves
/// each column's selection with the clamping rule, names the focused
/// column, and projects the selected task into the detail panel; the other
/// screens are placeholders with no state of their own.
pub fn project(
    screen: MenuItem,
    cursors: &BoardCursors,
    todo_list: &Vec<Todo>,
    doing_list: &Vec<Todo>,
    done_list: &Vec<Todo>,
) -> (v: ScreenView)
    ensures
        screen == MenuItem::Home ==> v == ScreenView::Home,
        screen == MenuItem::Timers ==> v == ScreenView::Timers,
        screen == MenuItem::TimeTracking ==> v == ScreenView::TimeTracking,
        screen == MenuItem::Todos ==> (v matches ScreenView::Todos(b) && (
            b.todo_titles@ == todo_list@.map_values(|t: Todo| t.title)
                && b.doing_titles@ == doing_list@.map_values(|t: Todo| t.title)
                && b.done_titles@ == done_list@.map_values(|t: Todo| t.title)
                && b.todo_selected == resolve_index(cursors.todo, todo_list@.len() as int)
                && b.doing_selected == resolve_index(cursors.doing, doing_list@.len() as int)
                && b.done_selected == resolve_index(cursors.done, done_list@.len() as int)
                && b.focused == cursors.focused_spec()
                && b.detail == detail_spec(*cursors, todo_list@, doing_list@, done_list@)
        )),
{
    match screen {
        MenuItem::Home => ScreenView::Home,
        MenuItem::Timers => ScreenView::Timers,
        MenuItem::TimeTracking => ScreenView::TimeTracking,
        MenuItem::Todos => {
            let focused = cursors.focused();
            let detail = match focused {
                Option::Some(Column::Todo) => cursors.selected_task(Column::Todo, todo_list),
                Option::Some(Column::Doing) => cursors.selected_task(Column::Doing, doing_list),
                Option::Some(Column::Done) => cursors.selected_task(Column::Done, done_list),
                Option::None => Option::None,
            };
            ScreenView::Todos(BoardView {
                todo_titles: titles_of(todo_list),
                doing_titles: titles_of(doing_list),
                done_titles: titles_of(done_list),
                todo_selected: cursors.cursor(Column::Todo).resolve(todo_list.len()),
                doing_selected: cursors.cursor(Column::Doing).resolve(doing_list.len()),
                done_selected: cursors.cursor(Column::Done).resolve(done_list.len()),
                focused,
                detail,
            })
        },
    }
}

} // verus!
