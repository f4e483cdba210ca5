use task_board::board::{BoardCursors, Column};
use task_board::cursor::Cursor;
use task_board::events::{App, Event, Key};
use task_board::hotkeys::assign_hotkeys;
use task_board::menu::MenuItem;
use task_board::store::list_by_status;
use task_board::task::{Error, Todo, TodoStatus};
use task_board::view::{project, ScreenView};

fn task(id: usize, title: &str, status: TodoStatus) -> Todo {
    Todo {
        id,
        title: title.to_string(),
        description: format!("description of {}", title),
        category: "work".to_string(),
        status,
        created_at: "2020-01-01T00:00:00Z".to_string(),
    }
}

fn sample_tasks() -> Vec<Todo> {
    vec![
        task(1, "first", TodoStatus::Todo),
        task(2, "second", TodoStatus::Todo),
        task(3, "third", TodoStatus::Doing),
    ]
}

#[test]
fn advance_cycles_back_to_start() {
    // a non-empty list of length 3: three advances return to the start
    let mut c = Cursor::SelectedAt(1);
    for _ in 0..3 {
        c.advance(3);
    }
    assert_eq!(c, Cursor::SelectedAt(1));
}

#[test]
fn retreat_cycles_back_to_start() {
    let mut c = Cursor::SelectedAt(2);
    for _ in 0..4 {
        c.retreat(4);
    }
    assert_eq!(c, Cursor::SelectedAt(2));
}

#[test]
fn advance_wraps_at_end() {
    let mut c = Cursor::SelectedAt(2);
    c.advance(3);
    assert_eq!(c, Cursor::SelectedAt(0));
}

#[test]
fn retreat_wraps_at_start() {
    let mut c = Cursor::SelectedAt(0);
    c.retreat(3);
    assert_eq!(c, Cursor::SelectedAt(2));
}

#[test]
fn movement_on_empty_list_yields_unselected() {
    let mut c = Cursor::SelectedAt(4);
    c.advance(0);
    assert_eq!(c, Cursor::Unselected);

    let mut c = Cursor::SelectedAt(0);
    c.retreat(0);
    assert_eq!(c, Cursor::Unselected);

    let mut c = Cursor::Unselected;
    c.advance(0);
    assert_eq!(c, Cursor::Unselected);
    c.retreat(5);
    assert_eq!(c, Cursor::Unselected);
}

#[test]
fn resolve_clamps_stale_index() {
    // list shrank from 6 to 3 while the cursor held 5: clamp to 2
    let c = Cursor::SelectedAt(5);
    assert_eq!(c.resolve(3), Some(2));
    // shrank to nothing: no selection, no failure
    assert_eq!(c.resolve(0), None);
    // still in range: kept as is
    assert_eq!(Cursor::SelectedAt(1).resolve(3), Some(1));
    assert_eq!(Cursor::Unselected.resolve(3), None);
}

#[test]
fn selected_task_clamps_on_shrunken_list() {
    let mut cursors = BoardCursors::new();
    cursors.advance(Column::Todo, 6);
    cursors.advance(Column::Todo, 6);
    // the cursor holds index 2, but the filtered list now has 2 entries
    let tasks = sample_tasks();
    let todos = list_by_status(&tasks, TodoStatus::Todo);
    let picked = cursors.selected_task(Column::Todo, &todos).unwrap();
    assert_eq!(picked.id, 2);
}

#[test]
fn selected_task_status_matches_column() {
    let tasks = sample_tasks();
    let cursors = BoardCursors::new();
    let todos = list_by_status(&tasks, TodoStatus::Todo);
    let doings = list_by_status(&tasks, TodoStatus::Doing);
    let dones = list_by_status(&tasks, TodoStatus::Done);
    if let Some(t) = cursors.selected_task(Column::Todo, &todos) {
        assert_eq!(t.status, TodoStatus::Todo);
    }
    if let Some(t) = cursors.selected_task(Column::Doing, &doings) {
        assert_eq!(t.status, TodoStatus::Doing);
    }
    assert!(cursors.selected_task(Column::Done, &dones).is_none());
}

#[test]
fn list_by_status_filters_in_order() {
    let tasks = sample_tasks();
    let todos = list_by_status(&tasks, TodoStatus::Todo);
    let ids: Vec<usize> = todos.iter().map(|t| t.id).collect();
    assert_eq!(ids, vec![1, 2]);
    let doings = list_by_status(&tasks, TodoStatus::Doing);
    assert_eq!(doings.len(), 1);
    assert_eq!(doings[0].id, 3);
    let dones = list_by_status(&tasks, TodoStatus::Done);
    assert!(dones.is_empty());
}

#[test]
fn list_by_status_on_empty_store() {
    let tasks: Vec<Todo> = Vec::new();
    assert!(list_by_status(&tasks, TodoStatus::Todo).is_empty());
}

#[test]
fn board_scenario_advance_and_wrap() {
    // store holds two Todo tasks and one Doing task
    let tasks = sample_tasks();
    let todos = list_by_status(&tasks, TodoStatus::Todo);
    let ids: Vec<usize> = todos.iter().map(|t| t.id).collect();
    assert_eq!(ids, vec![1, 2]);

    let mut app = App::new();
    // the cursor starts at index 0: task id 1
    let picked = app.cursors.selected_task(Column::Todo, &todos).unwrap();
    assert_eq!(picked.id, 1);

    // one advance moves to index 1: task id 2
    let quit = app.handle_event(Event::Input(Key::Char('j')), todos.len(), 1, 0);
    assert!(!quit);
    let picked = app.cursors.selected_task(Column::Todo, &todos).unwrap();
    assert_eq!(picked.id, 2);

    // one more advance wraps back to index 0: task id 1
    app.handle_event(Event::Input(Key::Char('j')), todos.len(), 1, 0);
    let picked = app.cursors.selected_task(Column::Todo, &todos).unwrap();
    assert_eq!(picked.id, 1);
}

#[test]
fn quit_terminates_at_any_screen() {
    for switch in ['w', 't', 'i', 'm'] {
        let mut app = App::new();
        assert!(!app.handle_event(Event::Input(Key::Char(switch)), 2, 1, 0));
        // some navigation beforehand must make no difference
        app.handle_event(Event::Input(Key::Char('j')), 2, 1, 0);
        app.handle_event(Event::Input(Key::Char('l')), 2, 1, 0);
        assert!(app.handle_event(Event::Input(Key::Char('q')), 2, 1, 0));
    }
}

#[test]
fn unrecognized_keys_change_nothing() {
    let mut app = App::new();
    let before = app;
    for key in [Key::Char('x'), Key::Left, Key::Right, Key::Up, Key::Down, Key::Char('h'), Key::Other] {
        assert!(!app.handle_event(Event::Input(key), 2, 1, 0));
        assert_eq!(app, before);
    }
    assert!(!app.handle_event(Event::Tick, 2, 1, 0));
    assert_eq!(app, before);
}

#[test]
fn screen_switch_keeps_cursor_indices() {
    let mut app = App::new();
    app.handle_event(Event::Input(Key::Char('j')), 3, 1, 0);
    let cursors_before = app.cursors;
    for (key, screen) in [
        ('t', MenuItem::Todos),
        ('i', MenuItem::Timers),
        ('m', MenuItem::TimeTracking),
        ('w', MenuItem::Home),
    ] {
        app.handle_event(Event::Input(Key::Char(key)), 3, 1, 0);
        assert_eq!(app.screen, screen);
        assert_eq!(app.cursors, cursors_before);
    }
}

#[test]
fn focus_moves_right_and_stops_at_done() {
    let mut app = App::new();
    assert_eq!(app.cursors.todo, Cursor::SelectedAt(0));
    // Todo -> Doing: Todo cleared, Doing starts at its first entry
    app.handle_event(Event::Input(Key::Char('l')), 2, 3, 1);
    assert_eq!(app.cursors.todo, Cursor::Unselected);
    assert_eq!(app.cursors.doing, Cursor::SelectedAt(0));
    // Doing -> Done
    app.handle_event(Event::Input(Key::Char('l')), 2, 3, 1);
    assert_eq!(app.cursors.doing, Cursor::Unselected);
    assert_eq!(app.cursors.done, Cursor::SelectedAt(0));
    // focus on Done stays put
    app.handle_event(Event::Input(Key::Char('l')), 2, 3, 1);
    assert_eq!(app.cursors.done, Cursor::SelectedAt(0));
}

#[test]
fn focus_into_empty_column_clears_selection() {
    let mut cursors = BoardCursors::new();
    cursors.focus_next_column(Column::Todo, Column::Doing, 0);
    assert_eq!(cursors.todo, Cursor::Unselected);
    assert_eq!(cursors.doing, Cursor::Unselected);
    assert_eq!(cursors.done, Cursor::Unselected);
}

#[test]
fn hotkey_labels_get_distinct_letters() {
    let labels: Vec<String> = ["Home", "Todos", "Timers", "TimeTracking", "Quit"]
        .iter()
        .map(|s| s.to_string())
        .collect();
    let picks = assign_hotkeys(&labels);
    assert_eq!(picks, vec![0, 0, 1, 2, 0]);
    let letters: Vec<char> = labels
        .iter()
        .zip(picks.iter())
        .map(|(label, &k)| label.chars().nth(k).unwrap())
        .collect();
    assert_eq!(letters, vec!['H', 'T', 'i', 'm', 'Q']);
    for a in 0..letters.len() {
        for b in 0..a {
            assert_ne!(letters[a], letters[b]);
        }
    }
}

#[test]
fn menu_items_map_to_tab_positions() {
    assert_eq!(usize::from(MenuItem::Home), 0);
    assert_eq!(usize::from(MenuItem::Todos), 1);
    assert_eq!(usize::from(MenuItem::Timers), 2);
    assert_eq!(usize::from(MenuItem::TimeTracking), 3);
}

#[test]
fn projection_of_placeholder_screens() {
    let cursors = BoardCursors::new();
    let empty: Vec<Todo> = Vec::new();
    assert!(matches!(
        project(MenuItem::Home, &cursors, &empty, &empty, &empty),
        ScreenView::Home
    ));
    assert!(matches!(
        project(MenuItem::Timers, &cursors, &empty, &empty, &empty),
        ScreenView::Timers
    ));
    assert!(matches!(
        project(MenuItem::TimeTracking, &cursors, &empty, &empty, &empty),
        ScreenView::TimeTracking
    ));
}

#[test]
fn projection_of_todos_screen() {
    let tasks = sample_tasks();
    let todos = list_by_status(&tasks, TodoStatus::Todo);
    let doings = list_by_status(&tasks, TodoStatus::Doing);
    let dones = list_by_status(&tasks, TodoStatus::Done);
    let cursors = BoardCursors::new();
    match project(MenuItem::Todos, &cursors, &todos, &doings, &dones) {
        ScreenView::Todos(b) => {
            assert_eq!(b.todo_titles, vec!["first".to_string(), "second".to_string()]);
            assert_eq!(b.doing_titles, vec!["third".to_string()]);
            assert!(b.done_titles.is_empty());
            assert_eq!(b.todo_selected, Some(0));
            assert_eq!(b.doing_selected, None);
            assert_eq!(b.done_selected, None);
            assert_eq!(b.focused, Some(Column::Todo));
            let detail = b.detail.expect("the focused column has a selection");
            assert_eq!(detail.id, 1);
            assert_eq!(detail.title, "first");
            assert_eq!(detail.status, TodoStatus::Todo);
        }
        _ => panic!("the Todos screen must project the board"),
    }
}

#[test]
fn home_screen_lines() {
    let lines = task_board::view::home_lines();
    assert_eq!(
        lines,
        vec![
            "",
            "Welcome",
            "",
            "to",
            "",
            "Personal Work Suit CLI",
            "",
            "Press 't' to access To-Do, 'i' to access timers and 'm' to check time tracking.",
        ]
    );
}

#[test]
fn error_carries_its_diagnostic() {
    let e = Error::ReadDBError("no such file".to_string());
    assert_eq!(e.message(), "no such file");
    let e = Error::ParseDBError("bad record".to_string());
    assert_eq!(e.message(), "bad record");
}
