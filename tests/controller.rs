use ratatodo::controller::{App, CurrentlyEditing, Key, Mode};
use ratatodo::store::TodoList;
use ratatodo::task::{Status, Task};

fn press_all(app: &mut App, keys: &[Key]) {
    for k in keys {
        app.handle_key_events(*k);
    }
}

fn type_text(app: &mut App, text: &str) {
    for c in text.chars() {
        app.handle_key_events(Key::Char(c));
    }
}

fn titles(app: &App) -> Vec<(String, String, Status)> {
    app.list()
        .tasks()
        .iter()
        .map(|t| (t.title.clone(), t.info.clone(), t.status))
        .collect()
}

fn app_with(tasks: Vec<Task>) -> App {
    App::with_list(TodoList::from_tasks(tasks))
}

#[test]
fn default_app_is_empty_in_view_mode() {
    let app = App::default();
    assert!(!app.is_exiting());
    assert_eq!(app.list().len(), 0);
    assert!(matches!(app.mode(), Mode::View));
}

#[test]
fn quit_key_requests_exit() {
    let mut app = App::default();
    app.handle_key_events(Key::Char('q'));
    assert!(app.is_exiting());
    assert!(matches!(app.mode(), Mode::View));
}

#[test]
fn new_task_flow_appends_upcoming_task() {
    for k in ['n', 'i', 'a', 'o'] {
        let mut app = app_with(vec![Task::new(Status::Active, "old", "x")]);
        app.handle_key_events(Key::Char(k));
        match app.mode() {
            Mode::Edit(s) => {
                assert_eq!(s.target, None);
                assert_eq!(s.currently_editing, CurrentlyEditing::Title);
                assert_eq!(s.title_field, "");
                assert_eq!(s.info_field, "");
            }
            _ => panic!("expected Edit mode"),
        }
        type_text(&mut app, "Walk dog");
        app.handle_key_events(Key::Enter);
        type_text(&mut app, "after lunch");
        app.handle_key_events(Key::Enter);
        assert!(matches!(app.mode(), Mode::View));
        assert_eq!(
            titles(&app),
            vec![
                ("old".to_string(), "x".to_string(), Status::Active),
                ("Walk dog".to_string(), "after lunch".to_string(), Status::Upcoming),
            ]
        );
    }
}

#[test]
fn empty_title_commit_creates_nothing() {
    let mut app = App::default();
    app.handle_key_events(Key::Char('n'));
    app.handle_key_events(Key::Enter);
    type_text(&mut app, "detail only");
    app.handle_key_events(Key::Enter);
    assert!(matches!(app.mode(), Mode::View));
    assert_eq!(app.list().len(), 0);
}

#[test]
fn first_confirm_moves_focus_to_detail() {
    let mut app = App::default();
    app.handle_key_events(Key::Char('n'));
    type_text(&mut app, "t");
    app.handle_key_events(Key::Enter);
    match app.mode() {
        Mode::Edit(s) => {
            assert_eq!(s.currently_editing, CurrentlyEditing::Info);
            assert_eq!(s.title_field, "t");
        }
        _ => panic!("expected Edit mode"),
    }
    assert_eq!(app.list().len(), 0);
}

#[test]
fn edit_selected_task_changes_only_its_title() {
    let mut app = app_with(vec![
        Task::new(Status::Upcoming, "Walk dog", ""),
        Task::new(Status::Active, "Buy milk", "2%"),
    ]);
    app.handle_key_events(Key::Char('j'));
    app.handle_key_events(Key::Char('j'));
    app.handle_key_events(Key::Char('e'));
    match app.mode() {
        Mode::Edit(s) => {
            assert_eq!(s.target, Some(1));
            assert_eq!(s.title_field, "Buy milk");
            assert_eq!(s.info_field, "2%");
            assert_eq!(s.currently_editing, CurrentlyEditing::Title);
        }
        _ => panic!("expected Edit mode"),
    }
    for _ in 0.."Buy milk".len() {
        app.handle_key_events(Key::Backspace);
    }
    type_text(&mut app, "Buy oat milk");
    press_all(&mut app, &[Key::Enter, Key::Enter]);
    assert!(matches!(app.mode(), Mode::View));
    assert_eq!(
        titles(&app),
        vec![
            ("Walk dog".to_string(), "".to_string(), Status::Upcoming),
            ("Buy oat milk".to_string(), "2%".to_string(), Status::Active),
        ]
    );
    assert_eq!(app.list().selected(), Some(1));
}

#[test]
fn edit_without_selection_does_nothing() {
    let mut app = app_with(vec![Task::new(Status::Upcoming, "a", "")]);
    app.handle_key_events(Key::Char('e'));
    assert!(matches!(app.mode(), Mode::View));
}

#[test]
fn cancel_new_draft_leaves_store_unchanged() {
    let mut app = app_with(vec![Task::new(Status::Completed, "a", "b")]);
    app.handle_key_events(Key::Char('j'));
    let before = titles(&app);
    app.handle_key_events(Key::Char('n'));
    type_text(&mut app, "draft");
    app.handle_key_events(Key::Tab);
    type_text(&mut app, "more");
    app.handle_key_events(Key::Esc);
    assert!(matches!(app.mode(), Mode::View));
    assert_eq!(titles(&app), before);
    assert_eq!(app.list().selected(), Some(0));
}

#[test]
fn cancel_existing_draft_leaves_store_unchanged() {
    let mut app = app_with(vec![Task::new(Status::Active, "Buy milk", "2%")]);
    app.handle_key_events(Key::Char('j'));
    let before = titles(&app);
    app.handle_key_events(Key::Char('e'));
    press_all(&mut app, &[Key::Backspace, Key::Backspace, Key::Down]);
    type_text(&mut app, "zz");
    app.handle_key_events(Key::Esc);
    assert!(matches!(app.mode(), Mode::View));
    assert_eq!(titles(&app), before);
}

#[test]
fn cancelled_draft_does_not_leak_into_next_one() {
    let mut app = app_with(vec![Task::new(Status::Active, "Buy milk", "2%")]);
    app.handle_key_events(Key::Char('j'));
    app.handle_key_events(Key::Char('e'));
    app.handle_key_events(Key::Esc);
    app.handle_key_events(Key::Char('n'));
    type_text(&mut app, "new");
    press_all(&mut app, &[Key::Enter, Key::Enter]);
    assert_eq!(
        titles(&app),
        vec![
            ("Buy milk".to_string(), "2%".to_string(), Status::Active),
            ("new".to_string(), "".to_string(), Status::Upcoming),
        ]
    );
}

#[test]
fn help_then_cancel_returns_to_view_unchanged() {
    let mut app = app_with(vec![
        Task::new(Status::Upcoming, "a", ""),
        Task::new(Status::Active, "b", ""),
    ]);
    app.handle_key_events(Key::Up);
    let before = titles(&app);
    app.handle_key_events(Key::Char('h'));
    assert!(matches!(app.mode(), Mode::Help));
    app.handle_key_events(Key::Char('d'));
    app.handle_key_events(Key::Char('q'));
    assert!(matches!(app.mode(), Mode::Help));
    app.handle_key_events(Key::Esc);
    assert!(matches!(app.mode(), Mode::View));
    assert_eq!(titles(&app), before);
    assert_eq!(app.list().selected(), Some(1));
    assert!(!app.is_exiting());
}

#[test]
fn backspace_on_empty_field_does_nothing() {
    let mut app = App::default();
    app.handle_key_events(Key::Char('n'));
    app.handle_key_events(Key::Backspace);
    app.handle_key_events(Key::Tab);
    type_text(&mut app, "ab");
    app.handle_key_events(Key::Backspace);
    match app.mode() {
        Mode::Edit(s) => {
            assert_eq!(s.title_field, "");
            assert_eq!(s.info_field, "a");
            assert_eq!(s.currently_editing, CurrentlyEditing::Info);
        }
        _ => panic!("expected Edit mode"),
    }
}

#[test]
fn field_switch_keys_toggle_active_field() {
    let mut app = App::default();
    app.handle_key_events(Key::Char('n'));
    app.handle_key_events(Key::Up);
    type_text(&mut app, "d");
    app.handle_key_events(Key::Tab);
    type_text(&mut app, "t");
    match app.mode() {
        Mode::Edit(s) => {
            assert_eq!(s.title_field, "t");
            assert_eq!(s.info_field, "d");
        }
        _ => panic!("expected Edit mode"),
    }
}

#[test]
fn view_keys_move_delete_and_cycle() {
    let mut app = app_with(vec![
        Task::new(Status::Upcoming, "a", ""),
        Task::new(Status::Upcoming, "b", ""),
        Task::new(Status::Upcoming, "c", ""),
    ]);
    app.handle_key_events(Key::Down);
    app.handle_key_events(Key::Char('k'));
    assert_eq!(app.list().selected(), Some(2));
    press_all(&mut app, &[Key::Char('l'), Key::Right, Key::Tab, Key::Left, Key::Char('t')]);
    assert_eq!(app.list().get(2).status, Status::Completed);
    app.handle_key_events(Key::Char('d'));
    assert_eq!(app.list().len(), 2);
    assert_eq!(app.list().selected(), Some(1));
    app.handle_key_events(Key::Delete);
    app.handle_key_events(Key::Backspace);
    assert_eq!(app.list().len(), 0);
    assert_eq!(app.list().selected(), None);
}

#[test]
fn unmapped_keys_do_nothing() {
    let mut app = app_with(vec![Task::new(Status::Upcoming, "a", "")]);
    press_all(&mut app, &[Key::Char('z'), Key::Enter, Key::Esc, Key::Other]);
    assert!(matches!(app.mode(), Mode::View));
    assert_eq!(app.list().selected(), None);
    assert_eq!(titles(&app), vec![("a".to_string(), "".to_string(), Status::Upcoming)]);
}
