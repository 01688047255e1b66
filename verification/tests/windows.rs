use dwxdy::app::App;
use dwxdy::keys::Key;
use dwxdy::task::{TaskStatus, TodoTask};
use dwxdy::window::{focus_region_count, WindowData, WindowLayout, WindowType};

fn ready_app() -> App {
    let mut app = App::new(Vec::new());
    app.show_dashboard = false;
    app
}

#[test]
fn esc_closes_every_window_kind() {
    for kind in [
        WindowType::CreateTask,
        WindowType::PomodoroSettings,
        WindowType::Settings,
        WindowType::Search,
    ] {
        let mut app = ready_app();
        app.open_window_sized(kind, 100, 40);
        assert!(app.active_window.is_some());
        app.handle_key_event(Key::Esc);
        assert!(app.active_window.is_none(), "Esc must close {:?}", kind);
    }
}

#[test]
fn enter_closes_only_the_single_commit_kinds() {
    for (kind, closes) in [
        (WindowType::CreateTask, true),
        (WindowType::Search, true),
        (WindowType::PomodoroSettings, false),
        (WindowType::Settings, false),
    ] {
        let mut app = ready_app();
        app.open_window_sized(kind, 100, 40);
        app.handle_key_event(Key::Enter);
        assert_eq!(app.active_window.is_none(), closes, "Enter policy for {:?}", kind);
    }
}

#[test]
fn opening_while_a_window_is_open_is_rejected() {
    let mut app = ready_app();
    app.open_window_sized(WindowType::CreateTask, 100, 40);
    app.open_window_sized(WindowType::Settings, 100, 40);
    let w = app.active_window.as_ref().unwrap();
    assert_eq!(w.window_type, WindowType::CreateTask);
}

#[test]
fn layout_takes_fixed_percentages_of_the_terminal() {
    let l = WindowLayout::for_kind(WindowType::CreateTask, 100, 40);
    assert_eq!((l.x, l.y, l.width, l.height), (15, 2, 70, 32));
    let l = WindowLayout::for_kind(WindowType::PomodoroSettings, 100, 40);
    assert_eq!((l.x, l.y, l.width, l.height), (10, 3, 80, 34));
    let l = WindowLayout::for_kind(WindowType::Settings, 100, 40);
    assert_eq!((l.x, l.y, l.width, l.height), (12, 2, 75, 36));
    let l = WindowLayout::for_kind(WindowType::Search, 100, 40);
    assert_eq!((l.x, l.y, l.width, l.height), (15, 6, 70, 28));
}

#[test]
fn focus_region_counts_per_kind() {
    assert_eq!(focus_region_count(WindowType::CreateTask), 2);
    assert_eq!(focus_region_count(WindowType::PomodoroSettings), 3);
    assert_eq!(focus_region_count(WindowType::Settings), 3);
    assert_eq!(focus_region_count(WindowType::Search), 1);
}

#[test]
fn tab_cycles_pomodoro_focus_modulo_three() {
    let mut app = ready_app();
    app.open_window_sized(WindowType::PomodoroSettings, 100, 40);
    let mut seen = Vec::new();
    for _ in 0..3 {
        app.handle_key_event(Key::Tab);
        match &app.active_window.as_ref().unwrap().data {
            WindowData::PomodoroSettings { current_focus, .. } => seen.push(*current_focus),
            _ => panic!("payload changed variant"),
        }
    }
    assert_eq!(seen, vec![1, 2, 0]);
}

#[test]
fn duration_selector_moves_within_its_five_entries() {
    let mut app = ready_app();
    app.open_window_sized(WindowType::PomodoroSettings, 100, 40);
    // The selector starts at 2; two ups reach 0 and stick there.
    for _ in 0..3 {
        app.handle_key_event(Key::Up);
    }
    match &app.active_window.as_ref().unwrap().data {
        WindowData::PomodoroSettings { selected_duration, .. } => {
            assert_eq!(*selected_duration, 0)
        }
        _ => panic!("payload changed variant"),
    }
    for _ in 0..6 {
        app.handle_key_event(Key::Down);
    }
    match &app.active_window.as_ref().unwrap().data {
        WindowData::PomodoroSettings { selected_duration, .. } => {
            assert_eq!(*selected_duration, 4)
        }
        _ => panic!("payload changed variant"),
    }
}

#[test]
fn space_flips_the_focused_settings_toggle() {
    let mut app = ready_app();
    app.open_window_sized(WindowType::Settings, 100, 40);
    app.handle_key_event(Key::Char(' '));
    match &app.active_window.as_ref().unwrap().data {
        WindowData::Settings { play_during_pomodoro, play_on_finish, .. } => {
            assert!(*play_during_pomodoro);
            assert!(!*play_on_finish);
        }
        _ => panic!("payload changed variant"),
    }
    app.handle_key_event(Key::Down);
    app.handle_key_event(Key::Char(' '));
    match &app.active_window.as_ref().unwrap().data {
        WindowData::Settings { play_during_pomodoro, play_on_finish, .. } => {
            assert!(*play_during_pomodoro);
            assert!(*play_on_finish);
        }
        _ => panic!("payload changed variant"),
    }
}

#[test]
fn scenario_two_tasks_j_wraps_selection() {
    let a = TodoTask::new("A".to_string(), String::new());
    let mut b = TodoTask::new("B".to_string(), String::new());
    b.complete();
    assert_eq!(b.status, TaskStatus::Completed);
    let mut app = App::new(vec![a, b]);
    app.show_dashboard = false;
    assert_eq!(app.list_state.selected, Some(0));
    app.handle_key_event(Key::Char('j'));
    assert_eq!(app.list_state.selected, Some(1));
    app.handle_key_event(Key::Char('j'));
    assert_eq!(app.list_state.selected, Some(0));
}

#[test]
fn scenario_create_task_through_the_window() {
    let mut app = ready_app();
    app.handle_key_event(Key::Char('a'));
    assert!(app.active_window.is_some());
    for c in "Buy milk".chars() {
        app.handle_key_event(Key::Char(c));
    }
    app.handle_key_event(Key::Tab);
    for c in "2%".chars() {
        app.handle_key_event(Key::Char(c));
    }
    app.handle_key_event(Key::Enter);
    assert!(app.active_window.is_none());
    assert_eq!(app.tasks.len(), 1);
    assert_eq!(app.tasks[0].title, "Buy milk");
    assert_eq!(app.tasks[0].description, "2%");
    assert_eq!(app.tasks[0].status, TaskStatus::Todo);
}

#[test]
fn first_key_only_dismisses_the_dashboard() {
    let mut app = App::new(Vec::new());
    assert!(app.show_dashboard);
    app.handle_key_event(Key::Char('a'));
    assert!(!app.show_dashboard);
    assert!(app.active_window.is_none());
}

#[test]
fn down_inside_a_text_window_does_not_scroll_the_task_list() {
    let a = TodoTask::new("A".to_string(), String::new());
    let b = TodoTask::new("B".to_string(), String::new());
    let mut app = App::new(vec![a, b]);
    app.show_dashboard = false;
    app.open_window_sized(WindowType::CreateTask, 100, 40);
    app.handle_key_event(Key::Down);
    assert_eq!(app.list_state.selected, Some(0));
    assert!(app.active_window.is_some());
}

#[test]
fn quit_key_sets_the_exit_flag() {
    let mut app = ready_app();
    app.handle_key_event(Key::Char('q'));
    assert!(app.exit);
}

#[test]
fn unconsumed_key_falls_through_to_the_global_table() {
    // A settings panel does not consume 'q', so the key reaches the
    // global table and quits, while the window stays open.
    let mut app = ready_app();
    app.open_window_sized(WindowType::PomodoroSettings, 100, 40);
    app.handle_key_event(Key::Char('q'));
    assert!(app.exit);
    assert!(app.active_window.is_some());
    // Inside a text window 'q' is typed, not obeyed.
    let mut app2 = ready_app();
    app2.open_window_sized(WindowType::CreateTask, 100, 40);
    app2.handle_key_event(Key::Char('q'));
    assert!(!app2.exit);
    assert!(app2.active_window.is_some());
}

#[test]
fn esc_runs_no_global_shortcut_on_the_same_event() {
    let a = TodoTask::new("A".to_string(), String::new());
    let b = TodoTask::new("B".to_string(), String::new());
    let mut app = App::new(vec![a, b]);
    app.show_dashboard = false;
    app.open_window_sized(WindowType::PomodoroSettings, 100, 40);
    app.handle_key_event(Key::Esc);
    assert!(app.active_window.is_none());
    assert!(!app.exit);
    assert_eq!(app.list_state.selected, Some(0));
    assert_eq!(app.music_list_state.selected, None);
}
