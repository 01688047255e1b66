use dwxdy::app::App;
use dwxdy::keys::Key;
use dwxdy::textfield;
use dwxdy::window::WindowData;

fn chars(s: &str) -> Vec<char> {
    s.chars().collect()
}

#[test]
fn insert_advances_cursor() {
    let mut buf = chars("ac");
    let mut cursor = 1usize;
    textfield::insert_char(&mut buf, &mut cursor, 'b');
    assert_eq!(buf, chars("abc"));
    assert_eq!(cursor, 2);
}

#[test]
fn backspace_removes_before_cursor() {
    let mut buf = chars("abc");
    let mut cursor = 2usize;
    textfield::backspace_char(&mut buf, &mut cursor);
    assert_eq!(buf, chars("ac"));
    assert_eq!(cursor, 1);
}

#[test]
fn backspace_at_start_is_a_noop() {
    let mut buf = chars("abc");
    let mut cursor = 0usize;
    textfield::backspace_char(&mut buf, &mut cursor);
    assert_eq!(buf, chars("abc"));
    assert_eq!(cursor, 0);
}

#[test]
fn delete_removes_at_cursor_without_moving() {
    let mut buf = chars("abc");
    let mut cursor = 1usize;
    textfield::delete_char(&mut buf, &mut cursor);
    assert_eq!(buf, chars("ac"));
    assert_eq!(cursor, 1);
}

#[test]
fn delete_at_end_is_a_noop() {
    let mut buf = chars("abc");
    let mut cursor = 3usize;
    textfield::delete_char(&mut buf, &mut cursor);
    assert_eq!(buf, chars("abc"));
    assert_eq!(cursor, 3);
}

#[test]
fn cursor_movement_clamps_to_buffer() {
    let buf = chars("ab");
    let mut cursor = 0usize;
    textfield::move_cursor_left(&mut cursor);
    assert_eq!(cursor, 0);
    textfield::move_cursor_right(&buf, &mut cursor);
    assert_eq!(cursor, 1);
    textfield::move_cursor_right(&buf, &mut cursor);
    assert_eq!(cursor, 2);
    textfield::move_cursor_right(&buf, &mut cursor);
    assert_eq!(cursor, 2);
    textfield::move_cursor_home(&mut cursor);
    assert_eq!(cursor, 0);
    textfield::move_cursor_end(&buf, &mut cursor);
    assert_eq!(cursor, 2);
}

#[test]
fn cursor_stays_in_bounds_over_many_operations() {
    let mut buf = chars("hello");
    let mut cursor = 5usize;
    textfield::insert_char(&mut buf, &mut cursor, '!');
    assert!(cursor <= buf.len());
    textfield::move_cursor_left(&mut cursor);
    assert!(cursor <= buf.len());
    textfield::backspace_char(&mut buf, &mut cursor);
    assert!(cursor <= buf.len());
    textfield::delete_char(&mut buf, &mut cursor);
    assert!(cursor <= buf.len());
    textfield::move_cursor_end(&buf, &mut cursor);
    assert!(cursor <= buf.len());
}

#[test]
fn tab_switches_field_and_puts_cursor_at_end_of_new_field() {
    let mut app = App::new(Vec::new());
    // Title holds "hi" with the cursor at its start; description holds
    // "world".  Switching must land the cursor at the end of "world",
    // not at 0 and not where it was.
    let (data, handled) = app.dispatch_create_task(chars("hi"), chars("world"), 0, 0, Key::Tab);
    assert!(handled);
    match data {
        WindowData::CreateTask { current_field, cursor_position, .. } => {
            assert_eq!(current_field, 1);
            assert_eq!(cursor_position, 5);
        }
        _ => panic!("payload changed variant"),
    }
}

#[test]
fn tab_back_to_title_puts_cursor_at_title_end() {
    let mut app = App::new(Vec::new());
    let (data, _) = app.dispatch_create_task(chars("hi"), chars("world"), 1, 2, Key::Tab);
    match data {
        WindowData::CreateTask { current_field, cursor_position, .. } => {
            assert_eq!(current_field, 0);
            assert_eq!(cursor_position, 2);
        }
        _ => panic!("payload changed variant"),
    }
}

#[test]
fn typing_inserts_into_the_active_field() {
    let mut app = App::new(Vec::new());
    let (data, handled) = app.dispatch_create_task(chars("ab"), chars(""), 0, 1, Key::Char('x'));
    assert!(handled);
    match data {
        WindowData::CreateTask { title, cursor_position, .. } => {
            assert_eq!(title, chars("axb"));
            assert_eq!(cursor_position, 2);
        }
        _ => panic!("payload changed variant"),
    }
}
