use dwxdy::mode::{AppMode, ModeManager};

#[test]
fn mode_names() {
    assert_eq!(AppMode::Normal.name(), "NORMAL");
    assert_eq!(AppMode::Insert.name(), "INSERT");
    assert_eq!(AppMode::Visual.name(), "VISUAL");
    assert_eq!(AppMode::Command.name(), "COMMAND");
    assert_eq!(AppMode::Search.name(), "SEARCH");
}

#[test]
fn editing_permissions_per_mode() {
    assert!(AppMode::Normal.can_move_cursor());
    assert!(AppMode::Visual.can_move_cursor());
    assert!(!AppMode::Insert.can_move_cursor());
    assert!(AppMode::Insert.can_insert());
    assert!(AppMode::Search.can_insert());
    assert!(AppMode::Command.can_insert());
    assert!(!AppMode::Normal.can_insert());
    assert!(AppMode::Insert.can_delete());
    assert!(!AppMode::Visual.can_delete());
}

#[test]
fn manager_starts_in_normal_mode() {
    let m = ModeManager::new();
    assert_eq!(m.current(), AppMode::Normal);
    assert!(m.is(AppMode::Normal));
}

#[test]
fn switch_and_back_swap_modes() {
    let mut m = ModeManager::new();
    m.switch_to(AppMode::Insert);
    assert_eq!(m.current(), AppMode::Insert);
    m.back();
    assert_eq!(m.current(), AppMode::Normal);
    m.back();
    assert_eq!(m.current(), AppMode::Insert);
}

#[test]
fn push_and_pop_nest_modes() {
    let mut m = ModeManager::new();
    m.push_mode(AppMode::Visual);
    m.push_mode(AppMode::Command);
    assert_eq!(m.current(), AppMode::Command);
    m.pop_mode();
    assert_eq!(m.current(), AppMode::Visual);
    m.pop_mode();
    assert_eq!(m.current(), AppMode::Normal);
    m.pop_mode();
    assert_eq!(m.current(), AppMode::Normal);
}

#[test]
fn is_any_checks_membership() {
    let mut m = ModeManager::new();
    assert!(m.is_any(&[AppMode::Normal, AppMode::Insert]));
    assert!(!m.is_any(&[AppMode::Visual, AppMode::Command]));
    assert!(!m.is_any(&[]));
    m.switch_to(AppMode::Search);
    assert!(m.is_any(&[AppMode::Visual, AppMode::Search]));
}

#[test]
fn hint_tables_have_the_expected_sizes() {
    assert_eq!(AppMode::Normal.key_hints().len(), 9);
    assert_eq!(AppMode::Insert.key_hints().len(), 2);
    assert_eq!(AppMode::Visual.key_hints().len(), 4);
    assert_eq!(AppMode::Command.key_hints().len(), 2);
    assert_eq!(AppMode::Search.key_hints().len(), 4);
}

#[test]
fn hints_are_rendered_as_key_colon_description() {
    let m = ModeManager::new();
    let hints = m.get_hints();
    assert_eq!(hints.len(), 9);
    assert_eq!(hints[0], "j/k:move down/up");
    assert_eq!(hints[8], "q:quit");
}

#[test]
fn default_manager_equals_a_new_one() {
    let d = ModeManager::default();
    assert_eq!(d.current(), AppMode::Normal);
}
