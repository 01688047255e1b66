use dwxdy::navigator::ListNav;

#[test]
fn fresh_navigator_has_no_selection() {
    let nav = ListNav::new();
    assert_eq!(nav.selected, None);
    assert_eq!(nav.scroll_position, 0);
}

#[test]
fn next_wraps_from_last_to_first() {
    let mut nav = ListNav { selected: Some(2), scroll_position: 2 };
    nav.next(3);
    assert_eq!(nav.selected, Some(0));
    assert_eq!(nav.scroll_position, 0);
}

#[test]
fn previous_wraps_from_first_to_last() {
    let mut nav = ListNav { selected: Some(0), scroll_position: 0 };
    nav.previous(3);
    assert_eq!(nav.selected, Some(2));
    assert_eq!(nav.scroll_position, 2);
}

#[test]
fn navigation_on_empty_list_is_a_noop() {
    let mut nav = ListNav::new();
    nav.next(0);
    assert_eq!(nav.selected, None);
    nav.previous(0);
    assert_eq!(nav.selected, None);
}

#[test]
fn unset_selection_lands_on_first_entry() {
    let mut nav = ListNav::new();
    nav.next(4);
    assert_eq!(nav.selected, Some(0));
    let mut nav2 = ListNav::new();
    nav2.previous(4);
    assert_eq!(nav2.selected, Some(0));
}

#[test]
fn scrollbar_equals_selection_after_every_step() {
    let mut nav = ListNav::new();
    for _ in 0..10 {
        nav.next(7);
        assert_eq!(nav.scroll_position, nav.selected.unwrap());
    }
    for _ in 0..10 {
        nav.previous(7);
        assert_eq!(nav.scroll_position, nav.selected.unwrap());
    }
}

#[test]
fn selection_stays_in_bounds_over_any_sequence() {
    let mut nav = ListNav::new();
    let len = 5;
    let steps = [true, true, false, true, false, false, true, true, true, false];
    for forward in steps {
        if forward {
            nav.next(len);
        } else {
            nav.previous(len);
        }
        let sel = nav.selected.unwrap();
        assert!(sel < len);
    }
}
