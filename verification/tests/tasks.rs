use dwxdy::task::{str_eq, Tag, TaskStatus, TodoTask, SECONDS_PER_DAY};

#[test]
fn a_fresh_task_is_plain_todo() {
    let t = TodoTask::new("write".to_string(), "some docs".to_string());
    assert_eq!(t.title, "write");
    assert_eq!(t.description, "some docs");
    assert_eq!(t.status, TaskStatus::Todo);
    assert!(t.tags.is_empty());
    assert_eq!(t.due_date, None);
    assert_eq!(t.finish_date, None);
}

#[test]
fn status_recomputation_branches() {
    let day = SECONDS_PER_DAY;
    let now = 10 * day + 100;
    let mut t = TodoTask::new("t".to_string(), String::new());
    t.due_date = Some(now - 1);
    t.update_status_at(now);
    assert_eq!(t.status, TaskStatus::Overdue);
    t.due_date = Some(now + 10);
    t.update_status_at(now);
    assert_eq!(t.status, TaskStatus::DueToday);
    t.due_date = Some(now + 2 * day);
    t.update_status_at(now);
    assert_eq!(t.status, TaskStatus::Todo);
    t.due_date = None;
    t.update_status_at(now);
    assert_eq!(t.status, TaskStatus::Todo);
}

#[test]
fn a_due_date_exactly_now_is_due_today_not_overdue() {
    let now = 20 * SECONDS_PER_DAY + 5;
    let mut t = TodoTask::new("t".to_string(), String::new());
    t.due_date = Some(now);
    t.update_status_at(now);
    assert_eq!(t.status, TaskStatus::DueToday);
}

#[test]
fn completion_is_sticky_under_recomputation() {
    let now = 10 * SECONDS_PER_DAY;
    let mut t = TodoTask::new("t".to_string(), String::new());
    t.due_date = Some(now - SECONDS_PER_DAY);
    t.complete();
    t.update_status_at(now);
    assert_eq!(t.status, TaskStatus::Completed);
    t.update_status();
    assert_eq!(t.status, TaskStatus::Completed);
}

#[test]
fn set_due_date_records_the_date() {
    let mut t = TodoTask::new("t".to_string(), String::new());
    t.set_due_date(123456);
    assert_eq!(t.due_date, Some(123456));
}

#[test]
fn tags_are_unique_by_name() {
    let mut t = TodoTask::new("t".to_string(), String::new());
    t.add_tag("home".to_string());
    t.add_tag("urgent".to_string());
    t.add_tag("home".to_string());
    assert_eq!(t.tags.len(), 2);
    assert_eq!(t.tags[0].name(), "home");
    assert_eq!(t.tags[1].name(), "urgent");
}

#[test]
fn removing_a_tag_leaves_the_others() {
    let mut t = TodoTask::new("t".to_string(), String::new());
    t.add_tag("home".to_string());
    t.add_tag("urgent".to_string());
    t.remove_tag("home");
    assert_eq!(t.tags.len(), 1);
    assert_eq!(t.tags[0].name(), "urgent");
    t.remove_tag("missing");
    assert_eq!(t.tags.len(), 1);
}

#[test]
fn tag_keeps_its_name() {
    let tag = Tag::new("focus".to_string());
    assert_eq!(tag.name(), "focus");
}

#[test]
fn status_icons() {
    assert_eq!(TaskStatus::Completed.icon(), "\u{2705}");
    assert_eq!(TaskStatus::Todo.icon(), "\u{1f532}");
    assert_eq!(TaskStatus::Overdue.icon(), "\u{1f534}");
    assert_eq!(TaskStatus::DueToday.icon(), "\u{1f7e1}");
}

#[test]
fn str_eq_compares_by_characters() {
    assert!(str_eq("", ""));
    assert!(str_eq("abc", "abc"));
    assert!(!str_eq("abc", "abd"));
    assert!(!str_eq("abc", "abcd"));
    assert!(str_eq("caf\u{e9}", "caf\u{e9}"));
}
