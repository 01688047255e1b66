//! The task store's data: tasks, their tags and their status.
//!
//! A task's status is derived from its due date, the completion flag and
//! the current time — except that `Completed` is sticky: once a task is
//! completed, recomputation never downgrades it.  Timestamps are whole
//! seconds since the Unix epoch; two timestamps fall on the same day when
//! they agree after division by the length of a day.

use vstd::prelude::*;
use vstd::string::StrSliceExecFns;

verus! {

pub const SECONDS_PER_DAY: u64 = 86400;

/// The status of a task.  Mutually exclusive; derived, not freely set.
#[derive(Clone, Copy, PartialEq, Eq, Structural, Debug)]
pub enum TaskStatus {
    Completed,
    Todo,
    Overdue,
    DueToday,
}

impl TaskStatus {
    /// The icon a renderer shows for this status.
    pub fn icon(&self) -> (r: &'static str)
        ensures
            r == match *self {
                TaskStatus::Completed => "\u{2705}",
                TaskStatus::Todo => "\u{1f532}",
                TaskStatus::Overdue => "\u{1f534}",
                TaskStatus::DueToday => "\u{1f7e1}",
            },
    {
        match self {
            TaskStatus::Completed => "\u{2705}",
            TaskStatus::Todo => "\u{1f532}",
            TaskStatus::Overdue => "\u{1f534}",
            TaskStatus::DueToday => "\u{1f7e1}",
        }
    }
}

/// A tag on a task, identified by its name.
#[derive(PartialEq, Eq, Hash, Debug)]
pub struct Tag {
    name: String,
}

impl Clone for Tag {
    fn clone(&self) -> (r: Self)
        ensures
            r@ == self@,
    {
        Tag { name: self.name.clone() }
    }
}

impl View for Tag {
    type V = Seq<char>;

    closed spec fn view(&self) -> Seq<char> {
        self.name@
    }
}

impl Tag {
    pub fn new(name: String) -> (r: Tag)
        ensures
            r@ == name@,
    {
        Tag { name }
    }

    pub fn name(&self) -> (r: &str)
        ensures
            r@ == self@,
    {
        self.name.as_str()
    }
}

/// Character-for-character equality of two string slices.
pub fn str_eq(a: &str, b: &str) -> (r: bool)
    ensures
        r == (a@ == b@),
{
    let a_len = a.unicode_len();
    let b_len = b.unicode_len();
    if a_len != b_len {
        return false;
    }
    let mut i: usize = 0;
    while i < a_len
        invariant
            i <= a_len,
            a_len == a@.len(),
            a_len == b@.len(),
            forall|k: int| 0 <= k < i ==> a@[k] == b@[k],
        decreases a_len - i,
    {
        if a.get_char(i) != b.get_char(i) {
            return false;
        }
        i = i + 1;
    }
    proof {
        assert(a@ =~= b@);
    }
    true
}

/// No two tags of one task share a name.
pub open spec fn tags_unique(tags: Seq<Tag>) -> bool {
    forall|i: int, j: int| 0 <= i < j < tags.len() ==> tags[i]@ != tags[j]@
}

/// Some tag in `tags` is named `name`.
pub open spec fn has_tag(tags: Seq<Tag>, name: Seq<char>) -> bool {
    exists|i: int| 0 <= i < tags.len() && tags[i]@ == name
}

/// `tags` with every tag named `name` dropped.
pub open spec fn without_tag(tags: Seq<Tag>, name: Seq<char>) -> Seq<Tag> {
    tags.filter(|t: Tag| t@ != name)
}

/// What a task's status must be once recomputed at time `now`: completed
/// tasks stay completed; otherwise a past due date means overdue, a due
/// date on the current day means due today, and anything else — a future
/// due date or none — means plain todo.
pub open spec fn derived_status(status: TaskStatus, due_date: Option<u64>, now: u64) -> TaskStatus {
    if status is Completed {
        TaskStatus::Completed
    } else {
        match due_date {
            Option::None => TaskStatus::Todo,
            Option::Some(due) => if due < now {
                TaskStatus::Overdue
            } else if due / SECONDS_PER_DAY == now / SECONDS_PER_DAY {
                TaskStatus::DueToday
            } else {
                TaskStatus::Todo
            },
        }
    }
}

/// One task: a title, a description, a derived status, a set of tags
/// unique by name, and its timestamps (seconds since the Unix epoch).
#[derive(Clone, Debug)]
pub struct TodoTask {
    pub title: String,
    pub description: String,
    pub status: TaskStatus,
    pub tags: Vec<Tag>,
    pub created_at: u64,
    pub due_date: Option<u64>,
    pub finish_date: Option<u64>,
}

/// Relies on `std::time::SystemTime`: the whole seconds elapsed since
/// the Unix epoch, or 0 on a clock that reads earlier than the epoch.
/// Total: a pre-epoch clock is an `Err`, never a panic.
#[verifier::external_body]
fn now_seconds() -> u64 {
    match std::time::SystemTime::UNIX_EPOCH.elapsed() {
        Ok(elapsed) => elapsed.as_secs(),
        Err(_) => 0,
    }
}

impl TodoTask {
    /// The tag set never holds two tags of the same name.
    pub open spec fn wf(&self) -> bool {
        tags_unique(self.tags@)
    }

    /// A fresh task: plain todo, no tags, no due date, created now.
    pub fn new(title: String, description: String) -> (t: TodoTask)
        ensures
            t.title == title,
            t.description == description,
            t.status is Todo,
            t.tags@.len() == 0,
            t.due_date is None,
            t.finish_date is None,
            t.wf(),
    {
        TodoTask {
            title,
            description,
            status: TaskStatus::Todo,
            tags: Vec::new(),
            created_at: now_seconds(),
            due_date: Option::None,
            finish_date: Option::None,
        }
    }

    /// Add a tag named `tag_name` unless one of that name is already
    /// present.
    pub fn add_tag(&mut self, tag_name: String)
        requires
            old(self).wf(),
        ensures
            final(self).wf(),
            has_tag(old(self).tags@, tag_name@) ==> *final(self) == *old(self),
            !has_tag(old(self).tags@, tag_name@) ==> {
                &&& final(self).tags@.len() == old(self).tags@.len() + 1
                &&& final(self).tags@.subrange(0, old(self).tags@.len() as int) == old(self).tags@
                &&& final(self).tags@.last()@ == tag_name@
                &&& *final(self) == (TodoTask { tags: final(self).tags, ..*old(self) })
            },
    {
        let mut i: usize = 0;
        while i < self.tags.len()
            invariant
                old(self).wf(),
                i <= self.tags.len(),
                forall|k: int| 0 <= k < i ==> self.tags@[k]@ != tag_name@,
                *self == *old(self),
            decreases self.tags.len() - i,
        {
            if str_eq(self.tags[i].name.as_str(), tag_name.as_str()) {
                return ;
            }
            i = i + 1;
        }
        self.tags.push(Tag { name: tag_name });
        proof {
            assert(final(self).tags@.subrange(0, old(self).tags@.len() as int) =~= old(self).tags@);
        }
    }

    /// Remove every tag named `tag_name` (at most one exists on a well
    /// formed task).
    pub fn remove_tag(&mut self, tag_name: &str)
        requires
            old(self).wf(),
        ensures
            final(self).wf(),
            final(self).tags@ == without_tag(old(self).tags@, tag_name@),
            *final(self) == (TodoTask { tags: final(self).tags, ..*old(self) }),
    {
        let ghost orig = old(self).tags@;
        let mut pending: Vec<Tag> = Vec::new();
        core::mem::swap(&mut pending, &mut self.tags);
        let ghost mut done: int = 0;
        let mut kept: Vec<Tag> = Vec::new();
        while pending.len() > 0
            invariant
                0 <= done <= orig.len(),
                pending@ == orig.skip(done),
                kept@ == without_tag(orig.take(done), tag_name@),
                self.tags@.len() == 0,
                *self == (TodoTask { tags: self.tags, ..*old(self) }),
            decreases pending.len(),
        {
            proof {
                reveal(Seq::filter);
                assert(orig.take(done + 1).drop_last() =~= orig.take(done));
                assert(orig.take(done + 1).last() == orig[done]);
                assert(pending@[0] == orig[done]);
            }
            let t = pending.remove(0);
            if !str_eq(t.name.as_str(), tag_name) {
                kept.push(t);
            }
            proof {
                assert(pending@ =~= orig.skip(done + 1));
                done = done + 1;
            }
        }
        proof {
            assert(orig.skip(done).len() == 0);
            assert(done == orig.len());
            assert(orig.take(done) =~= orig);
            lemma_without_tag_unique(orig, tag_name@);
        }
        self.tags = kept;
    }

    /// Mark the task completed.  Completion is sticky: later status
    /// recomputation keeps it.
    pub fn complete(&mut self)
        ensures
            *final(self) == (TodoTask { status: TaskStatus::Completed, ..*old(self) }),
    {
        self.status = TaskStatus::Completed;
    }

    /// Recompute the status against the clock reading `now`.
    pub fn update_status_at(&mut self, now: u64)
        ensures
            *final(self) == (TodoTask {
                status: derived_status(old(self).status, old(self).due_date, now),
                ..*old(self)
            }),
    {
        if let TaskStatus::Completed = self.status {
            return ;
        }
        match self.due_date {
            Option::Some(due) => {
                if due < now {
                    self.status = TaskStatus::Overdue;
                } else if due / SECONDS_PER_DAY == now / SECONDS_PER_DAY {
                    self.status = TaskStatus::DueToday;
                } else {
                    self.status = TaskStatus::Todo;
                }
            },
            Option::None => {
                self.status = TaskStatus::Todo;
            },
        }
    }

    /// Recompute the status against the current clock.  A completed task
    /// stays completed whatever the clock says.
    pub fn update_status(&mut self)
        ensures
            *final(self) == (TodoTask { status: final(self).status, ..*old(self) }),
            exists|now: u64|
                final(self).status == #[trigger] derived_status(
                    old(self).status,
                    old(self).due_date,
                    now,
                ),
            old(self).status is Completed ==> final(self).status is Completed,
    {
        let now = now_seconds();
        self.update_status_at(now);
    }

    /// Set the due date and recompute the status against the current
    /// clock.
    pub fn set_due_date(&mut self, due_date: u64)
        ensures
            final(self).due_date == Option::Some(due_date),
            *final(self) == (TodoTask {
                status: final(self).status,
                due_date: Option::Some(due_date),
                ..*old(self)
            }),
            exists|now: u64|
                final(self).status == #[trigger] derived_status(
                    old(self).status,
                    Option::Some(due_date),
                    now,
                ),
            old(self).status is Completed ==> final(self).status is Completed,
    {
        self.due_date = Option::Some(due_date);
        self.update_status();
    }
}

/// Dropping a name from a duplicate-free tag sequence keeps it
/// duplicate-free, because every kept tag already stood in the input.
proof fn lemma_without_tag_unique(tags: Seq<Tag>, name: Seq<char>)
    requires
        tags_unique(tags),
    ensures
        tags_unique(without_tag(tags, name)),
        forall|k: int|
            0 <= k < without_tag(tags, name).len() ==> tags.contains(
                #[trigger] without_tag(tags, name)[k],
            ),
    decreases tags.len(),
{
    reveal(Seq::filter);
    if tags.len() > 0 {
        let prefix = tags.drop_last();
        assert(tags_unique(prefix)) by {
            assert(forall|i: int, j: int|
                0 <= i < j < prefix.len() ==> prefix[i] == tags[i] && prefix[j] == tags[j]);
        }
        lemma_without_tag_unique(prefix, name);
        let rest = without_tag(prefix, name);
        let whole = without_tag(tags, name);
        assert(forall|k: int| 0 <= k < rest.len() ==> prefix.contains(#[trigger] rest[k]));
        assert forall|k: int| 0 <= k < rest.len() implies tags.contains(#[trigger] rest[k]) by {
            let m = choose|m: int| 0 <= m < prefix.len() && prefix[m] == rest[k];
            assert(tags[m] == rest[k]);
        }
        if tags.last()@ != name {
            assert(whole == rest.push(tags.last()));
            assert(tags.contains(tags.last())) by {
                assert(tags[tags.len() - 1] == tags.last());
            }
            assert forall|i: int, j: int| 0 <= i < j < whole.len() implies whole[i]@ != whole[j]@ by {
                if j == whole.len() - 1 {
                    assert(whole[j] == tags.last());
                    assert(whole[i] == rest[i]);
                    assert(prefix.contains(rest[i]));
                    let m = choose|m: int| 0 <= m < prefix.len() && prefix[m] == rest[i];
                    assert(tags[m] == whole[i]);
                    assert(tags[m]@ != tags[tags.len() - 1]@);
                } else {
                    assert(whole[i] == rest[i] && whole[j] == rest[j]);
                }
            }
            assert forall|k: int| 0 <= k < whole.len() implies tags.contains(#[trigger] whole[k]) by {
                if k < whole.len() - 1 {
                    assert(whole[k] == rest[k]);
                } else {
                    assert(whole[k] == tags.last());
                }
            }
        } else {
            assert(whole == rest);
        }
    }
}

} // verus!
