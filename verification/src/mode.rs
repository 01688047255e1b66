//! Editor-style input modes and the mode manager.
//!
//! A mode decides which classes of editing are available (cursor motion,
//! insertion, deletion) and which key hints a renderer shows.  The
//! manager remembers the current mode, the mode it came from, and a
//! stack of modes for nested sub-modes.

use vstd::prelude::*;
use vstd::string::StringExecFns;

verus! {

/// The application's input modes.
#[derive(Clone, Copy, PartialEq, Eq, Structural, Debug)]
pub enum AppMode {
    Normal,
    Insert,
    Visual,
    Command,
    Search,
}

/// The hint table of a mode: key, then what it does.
pub open spec fn key_hints_spec(mode: AppMode) -> Seq<(&'static str, &'static str)> {
    match mode {
        AppMode::Normal => seq![
            ("j/k", "move down/up"),
            ("a", "new task"),
            ("p", "pomodoro"),
            ("o", "settings"),
            ("s", "search"),
            ("i", "insert mode"),
            ("v", "visual mode"),
            (":", "command mode"),
            ("q", "quit"),
        ],
        AppMode::Insert => seq![("Esc", "back to normal"), ("Enter", "confirm")],
        AppMode::Visual => seq![
            ("j/k", "extend selection"),
            ("x", "delete selection"),
            ("y", "yank selection"),
            ("Esc", "back to normal"),
        ],
        AppMode::Command => seq![("Enter", "run command"), ("Esc", "cancel")],
        AppMode::Search => seq![
            ("n", "next match"),
            ("N", "previous match"),
            ("Enter", "confirm"),
            ("Esc", "cancel"),
        ],
    }
}

impl AppMode {
    /// The mode's display name.
    pub fn name(&self) -> (r: &'static str)
        ensures
            r == match *self {
                AppMode::Normal => "NORMAL",
                AppMode::Insert => "INSERT",
                AppMode::Visual => "VISUAL",
                AppMode::Command => "COMMAND",
                AppMode::Search => "SEARCH",
            },
    {
        match self {
            AppMode::Normal => "NORMAL",
            AppMode::Insert => "INSERT",
            AppMode::Visual => "VISUAL",
            AppMode::Command => "COMMAND",
            AppMode::Search => "SEARCH",
        }
    }

    /// Whether the selection cursor may be moved in this mode.
    pub fn can_move_cursor(&self) -> (r: bool)
        ensures
            r == (*self is Normal || *self is Visual),
    {
        matches!(self, AppMode::Normal | AppMode::Visual)
    }

    /// Whether text may be typed in this mode.
    pub fn can_insert(&self) -> (r: bool)
        ensures
            r == (*self is Insert || *self is Search || *self is Command),
    {
        matches!(self, AppMode::Insert | AppMode::Search | AppMode::Command)
    }

    /// Whether text may be deleted in this mode.
    pub fn can_delete(&self) -> (r: bool)
        ensures
            r == (*self is Insert || *self is Command || *self is Search),
    {
        matches!(self, AppMode::Insert | AppMode::Command | AppMode::Search)
    }

    /// The key hints a renderer shows for this mode.
    pub fn key_hints(&self) -> (r: Vec<(&'static str, &'static str)>)
        ensures
            r@ == key_hints_spec(*self),
    {
        match self {
            AppMode::Normal => vec![
                ("j/k", "move down/up"),
                ("a", "new task"),
                ("p", "pomodoro"),
                ("o", "settings"),
                ("s", "search"),
                ("i", "insert mode"),
                ("v", "visual mode"),
                (":", "command mode"),
                ("q", "quit"),
            ],
            AppMode::Insert => vec![("Esc", "back to normal"), ("Enter", "confirm")],
            AppMode::Visual => vec![
                ("j/k", "extend selection"),
                ("x", "delete selection"),
                ("y", "yank selection"),
                ("Esc", "back to normal"),
            ],
            AppMode::Command => vec![("Enter", "run command"), ("Esc", "cancel")],
            AppMode::Search => vec![
                ("n", "next match"),
                ("N", "previous match"),
                ("Enter", "confirm"),
                ("Esc", "cancel"),
            ],
        }
    }
}

/// Tracks the current mode, the one it came from, and a stack of entered
/// sub-modes.
#[derive(Clone, Debug)]
pub struct ModeManager {
    current_mode: AppMode,
    previous_mode: AppMode,
    mode_stack: Vec<AppMode>,
}

impl ModeManager {
    /// The mode currently in force.
    pub closed spec fn current_spec(&self) -> AppMode {
        self.current_mode
    }

    /// The mode `back` returns to.
    pub closed spec fn previous_spec(&self) -> AppMode {
        self.previous_mode
    }

    /// The stack of modes entered with `push_mode` and not yet popped.
    pub closed spec fn stack_spec(&self) -> Seq<AppMode> {
        self.mode_stack@
    }

    /// A fresh manager, starting in normal mode.
    pub fn new() -> (r: ModeManager)
        ensures
            r.current_spec() is Normal,
            r.previous_spec() is Normal,
            r.stack_spec() == Seq::<AppMode>::empty(),
    {
        ModeManager {
            current_mode: AppMode::Normal,
            previous_mode: AppMode::Normal,
            mode_stack: Vec::new(),
        }
    }

    /// The mode currently in force.
    pub fn current(&self) -> (r: AppMode)
        ensures
            r == self.current_spec(),
    {
        self.current_mode
    }

    /// Enter `mode`, remembering where we came from.
    pub fn switch_to(&mut self, mode: AppMode)
        ensures
            final(self).current_spec() == mode,
            final(self).previous_spec() == old(self).current_spec(),
            final(self).stack_spec() == old(self).stack_spec(),
    {
        self.previous_mode = self.current_mode;
        self.current_mode = mode;
    }

    /// Swap back to the mode `switch_to` came from.
    pub fn back(&mut self)
        ensures
            final(self).current_spec() == old(self).previous_spec(),
            final(self).previous_spec() == old(self).current_spec(),
            final(self).stack_spec() == old(self).stack_spec(),
    {
        let c = self.current_mode;
        self.current_mode = self.previous_mode;
        self.previous_mode = c;
    }

    /// Enter a sub-mode, stacking the current one.
    pub fn push_mode(&mut self, mode: AppMode)
        ensures
            final(self).current_spec() == mode,
            final(self).previous_spec() == old(self).previous_spec(),
            final(self).stack_spec() == old(self).stack_spec().push(old(self).current_spec()),
    {
        self.mode_stack.push(self.current_mode);
        self.current_mode = mode;
    }

    /// Leave a sub-mode, returning to the stacked parent; with nothing
    /// stacked, nothing changes.
    pub fn pop_mode(&mut self)
        ensures
            old(self).stack_spec().len() == 0 ==> {
                &&& final(self).current_spec() == old(self).current_spec()
                &&& final(self).previous_spec() == old(self).previous_spec()
                &&& final(self).stack_spec() == old(self).stack_spec()
            },
            old(self).stack_spec().len() > 0 ==> {
                &&& final(self).current_spec() == old(self).stack_spec().last()
                &&& final(self).previous_spec() == old(self).previous_spec()
                &&& final(self).stack_spec() == old(self).stack_spec().drop_last()
            },
    {
        if let Option::Some(previous) = self.mode_stack.pop() {
            self.current_mode = previous;
        }
    }

    /// Whether `mode` is the mode currently in force.
    pub fn is(&self, mode: AppMode) -> (r: bool)
        ensures
            r == (self.current_spec() == mode),
    {
        self.current_mode == mode
    }

    /// Whether the mode currently in force is one of `modes`.
    pub fn is_any(&self, modes: &[AppMode]) -> (r: bool)
        ensures
            r == modes@.contains(self.current_spec()),
    {
        let mut i: usize = 0;
        while i < modes.len()
            invariant
                i <= modes@.len(),
                forall|k: int| 0 <= k < i ==> modes@[k] != self.current_spec(),
        decreases modes@.len() - i,
        {
            if modes[i] == self.current_mode {
                return true;
            }
            i = i + 1;
        }
        false
    }

    /// The hint lines a renderer shows for the current mode, each as
    /// `key:description`.
    pub fn get_hints(&self) -> (r: Vec<String>)
        ensures
            r@.len() == key_hints_spec(self.current_spec()).len(),
            forall|i: int|
                0 <= i < r@.len() ==> r@[i]@ == key_hints_spec(self.current_spec())[i].0@
                    + seq![':'] + key_hints_spec(self.current_spec())[i].1@,
    {
        let hints = self.current_mode.key_hints();
        let ghost table = key_hints_spec(self.current_spec());
        let mut out: Vec<String> = Vec::new();
        let mut i: usize = 0;
        while i < hints.len()
            invariant
                i <= hints@.len(),
                hints@ == table,
                out@.len() == i,
                forall|k: int|
                    0 <= k < i ==> out@[k]@ == table[k].0@ + seq![':'] + table[k].1@,
            decreases hints@.len() - i,
        {
            let (key, desc) = hints[i];
            let line = String::from_str(key).concat(":").concat(desc);
            proof {
                reveal_strlit(":");
                assert(":"@ =~= seq![':']);
            }
            out.push(line);
            i = i + 1;
        }
        out
    }
}

impl Default for ModeManager {
    /// Same as `new`: normal mode, nothing stacked.
    fn default() -> (r: ModeManager)
        ensures
            r.current_spec() is Normal,
            r.previous_spec() is Normal,
            r.stack_spec() == Seq::<AppMode>::empty(),
    {
        ModeManager::new()
    }
}

} // verus!
