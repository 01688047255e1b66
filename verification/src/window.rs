//! Modal overlay windows: kinds, payloads, layout and closing policy.
//!
//! At most one window is open at a time.  A window carries a kind, a
//! layout rectangle computed once when it is opened, a typed payload and
//! a visibility flag.  The closing policy is decided per kind and per
//! key: Esc always closes; Enter closes only the kinds whose semantics
//! are a single commit (task creation, search), never a live settings
//! panel.

use vstd::arithmetic::div_mod::{lemma_div_is_ordered, lemma_div_multiples_vanish};
use vstd::prelude::*;

verus! {

/// The kinds of modal window the application can open.
#[derive(Clone, Copy, PartialEq, Eq, Structural, Debug)]
pub enum WindowType {
    CreateTask,
    PomodoroSettings,
    Settings,
    Search,
}

/// Position and size of a window on the terminal, in cells.
#[derive(Clone, Copy, PartialEq, Eq, Structural, Debug)]
pub struct WindowLayout {
    pub x: u16,
    pub y: u16,
    pub width: u16,
    pub height: u16,
}

/// The per-kind payload of a window: exactly one variant is active while
/// the window lives.
#[derive(Clone, Debug)]
pub enum WindowData {
    CreateTask {
        title: Vec<char>,
        description: Vec<char>,
        /// 0 while the title field is active, 1 for the description.
        current_field: usize,
        /// Cursor of the active field, in `[0, len]` of that field.
        cursor_position: usize,
    },
    PomodoroSettings {
        /// Which of the five preset durations is highlighted (0 to 4).
        selected_duration: usize,
        custom_duration: Vec<char>,
        /// 0: preset list, 1: custom duration, 2: music list.
        current_focus: usize,
    },
    Settings {
        play_during_pomodoro: bool,
        play_on_finish: bool,
        /// 0 and 1: the two toggles, 2: the music list.
        current_focus: usize,
    },
    Search {
        query: Vec<char>,
    },
    Empty,
}

/// The one active modal window, if any.
#[derive(Clone, Debug)]
pub struct ActiveWindow {
    pub window_type: WindowType,
    pub layout: WindowLayout,
    pub data: WindowData,
    pub is_visible: bool,
}

/// How many focusable regions a payload of the given kind has; Tab cycles
/// the focus index modulo this count.
pub open spec fn focus_region_count_spec(kind: WindowType) -> usize {
    match kind {
        WindowType::CreateTask => 2,
        WindowType::PomodoroSettings => 3,
        WindowType::Settings => 3,
        WindowType::Search => 1,
    }
}

/// How many focusable regions a window of kind `kind` has.
pub fn focus_region_count(kind: WindowType) -> (n: usize)
    ensures
        n == focus_region_count_spec(kind),
        n >= 1,
{
    match kind {
        WindowType::CreateTask => 2,
        WindowType::PomodoroSettings => 3,
        WindowType::Settings => 3,
        WindowType::Search => 1,
    }
}

/// A payload is well formed when every focus index is inside its fixed
/// range and every text cursor is inside its field.
pub open spec fn data_wf(data: WindowData) -> bool {
    match data {
        WindowData::CreateTask { title, description, current_field, cursor_position } => {
            &&& current_field < 2
            &&& cursor_position <= if current_field == 0 {
                title@.len()
            } else {
                description@.len()
            }
        },
        WindowData::PomodoroSettings { selected_duration, custom_duration: _, current_focus } => {
            selected_duration <= 4 && current_focus < 3
        },
        WindowData::Settings { play_during_pomodoro: _, play_on_finish: _, current_focus } => {
            current_focus < 3
        },
        WindowData::Search { query: _ } => true,
        WindowData::Empty => true,
    }
}

/// Two payloads are of the same variant.
pub open spec fn same_payload_variant(a: WindowData, b: WindowData) -> bool {
    &&& (a is CreateTask <==> b is CreateTask)
    &&& (a is PomodoroSettings <==> b is PomodoroSettings)
    &&& (a is Settings <==> b is Settings)
    &&& (a is Search <==> b is Search)
    &&& (a is Empty <==> b is Empty)
}

/// The payload variant that belongs to a window kind.
pub open spec fn data_matches_kind(kind: WindowType, data: WindowData) -> bool {
    match kind {
        WindowType::CreateTask => data is CreateTask,
        WindowType::PomodoroSettings => data is PomodoroSettings,
        WindowType::Settings => data is Settings,
        WindowType::Search => data is Search,
    }
}

/// The payload a freshly opened window of kind `kind` starts with: empty
/// text fields, the default preset duration, both toggles off, focus on
/// the first region.
pub open spec fn is_default_data(kind: WindowType, data: WindowData) -> bool {
    match kind {
        WindowType::CreateTask => {
            &&& data matches WindowData::CreateTask {
                title,
                description,
                current_field,
                cursor_position,
            }
            &&& title@ == Seq::<char>::empty()
            &&& description@ == Seq::<char>::empty()
            &&& current_field == 0
            &&& cursor_position == 0
        },
        WindowType::PomodoroSettings => {
            &&& data matches WindowData::PomodoroSettings {
                selected_duration,
                custom_duration,
                current_focus,
            }
            &&& selected_duration == 2
            &&& custom_duration@ == Seq::<char>::empty()
            &&& current_focus == 0
        },
        WindowType::Settings => {
            &&& data matches WindowData::Settings {
                play_during_pomodoro,
                play_on_finish,
                current_focus,
            }
            &&& play_during_pomodoro == false
            &&& play_on_finish == false
            &&& current_focus == 0
        },
        WindowType::Search => {
            &&& data matches WindowData::Search { query }
            &&& query@ == Seq::<char>::empty()
        },
    }
}

/// Build the payload a freshly opened window of kind `kind` starts with:
/// empty text fields, the default preset duration, focus on the first
/// region.
pub fn default_data(kind: WindowType) -> (data: WindowData)
    ensures
        is_default_data(kind, data),
        data_wf(data),
        data_matches_kind(kind, data),
{
    match kind {
        WindowType::CreateTask => WindowData::CreateTask {
            title: Vec::new(),
            description: Vec::new(),
            current_field: 0,
            cursor_position: 0,
        },
        WindowType::PomodoroSettings => WindowData::PomodoroSettings {
            selected_duration: 2,
            custom_duration: Vec::new(),
            current_focus: 0,
        },
        WindowType::Settings => WindowData::Settings {
            play_during_pomodoro: false,
            play_on_finish: false,
            current_focus: 0,
        },
        WindowType::Search => WindowData::Search { query: Vec::new() },
    }
}

/// Whether a key press closes a window of the given kind.  The decision
/// uses only the kind and the raw key, never the payload: Esc always
/// closes; Enter closes the single-commit kinds (task creation, search)
/// and never a settings panel.
pub open spec fn closes_on(kind: WindowType, key: crate::keys::Key) -> bool {
    match key {
        crate::keys::Key::Esc => true,
        crate::keys::Key::Enter => kind is CreateTask || kind is Search,
        _ => false,
    }
}

/// Decide whether the window of kind `kind` is discarded after `key` was
/// dispatched to it.
pub fn should_close(kind: WindowType, key: crate::keys::Key) -> (r: bool)
    ensures
        r == closes_on(kind, key),
{
    match key {
        crate::keys::Key::Esc => true,
        crate::keys::Key::Enter => match kind {
            WindowType::CreateTask => true,
            WindowType::Search => true,
            WindowType::PomodoroSettings => false,
            WindowType::Settings => false,
        },
        _ => false,
    }
}

/// The fraction of the terminal width a window of this kind occupies, in
/// percent.
pub open spec fn width_percent(kind: WindowType) -> int {
    match kind {
        WindowType::CreateTask => 70,
        WindowType::PomodoroSettings => 80,
        WindowType::Settings => 75,
        WindowType::Search => 70,
    }
}

/// The fraction of the terminal height a window of this kind occupies, in
/// percent.
pub open spec fn height_percent(kind: WindowType) -> int {
    match kind {
        WindowType::CreateTask => 80,
        WindowType::PomodoroSettings => 85,
        WindowType::Settings => 90,
        WindowType::Search => 70,
    }
}

/// The rectangle a window of kind `kind` occupies on a `tw` by `th`
/// terminal: a fixed percentage of each dimension, centered horizontally;
/// vertically centered, except that the task-creation window sits a
/// little above the middle.
pub open spec fn layout_for(kind: WindowType, tw: u16, th: u16) -> WindowLayout {
    let w = tw * width_percent(kind) / 100;
    let h = th * height_percent(kind) / 100;
    let x = (tw - w) / 2;
    let y = if kind is CreateTask {
        (th - h) / 3
    } else {
        (th - h) / 2
    };
    WindowLayout { x: x as u16, y: y as u16, width: w as u16, height: h as u16 }
}

/// `v * p / 100` stays at or below `v` for percentages up to 100.
proof fn lemma_percent_at_most(v: int, p: int)
    requires
        0 <= v,
        0 <= p <= 100,
    ensures
        0 <= v * p / 100 <= v,
{
    assert(v * p <= v * 100 && 0 <= v * p) by (nonlinear_arith)
        requires
            0 <= v && 0 <= p <= 100,
    ;
    lemma_div_is_ordered(v * p, v * 100, 100);
    lemma_div_multiples_vanish(v, 100);
}

impl WindowLayout {
    /// Compute the layout of a window of kind `kind` on a terminal of
    /// `tw` columns and `th` rows.
    pub fn for_kind(kind: WindowType, tw: u16, th: u16) -> (r: WindowLayout)
        ensures
            r == layout_for(kind, tw, th),
            r.width <= tw,
            r.height <= th,
    {
        let wp: u32 = match kind {
            WindowType::CreateTask => 70,
            WindowType::PomodoroSettings => 80,
            WindowType::Settings => 75,
            WindowType::Search => 70,
        };
        let hp: u32 = match kind {
            WindowType::CreateTask => 80,
            WindowType::PomodoroSettings => 85,
            WindowType::Settings => 90,
            WindowType::Search => 70,
        };
        proof {
            lemma_percent_at_most(tw as int, wp as int);
            lemma_percent_at_most(th as int, hp as int);
        }
        let width = ((tw as u32) * wp / 100) as u16;
        let height = ((th as u32) * hp / 100) as u16;
        let x = (tw - width) / 2;
        let y = match kind {
            WindowType::CreateTask => (th - height) / 3,
            _ => (th - height) / 2,
        };
        WindowLayout { x, y, width, height }
    }
}

/// The task-creation payload, with its text buffers abstracted to
/// character sequences.
pub struct CreateTaskView {
    pub title: Seq<char>,
    pub description: Seq<char>,
    pub current_field: usize,
    pub cursor_position: usize,
}

/// The abstract value of a task-creation payload.
pub open spec fn ct_view(data: WindowData) -> CreateTaskView
    recommends
        data is CreateTask,
{
    match data {
        WindowData::CreateTask { title, description, current_field, cursor_position } => {
            CreateTaskView { title: title@, description: description@, current_field, cursor_position }
        },
        _ => arbitrary(),
    }
}

/// The length of the field the cursor currently edits.
pub open spec fn ct_active_len(v: CreateTaskView) -> nat {
    if v.current_field == 0 {
        v.title.len()
    } else {
        v.description.len()
    }
}

/// Which keys a task-creation payload consumes: everything except list
/// navigation and unknown keys.
pub open spec fn ct_consumes(key: crate::keys::Key) -> bool {
    !(key is Up || key is Down || key is Other)
}

/// How one key edits a task-creation payload.  Tab switches the active
/// field and puts the cursor at the end of its text; the cursor keys,
/// insertion and the two deletions follow the text-field rules on the
/// active field; every other key leaves the payload as it is.
pub open spec fn ct_step(v: CreateTaskView, key: crate::keys::Key) -> CreateTaskView {
    match key {
        crate::keys::Key::Tab => {
            let f2: usize = if v.current_field == 0 {
                1
            } else {
                0
            };
            let end: usize = if f2 == 0 {
                v.title.len() as usize
            } else {
                v.description.len() as usize
            };
            CreateTaskView { current_field: f2, cursor_position: end, ..v }
        },
        crate::keys::Key::Left => CreateTaskView {
            cursor_position: if v.cursor_position > 0 {
                (v.cursor_position - 1) as usize
            } else {
                0
            },
            ..v
        },
        crate::keys::Key::Right => CreateTaskView {
            cursor_position: if v.cursor_position < ct_active_len(v) {
                (v.cursor_position + 1) as usize
            } else {
                v.cursor_position
            },
            ..v
        },
        crate::keys::Key::Home => CreateTaskView { cursor_position: 0, ..v },
        crate::keys::Key::End => CreateTaskView {
            cursor_position: ct_active_len(v) as usize,
            ..v
        },
        crate::keys::Key::Char(c) => {
            if v.current_field == 0 {
                CreateTaskView {
                    title: v.title.insert(v.cursor_position as int, c),
                    cursor_position: (v.cursor_position + 1) as usize,
                    ..v
                }
            } else {
                CreateTaskView {
                    description: v.description.insert(v.cursor_position as int, c),
                    cursor_position: (v.cursor_position + 1) as usize,
                    ..v
                }
            }
        },
        crate::keys::Key::Backspace => {
            if v.cursor_position > 0 {
                if v.current_field == 0 {
                    CreateTaskView {
                        title: v.title.remove(v.cursor_position - 1),
                        cursor_position: (v.cursor_position - 1) as usize,
                        ..v
                    }
                } else {
                    CreateTaskView {
                        description: v.description.remove(v.cursor_position - 1),
                        cursor_position: (v.cursor_position - 1) as usize,
                        ..v
                    }
                }
            } else {
                v
            }
        },
        crate::keys::Key::Delete => {
            if v.cursor_position < ct_active_len(v) {
                if v.current_field == 0 {
                    CreateTaskView { title: v.title.remove(v.cursor_position as int), ..v }
                } else {
                    CreateTaskView {
                        description: v.description.remove(v.cursor_position as int),
                        ..v
                    }
                }
            } else {
                v
            }
        },
        _ => v,
    }
}

/// Switching the active field with Tab always puts the cursor at the
/// end of the newly active field's text, wherever the cursor stood in
/// the field left behind.
pub proof fn lemma_tab_resets_cursor(v: CreateTaskView)
    requires
        v.title.len() <= usize::MAX,
        v.description.len() <= usize::MAX,
    ensures
        ct_step(v, crate::keys::Key::Tab).current_field != v.current_field,
        ct_step(v, crate::keys::Key::Tab).cursor_position == ct_active_len(
            ct_step(v, crate::keys::Key::Tab),
        ),
{
}

/// Esc closes a window of every kind.
pub proof fn lemma_esc_always_closes(kind: WindowType)
    ensures
        closes_on(kind, crate::keys::Key::Esc),
{
}

/// Enter closes exactly the single-commit kinds — task creation and
/// search — and never a settings panel.
pub proof fn lemma_enter_close_policy(kind: WindowType)
    ensures
        closes_on(kind, crate::keys::Key::Enter) <==> (kind is CreateTask || kind is Search),
{
}

/// The pomodoro-settings payload, with its text buffer abstracted.
pub struct PomodoroView {
    pub selected_duration: usize,
    pub custom_duration: Seq<char>,
    pub current_focus: usize,
}

/// The abstract value of a pomodoro-settings payload.
pub open spec fn pom_view(data: WindowData) -> PomodoroView
    recommends
        data is PomodoroSettings,
{
    match data {
        WindowData::PomodoroSettings { selected_duration, custom_duration, current_focus } => {
            PomodoroView { selected_duration, custom_duration: custom_duration@, current_focus }
        },
        _ => arbitrary(),
    }
}

/// Which keys a settings-like payload consumes: Tab, Enter, Esc, the
/// arrows, and the space / j / k characters.
pub open spec fn settings_consumes(key: crate::keys::Key) -> bool {
    match key {
        crate::keys::Key::Tab => true,
        crate::keys::Key::Enter => true,
        crate::keys::Key::Esc => true,
        crate::keys::Key::Up => true,
        crate::keys::Key::Down => true,
        crate::keys::Key::Char(c) => c == ' ' || c == 'k' || c == 'j',
        _ => false,
    }
}

/// How one key edits a pomodoro-settings payload.  Tab cycles the focus
/// through its three regions; with the preset list focused, up and down
/// move the highlighted duration within its five entries.  Keys aimed at
/// the music region change the music selection, not this payload.
pub open spec fn pom_step(v: PomodoroView, key: crate::keys::Key) -> PomodoroView {
    match key {
        crate::keys::Key::Tab => PomodoroView {
            current_focus: ((v.current_focus + 1) % 3) as usize,
            ..v
        },
        crate::keys::Key::Up => pom_step_up(v),
        crate::keys::Key::Down => pom_step_down(v),
        crate::keys::Key::Char(c) => {
            if c == 'k' {
                pom_step_up(v)
            } else if c == 'j' {
                pom_step_down(v)
            } else {
                v
            }
        },
        _ => v,
    }
}

/// An upward step in the pomodoro payload: with the preset list focused,
/// move the highlight up, stopping at the first entry.
pub open spec fn pom_step_up(v: PomodoroView) -> PomodoroView {
    if v.current_focus == 0 && v.selected_duration > 0 {
        PomodoroView { selected_duration: (v.selected_duration - 1) as usize, ..v }
    } else {
        v
    }
}

/// A downward step in the pomodoro payload: with the preset list
/// focused, move the highlight down, stopping at the last entry.
pub open spec fn pom_step_down(v: PomodoroView) -> PomodoroView {
    if v.current_focus == 0 && v.selected_duration < 4 {
        PomodoroView { selected_duration: (v.selected_duration + 1) as usize, ..v }
    } else {
        v
    }
}

/// The query of a search payload.
pub open spec fn search_query(data: WindowData) -> Seq<char>
    recommends
        data is Search,
{
    match data {
        WindowData::Search { query } => query@,
        _ => arbitrary(),
    }
}

/// Which of a payload's focus regions currently receives input, for the
/// payloads that have a music region; payloads without one count as
/// focused elsewhere.
pub open spec fn music_focus_of(data: WindowData) -> usize {
    match data {
        WindowData::PomodoroSettings { current_focus, .. } => current_focus,
        WindowData::Settings { current_focus, .. } => current_focus,
        _ => 0,
    }
}

/// Whether a window of kind `kind` consumes `key`: the task-creation
/// window consumes everything but list navigation and unknown keys, the
/// two settings panels consume their fixed key set, and a search window
/// consumes nothing.
pub open spec fn window_consumes(kind: WindowType, key: crate::keys::Key) -> bool {
    match kind {
        WindowType::CreateTask => ct_consumes(key),
        WindowType::PomodoroSettings => settings_consumes(key),
        WindowType::Settings => settings_consumes(key),
        WindowType::Search => false,
    }
}

/// The general-settings payload.
pub struct SettingsView {
    pub play_during_pomodoro: bool,
    pub play_on_finish: bool,
    pub current_focus: usize,
}

/// The abstract value of a general-settings payload.
pub open spec fn set_view(data: WindowData) -> SettingsView
    recommends
        data is Settings,
{
    match data {
        WindowData::Settings { play_during_pomodoro, play_on_finish, current_focus } => {
            SettingsView { play_during_pomodoro, play_on_finish, current_focus }
        },
        _ => arbitrary(),
    }
}

/// How one key edits a general-settings payload.  Tab cycles the focus;
/// space flips the focused toggle; up and down move the focus between
/// the regions, stopping at the ends.  Keys aimed at the music region
/// change the music selection, not this payload.
pub open spec fn set_step(v: SettingsView, key: crate::keys::Key) -> SettingsView {
    match key {
        crate::keys::Key::Tab => SettingsView {
            current_focus: ((v.current_focus + 1) % 3) as usize,
            ..v
        },
        crate::keys::Key::Up => set_step_up(v),
        crate::keys::Key::Down => set_step_down(v),
        crate::keys::Key::Char(c) => {
            if c == ' ' {
                if v.current_focus == 0 {
                    SettingsView { play_during_pomodoro: !v.play_during_pomodoro, ..v }
                } else if v.current_focus == 1 {
                    SettingsView { play_on_finish: !v.play_on_finish, ..v }
                } else {
                    v
                }
            } else if c == 'k' {
                set_step_up(v)
            } else if c == 'j' {
                set_step_down(v)
            } else {
                v
            }
        },
        _ => v,
    }
}

/// An upward step in the settings payload: move the focus up unless the
/// music region or the first region holds it.
pub open spec fn set_step_up(v: SettingsView) -> SettingsView {
    if v.current_focus == 2 || v.current_focus == 0 {
        v
    } else {
        SettingsView { current_focus: (v.current_focus - 1) as usize, ..v }
    }
}

/// A downward step in the settings payload: move the focus down unless
/// the music region holds it.
pub open spec fn set_step_down(v: SettingsView) -> SettingsView {
    if v.current_focus == 2 {
        v
    } else if v.current_focus < 2 {
        SettingsView { current_focus: (v.current_focus + 1) as usize, ..v }
    } else {
        v
    }
}

} // verus!
