//! The application state and its transitions.
//!
//! `App` aggregates the task store, the two list navigators, the modal
//! window slot and the playback controller.  Every key press goes
//! through [`App::handle_key_event`]: an open window gets the event
//! first and the closing policy is applied to the raw key; only events
//! no window consumed fall through to the global shortcuts.  Audio and
//! terminal I/O stay with the embedding application: transitions return
//! an [`AudioEffect`] saying what to do to the real audio device, and
//! the embedding reports how starting playback went.

use crate::keys::is_down_key;
use crate::keys::is_up_key;
use crate::keys::Key;
use crate::textfield;
use crate::window::ct_consumes;
use crate::window::ct_step;
use crate::window::ct_view;
use crate::window::pom_step;
use crate::window::pom_view;
use crate::window::same_payload_variant;
use crate::window::set_step;
use crate::window::set_view;
use crate::window::settings_consumes;
use crate::window::music_focus_of;
use crate::window::search_query;
use crate::window::window_consumes;
use crate::window::CreateTaskView;
use crate::window::PomodoroView;
use crate::window::SettingsView;
use crate::music::build_audio_list;
use crate::music::sorted_by_name;
use crate::music::audio_entries;
use crate::music::AudioEffect;
use crate::music::AudioFileInfo;
use crate::music::MusicPlayerState;
use crate::music::PlaybackState;
use crate::music::ScannedFile;
use crate::navigator::nav_after_next;
use crate::navigator::nav_after_previous;
use crate::navigator::nav_wf;
use crate::navigator::ListNav;
use crate::task::TodoTask;
use crate::window::closes_on;
use crate::window::data_matches_kind;
use crate::window::data_wf;
use crate::window::default_data;
use crate::window::is_default_data;
use crate::window::layout_for;
use crate::window::should_close;
use crate::window::ActiveWindow;
use crate::window::WindowData;
use crate::window::WindowLayout;
use crate::window::WindowType;
use vstd::prelude::*;

verus! {

/// The whole application state: what the renderer paints and what the
/// key dispatcher mutates.
pub struct App {
    pub exit: bool,
    pub show_dashboard: bool,
    pub tasks: Vec<TodoTask>,
    /// Selection and scrollbar of the task list.
    pub list_state: ListNav,
    pub music_files: Vec<AudioFileInfo>,
    /// Selection and scrollbar of the audio-file list.
    pub music_list_state: ListNav,
    pub music_player_state: MusicPlayerState,
    pub active_window: Option<ActiveWindow>,
    /// Whether the embedding currently holds a live audio resource for
    /// this state.  The controller never asks for a second resource
    /// without giving this one up, so at most one is ever live.
    pub sink_live: bool,
}

impl App {
    /// The state invariant: selections index into their lists, window
    /// payloads are well formed and match their kind, a recorded
    /// playback index names a real file, a live resource is never in
    /// the stopped state, and every task is well formed.
    pub open spec fn wf(&self) -> bool {
        &&& nav_wf(self.list_state, self.tasks.len())
        &&& nav_wf(self.music_list_state, self.music_files.len())
        &&& (self.active_window matches Option::Some(w) ==> data_wf(w.data)
            && data_matches_kind(w.window_type, w.data))
        &&& (self.music_player_state.current_playing_index matches Option::Some(i) ==> i
            < self.music_files.len())
        &&& (self.sink_live ==> !(self.music_player_state.playback_state is Stopped))
        &&& (forall|i: int| 0 <= i < self.tasks.len() ==> (#[trigger] self.tasks@[i]).wf())
    }

    /// A fresh session over the given tasks: the first task selected if
    /// there is one, no music loaded yet, nothing playing, no window,
    /// and the opening screen showing.
    pub fn new(tasks: Vec<TodoTask>) -> (r: App)
        requires
            forall|i: int| 0 <= i < tasks@.len() ==> (#[trigger] tasks@[i]).wf(),
        ensures
            r.wf(),
            r.exit == false,
            r.show_dashboard == true,
            r.tasks@ == tasks@,
            r.list_state == (ListNav {
                selected: if tasks@.len() > 0 {
                    Option::Some(0usize)
                } else {
                    Option::None
                },
                scroll_position: 0usize,
            }),
            r.music_files@.len() == 0,
            r.music_list_state == (ListNav { selected: Option::None::<usize>, scroll_position: 0usize }),
            r.music_player_state == MusicPlayerState::default_spec(),
            r.active_window is None,
            r.sink_live == false,
    {
        let mut list_state = ListNav::new();
        list_state.select_first(tasks.len());
        App {
            exit: false,
            show_dashboard: true,
            tasks,
            list_state,
            music_files: Vec::new(),
            music_list_state: ListNav::new(),
            music_player_state: MusicPlayerState::default(),
            active_window: Option::None,
            sink_live: false,
        }
    }

    /// Take over the scanned directory entries: keep the supported audio
    /// formats, sort them by name, and select the first file if any.
    /// Loading happens once, before anything has been played.
    pub fn load_music_files(&mut self, entries: Vec<ScannedFile>)
        requires
            old(self).wf(),
            old(self).music_player_state.current_playing_index is None,
            !old(self).sink_live,
        ensures
            final(self).wf(),
            sorted_by_name(final(self).music_files@),
            final(self).music_files@.to_multiset() == audio_entries(entries@).to_multiset(),
            final(self).music_list_state == (ListNav {
                selected: if final(self).music_files@.len() > 0 {
                    Option::Some(0usize)
                } else {
                    Option::None
                },
                scroll_position: 0usize,
            }),
            *final(self) == (App {
                music_files: final(self).music_files,
                music_list_state: final(self).music_list_state,
                ..*old(self)
            }),
    {
        let files = build_audio_list(entries);
        self.music_files = files;
        self.music_list_state = ListNav::new();
        self.music_list_state.select_first(self.music_files.len());
    }

    /// Select the next task, wrapping at the end; a no-op on an empty
    /// list.
    pub fn next(&mut self)
        requires
            old(self).wf(),
        ensures
            final(self).wf(),
            final(self).list_state == nav_after_next(old(self).list_state, old(self).tasks.len()),
            *final(self) == (App { list_state: final(self).list_state, ..*old(self) }),
    {
        let len = self.tasks.len();
        self.list_state.next(len);
    }

    /// Select the previous task, wrapping at the start; a no-op on an
    /// empty list.
    pub fn previous(&mut self)
        requires
            old(self).wf(),
        ensures
            final(self).wf(),
            final(self).list_state == nav_after_previous(
                old(self).list_state,
                old(self).tasks.len(),
            ),
            *final(self) == (App { list_state: final(self).list_state, ..*old(self) }),
    {
        let len = self.tasks.len();
        self.list_state.previous(len);
    }

    /// Select the next audio file, wrapping at the end; a no-op on an
    /// empty list.
    pub fn music_list_next(&mut self)
        requires
            old(self).wf(),
        ensures
            final(self).wf(),
            final(self).music_list_state == nav_after_next(
                old(self).music_list_state,
                old(self).music_files.len(),
            ),
            *final(self) == (App { music_list_state: final(self).music_list_state, ..*old(self) }),
    {
        let len = self.music_files.len();
        self.music_list_state.next(len);
    }

    /// Select the previous audio file, wrapping at the start; a no-op on
    /// an empty list.
    pub fn music_list_previous(&mut self)
        requires
            old(self).wf(),
        ensures
            final(self).wf(),
            final(self).music_list_state == nav_after_previous(
                old(self).music_list_state,
                old(self).music_files.len(),
            ),
            *final(self) == (App { music_list_state: final(self).music_list_state, ..*old(self) }),
    {
        let len = self.music_files.len();
        self.music_list_state.previous(len);
    }

    /// Append a fresh task with the given title and description.  The
    /// task scrollbar is rebuilt for the longer list, with the thumb
    /// back at the top; the selection stays where it was.
    pub fn create_task(&mut self, title: String, description: String)
        requires
            old(self).wf(),
        ensures
            final(self).wf(),
            final(self).tasks@.len() == old(self).tasks@.len() + 1,
            final(self).tasks@.subrange(0, old(self).tasks@.len() as int) == old(self).tasks@,
            final(self).tasks@.last().title == title,
            final(self).tasks@.last().description == description,
            final(self).tasks@.last().status is Todo,
            final(self).tasks@.last().tags@.len() == 0,
            final(self).tasks@.last().due_date is None,
            final(self).tasks@.last().finish_date is None,
            final(self).list_state == (ListNav {
                selected: old(self).list_state.selected,
                scroll_position: 0usize,
            }),
            *final(self) == (App {
                tasks: final(self).tasks,
                list_state: final(self).list_state,
                ..*old(self)
            }),
    {
        let task = TodoTask::new(title, description);
        self.tasks.push(task);
        self.list_state.scroll_position = 0;
        proof {
            assert(final(self).tasks@.subrange(0, old(self).tasks@.len() as int) =~= old(self).tasks@);
        }
    }

    /// The playback decision for the Enter key on the music list: start
    /// the selected file, or nothing when no valid selection exists.
    pub open spec fn play_effect(&self) -> AudioEffect {
        match self.music_list_state.selected {
            Option::Some(i) => if i < self.music_files.len() {
                AudioEffect::Start { index: i }
            } else {
                AudioEffect::Nothing
            },
            Option::None => AudioEffect::Nothing,
        }
    }

    /// Decide what playing the selected music means right now.  The
    /// embedding performs the returned effect — always releasing any
    /// previous resource first — and reports back through
    /// [`App::note_playback_result`].
    pub fn play_selected_music(&self) -> (eff: AudioEffect)
        ensures
            eff == self.play_effect(),
    {
        match self.music_list_state.selected {
            Option::Some(i) => {
                if i < self.music_files.len() {
                    AudioEffect::Start { index: i }
                } else {
                    AudioEffect::Nothing
                }
            },
            Option::None => AudioEffect::Nothing,
        }
    }

    /// Record how an attempt to start playing file `index` went: on
    /// success the file is current, playing, and the one live resource
    /// is held; on failure the state is stopped with no resource, and
    /// the index stays recorded so a later toggle can retry it.
    pub fn note_playback_result(&mut self, index: usize, started: bool)
        requires
            old(self).wf(),
            index < old(self).music_files.len(),
        ensures
            final(self).wf(),
            final(self).music_player_state == MusicPlayerState::played(
                old(self).music_player_state,
                index,
                started,
            ),
            final(self).sink_live == started,
            *final(self) == App::noted_playback(*old(self), index, started),
    {
        self.music_player_state.current_playing_index = Option::Some(index);
        self.music_player_state.playback_state = if started {
            PlaybackState::Playing
        } else {
            PlaybackState::Stopped
        };
        self.sink_live = started;
    }

    /// Flip between playing and paused on the live resource; without a
    /// live resource but with a recorded file, ask the embedding to
    /// start that file again; with neither, do nothing.
    pub fn toggle_playback(&mut self) -> (eff: AudioEffect)
        requires
            old(self).wf(),
        ensures
            final(self).wf(),
            final(self).music_player_state == MusicPlayerState::toggled(
                old(self).music_player_state,
                old(self).sink_live,
            ),
            eff == MusicPlayerState::toggle_effect(
                old(self).music_player_state,
                old(self).sink_live,
            ),
            *final(self) == (App {
                music_player_state: final(self).music_player_state,
                ..*old(self)
            }),
            !old(self).sink_live && old(self).music_player_state.current_playing_index is None
                ==> *final(self) == *old(self) && eff is Nothing,
            eff matches AudioEffect::Start { index } ==> index < final(self).music_files.len(),
    {
        if self.sink_live {
            if let PlaybackState::Paused = self.music_player_state.playback_state {
                self.music_player_state.playback_state = PlaybackState::Playing;
                AudioEffect::Resume
            } else {
                self.music_player_state.playback_state = PlaybackState::Paused;
                AudioEffect::Pause
            }
        } else {
            match self.music_player_state.current_playing_index {
                Option::Some(i) => AudioEffect::Start { index: i },
                Option::None => AudioEffect::Nothing,
            }
        }
    }

    /// Halt and release any live resource: the state is stopped and no
    /// resource is held, while the recorded file stays for a later
    /// toggle.  Stopping twice is the same as stopping once.
    pub fn stop_music(&mut self) -> (eff: AudioEffect)
        requires
            old(self).wf(),
        ensures
            final(self).wf(),
            final(self).music_player_state == MusicPlayerState::stopped(
                old(self).music_player_state,
            ),
            final(self).sink_live == false,
            eff is Stop,
            *final(self) == App::stopped_app(*old(self)),
    {
        self.music_player_state.playback_state = PlaybackState::Stopped;
        self.sink_live = false;
        AudioEffect::Stop
    }

    /// Discard the open window, if any.
    pub fn close_window(&mut self)
        ensures
            final(self).active_window is None,
            *final(self) == (App { active_window: Option::None, ..*old(self) }),
    {
        self.active_window = Option::None;
    }

    /// Open a window of the given kind on a terminal of `tw` by `th`
    /// cells: its layout is computed once, its payload starts fresh.
    /// While a window is already open the request is rejected and
    /// nothing changes.
    pub fn open_window_sized(&mut self, window_type: WindowType, tw: u16, th: u16)
        requires
            old(self).wf(),
        ensures
            final(self).wf(),
            old(self).active_window is Some ==> *final(self) == *old(self),
            old(self).active_window is None ==> {
                &&& final(self).active_window matches Option::Some(w)
                &&& w.window_type == window_type
                &&& w.layout == layout_for(window_type, tw, th)
                &&& is_default_data(window_type, w.data)
                &&& w.is_visible == true
                &&& *final(self) == (App {
                    active_window: final(self).active_window,
                    ..*old(self)
                })
            },
    {
        if self.active_window.is_some() {
            return ;
        }
        let layout = WindowLayout::for_kind(window_type, tw, th);
        let data = default_data(window_type);
        self.active_window = Option::Some(
            ActiveWindow { window_type, layout, data, is_visible: true },
        );
    }

    /// Open a window of the given kind, laid out for the terminal's
    /// current size (a default size when it cannot be read).  While a
    /// window is already open the request is rejected and nothing
    /// changes.
    pub fn open_window(&mut self, window_type: WindowType)
        requires
            old(self).wf(),
        ensures
            final(self).wf(),
            old(self).active_window is Some ==> *final(self) == *old(self),
            old(self).active_window is None ==> {
                &&& final(self).active_window matches Option::Some(w)
                &&& w.window_type == window_type
                &&& exists|tw: u16, th: u16| w.layout == #[trigger] layout_for(window_type, tw, th)
                &&& is_default_data(window_type, w.data)
                &&& w.is_visible == true
                &&& *final(self) == (App {
                    active_window: final(self).active_window,
                    ..*old(self)
                })
            },
    {
        let (tw, th) = current_terminal_size();
        self.open_window_sized(window_type, tw, th);
    }
    /// `pre` after recording a start attempt: the controller state and
    /// the resource flag move together.
    pub open spec fn noted_playback(pre: App, index: usize, started: bool) -> App {
        App {
            music_player_state: MusicPlayerState::played(pre.music_player_state, index, started),
            sink_live: started,
            ..pre
        }
    }

    /// `pre` after a stop: stopped, the resource released, the recorded
    /// file and everything else untouched.
    pub open spec fn stopped_app(pre: App) -> App {
        App {
            music_player_state: MusicPlayerState::stopped(pre.music_player_state),
            sink_live: false,
            ..pre
        }
    }

    /// The audio effect a key aimed at the music region of a settings
    /// panel produces: Enter starts the selected file, space toggles
    /// playback; outside that region no effect is produced.
    pub open spec fn music_region_effect(pre: App, focus: usize, key: Key) -> AudioEffect {
        if focus == 2 {
            if key is Enter {
                pre.play_effect()
            } else if key == Key::Char(' ') {
                MusicPlayerState::toggle_effect(pre.music_player_state, pre.sink_live)
            } else {
                AudioEffect::Nothing
            }
        } else {
            AudioEffect::Nothing
        }
    }

    /// How a key aimed at the music region of a settings panel changes
    /// the application: space toggles the playback model, up and down
    /// move the music selection; outside that region — or with any
    /// other key — nothing in the application changes (the payload may).
    pub open spec fn music_region_post(pre: App, focus: usize, key: Key) -> App {
        if focus == 2 {
            if key == Key::Char(' ') {
                App {
                    music_player_state: MusicPlayerState::toggled(
                        pre.music_player_state,
                        pre.sink_live,
                    ),
                    ..pre
                }
            } else if is_up_key(key) {
                App {
                    music_list_state: nav_after_previous(
                        pre.music_list_state,
                        pre.music_files.len(),
                    ),
                    ..pre
                }
            } else if is_down_key(key) {
                App {
                    music_list_state: nav_after_next(pre.music_list_state, pre.music_files.len()),
                    ..pre
                }
            } else {
                pre
            }
        } else {
            pre
        }
    }

    /// Dispatch one key to a task-creation payload.  Editing keys
    /// rewrite the payload by the text-field rules; Enter commits the
    /// task to the store (the closing policy then discards the window);
    /// list navigation and unknown keys are not consumed.
    pub fn dispatch_create_task(
        &mut self,
        title: Vec<char>,
        description: Vec<char>,
        current_field: usize,
        cursor_position: usize,
        key: Key,
    ) -> (r: (WindowData, bool))
        requires
            old(self).wf(),
            current_field < 2,
            cursor_position <= if current_field == 0 {
                title@.len()
            } else {
                description@.len()
            },
        ensures
            final(self).wf(),
            r.0 is CreateTask,
            data_wf(r.0),
            ct_view(r.0) == ct_step(
                CreateTaskView {
                    title: title@,
                    description: description@,
                    current_field,
                    cursor_position,
                },
                key,
            ),
            r.1 == ct_consumes(key),
            key is Enter ==> {
                &&& final(self).tasks@.len() == old(self).tasks@.len() + 1
                &&& final(self).tasks@.subrange(0, old(self).tasks@.len() as int) == old(self).tasks@
                &&& final(self).tasks@.last().title@ == title@
                &&& final(self).tasks@.last().description@ == description@
                &&& final(self).tasks@.last().status is Todo
                &&& final(self).tasks@.last().tags@.len() == 0
                &&& final(self).tasks@.last().due_date is None
                &&& final(self).tasks@.last().finish_date is None
                &&& final(self).list_state == (ListNav {
                    selected: old(self).list_state.selected,
                    scroll_position: 0usize,
                })
                &&& *final(self) == (App {
                    tasks: final(self).tasks,
                    list_state: final(self).list_state,
                    ..*old(self)
                })
            },
            !(key is Enter) ==> *final(self) == *old(self),
    {
        let mut t = title;
        let mut d = description;
        let mut field = current_field;
        let mut cursor = cursor_position;
        match key {
            Key::Tab => {
                field = if field == 0 {
                    1
                } else {
                    0
                };
                cursor = if field == 0 {
                    t.len()
                } else {
                    d.len()
                };
                (
                    WindowData::CreateTask {
                        title: t,
                        description: d,
                        current_field: field,
                        cursor_position: cursor,
                    },
                    true,
                )
            },
            Key::Enter => {
                let title_text = chars_to_string(&t);
                let description_text = chars_to_string(&d);
                self.create_task(title_text, description_text);
                (
                    WindowData::CreateTask {
                        title: t,
                        description: d,
                        current_field: field,
                        cursor_position: cursor,
                    },
                    true,
                )
            },
            Key::Esc => {
                (
                    WindowData::CreateTask {
                        title: t,
                        description: d,
                        current_field: field,
                        cursor_position: cursor,
                    },
                    true,
                )
            },
            Key::Left => {
                textfield::move_cursor_left(&mut cursor);
                (
                    WindowData::CreateTask {
                        title: t,
                        description: d,
                        current_field: field,
                        cursor_position: cursor,
                    },
                    true,
                )
            },
            Key::Right => {
                if field == 0 {
                    textfield::move_cursor_right(&t, &mut cursor);
                } else {
                    textfield::move_cursor_right(&d, &mut cursor);
                }
                (
                    WindowData::CreateTask {
                        title: t,
                        description: d,
                        current_field: field,
                        cursor_position: cursor,
                    },
                    true,
                )
            },
            Key::Home => {
                textfield::move_cursor_home(&mut cursor);
                (
                    WindowData::CreateTask {
                        title: t,
                        description: d,
                        current_field: field,
                        cursor_position: cursor,
                    },
                    true,
                )
            },
            Key::End => {
                if field == 0 {
                    textfield::move_cursor_end(&t, &mut cursor);
                } else {
                    textfield::move_cursor_end(&d, &mut cursor);
                }
                (
                    WindowData::CreateTask {
                        title: t,
                        description: d,
                        current_field: field,
                        cursor_position: cursor,
                    },
                    true,
                )
            },
            Key::Char(c) => {
                if field == 0 {
                    textfield::insert_char(&mut t, &mut cursor, c);
                } else {
                    textfield::insert_char(&mut d, &mut cursor, c);
                }
                (
                    WindowData::CreateTask {
                        title: t,
                        description: d,
                        current_field: field,
                        cursor_position: cursor,
                    },
                    true,
                )
            },
            Key::Backspace => {
                if field == 0 {
                    textfield::backspace_char(&mut t, &mut cursor);
                } else {
                    textfield::backspace_char(&mut d, &mut cursor);
                }
                (
                    WindowData::CreateTask {
                        title: t,
                        description: d,
                        current_field: field,
                        cursor_position: cursor,
                    },
                    true,
                )
            },
            Key::Delete => {
                if field == 0 {
                    textfield::delete_char(&mut t, &mut cursor);
                } else {
                    textfield::delete_char(&mut d, &mut cursor);
                }
                (
                    WindowData::CreateTask {
                        title: t,
                        description: d,
                        current_field: field,
                        cursor_position: cursor,
                    },
                    true,
                )
            },
            Key::Up | Key::Down | Key::Other => {
                (
                    WindowData::CreateTask {
                        title: t,
                        description: d,
                        current_field: field,
                        cursor_position: cursor,
                    },
                    false,
                )
            },
        }
    }

    /// Dispatch one key to a pomodoro-settings payload: Tab cycles its
    /// three focus regions, up and down move the preset highlight or the
    /// music selection, Enter and space drive playback when the music
    /// region is focused.
    pub fn dispatch_pomodoro(
        &mut self,
        selected_duration: usize,
        custom_duration: Vec<char>,
        current_focus: usize,
        key: Key,
    ) -> (r: (WindowData, bool, AudioEffect))
        requires
            old(self).wf(),
            selected_duration <= 4,
            current_focus < 3,
        ensures
            final(self).wf(),
            r.0 is PomodoroSettings,
            data_wf(r.0),
            pom_view(r.0) == pom_step(
                PomodoroView {
                    selected_duration,
                    custom_duration: custom_duration@,
                    current_focus,
                },
                key,
            ),
            r.1 == settings_consumes(key),
            *final(self) == App::music_region_post(*old(self), current_focus, key),
            r.2 == App::music_region_effect(*old(self), current_focus, key),
    {
        let mut duration = selected_duration;
        let custom = custom_duration;
        let mut focus = current_focus;
        let mut eff = AudioEffect::Nothing;
        let handled: bool;
        match key {
            Key::Tab => {
                focus = (focus + 1) % 3;
                handled = true;
            },
            Key::Enter => {
                if focus == 2 {
                    eff = self.play_selected_music();
                }
                handled = true;
            },
            Key::Esc => {
                handled = true;
            },
            Key::Up => {
                if focus == 0 {
                    if duration > 0 {
                        duration = duration - 1;
                    }
                } else if focus == 2 {
                    self.music_list_previous();
                }
                handled = true;
            },
            Key::Down => {
                if focus == 0 {
                    if duration < 4 {
                        duration = duration + 1;
                    }
                } else if focus == 2 {
                    self.music_list_next();
                }
                handled = true;
            },
            Key::Char(c) => {
                if c == ' ' {
                    if focus == 2 {
                        eff = self.toggle_playback();
                    }
                    handled = true;
                } else if c == 'k' {
                    if focus == 0 {
                        if duration > 0 {
                            duration = duration - 1;
                        }
                    } else if focus == 2 {
                        self.music_list_previous();
                    }
                    handled = true;
                } else if c == 'j' {
                    if focus == 0 {
                        if duration < 4 {
                            duration = duration + 1;
                        }
                    } else if focus == 2 {
                        self.music_list_next();
                    }
                    handled = true;
                } else {
                    handled = false;
                }
            },
            _ => {
                handled = false;
            },
        }
        (
            WindowData::PomodoroSettings {
                selected_duration: duration,
                custom_duration: custom,
                current_focus: focus,
            },
            handled,
            eff,
        )
    }

    /// Dispatch one key to a general-settings payload: Tab and the
    /// up/down keys move the focus through its three regions, space
    /// flips the focused toggle, Enter and space drive playback when
    /// the music region is focused.
    pub fn dispatch_settings(
        &mut self,
        play_during_pomodoro: bool,
        play_on_finish: bool,
        current_focus: usize,
        key: Key,
    ) -> (r: (WindowData, bool, AudioEffect))
        requires
            old(self).wf(),
            current_focus < 3,
        ensures
            final(self).wf(),
            r.0 is Settings,
            data_wf(r.0),
            set_view(r.0) == set_step(
                SettingsView { play_during_pomodoro, play_on_finish, current_focus },
                key,
            ),
            r.1 == settings_consumes(key),
            *final(self) == App::music_region_post(*old(self), current_focus, key),
            r.2 == App::music_region_effect(*old(self), current_focus, key),
    {
        let mut during = play_during_pomodoro;
        let mut on_finish = play_on_finish;
        let mut focus = current_focus;
        let mut eff = AudioEffect::Nothing;
        let handled: bool;
        match key {
            Key::Tab => {
                focus = (focus + 1) % 3;
                handled = true;
            },
            Key::Enter => {
                if focus == 2 {
                    eff = self.play_selected_music();
                }
                handled = true;
            },
            Key::Esc => {
                handled = true;
            },
            Key::Up => {
                if focus == 2 {
                    self.music_list_previous();
                } else if focus > 0 {
                    focus = focus - 1;
                }
                handled = true;
            },
            Key::Down => {
                if focus == 2 {
                    self.music_list_next();
                } else if focus < 2 {
                    focus = focus + 1;
                }
                handled = true;
            },
            Key::Char(c) => {
                if c == ' ' {
                    if focus == 2 {
                        eff = self.toggle_playback();
                    } else if focus == 0 {
                        during = !during;
                    } else {
                        on_finish = !on_finish;
                    }
                    handled = true;
                } else if c == 'k' {
                    if focus == 2 {
                        self.music_list_previous();
                    } else if focus > 0 {
                        focus = focus - 1;
                    }
                    handled = true;
                } else if c == 'j' {
                    if focus == 2 {
                        self.music_list_next();
                    } else if focus < 2 {
                        focus = focus + 1;
                    }
                    handled = true;
                } else {
                    handled = false;
                }
            },
            _ => {
                handled = false;
            },
        }
        (
            WindowData::Settings {
                play_during_pomodoro: during,
                play_on_finish: on_finish,
                current_focus: focus,
            },
            handled,
            eff,
        )
    }
    /// Starting one file and, as soon as that is recorded, another:
    /// the controller ends holding the one live resource of the second
    /// start, with the second file current and playing.  The first
    /// start's resource is gone — the model never holds two.
    pub proof fn lemma_play_then_play(pre: App, i: usize, j: usize)
        ensures
            ({
                let after = App::noted_playback(App::noted_playback(pre, i, true), j, true);
                &&& after.sink_live == true
                &&& after.music_player_state.current_playing_index == Option::Some(j)
                &&& after.music_player_state.playback_state is Playing
            }),
    {
    }

    /// Stopping twice in a row is the same as stopping once: the state
    /// is stopped and no resource is held either way, and nothing else
    /// moves.
    pub proof fn lemma_stop_idempotent(pre: App)
        ensures
            App::stopped_app(App::stopped_app(pre)) == App::stopped_app(pre),
    {
    }

    /// `post` is `pre` with a freshly opened window of kind `kind`: the
    /// default payload, a layout computed for some terminal size, and
    /// nothing else changed.
    pub open spec fn opened_window(pre: App, post: App, kind: WindowType) -> bool {
        &&& post.active_window matches Option::Some(w)
        &&& w.window_type == kind
        &&& is_default_data(kind, w.data)
        &&& (exists|tw: u16, th: u16| w.layout == #[trigger] layout_for(kind, tw, th))
        &&& w.is_visible == true
        &&& post == (App { active_window: post.active_window, ..pre })
    }

    /// Run the global shortcut table on one key: q quits; j/k and the
    /// arrows move the task selection, but only while no window is
    /// open; a/n, p and o ask for a window, which is granted only while
    /// none is open.  Every other key does nothing.
    fn global_shortcut(&mut self, key: Key)
        requires
            old(self).wf(),
        ensures
            final(self).wf(),
            key == Key::Char('q') ==> *final(self) == (App { exit: true, ..*old(self) }),
            is_down_key(key) && old(self).active_window is None ==> *final(self) == (App {
                list_state: nav_after_next(old(self).list_state, old(self).tasks.len()),
                ..*old(self)
            }),
            is_up_key(key) && old(self).active_window is None ==> *final(self) == (App {
                list_state: nav_after_previous(old(self).list_state, old(self).tasks.len()),
                ..*old(self)
            }),
            (is_down_key(key) || is_up_key(key)) && old(self).active_window is Some ==> *final(self) == *old(self),
            (key == Key::Char('a') || key == Key::Char('n')) && old(self).active_window is None
                ==> App::opened_window(*old(self), *final(self), WindowType::CreateTask),
            key == Key::Char('p') && old(self).active_window is None ==> App::opened_window(
                *old(self),
                *final(self),
                WindowType::PomodoroSettings,
            ),
            key == Key::Char('o') && old(self).active_window is None ==> App::opened_window(
                *old(self),
                *final(self),
                WindowType::Settings,
            ),
            (key == Key::Char('a') || key == Key::Char('n') || key == Key::Char('p') || key
                == Key::Char('o')) && old(self).active_window is Some ==> *final(self) == *old(self),
            !(key == Key::Char('q') || is_down_key(key) || is_up_key(key) || key == Key::Char('a')
                || key == Key::Char('n') || key == Key::Char('p') || key == Key::Char('o'))
                ==> *final(self) == *old(self),
            old(self).active_window is Some ==> final(self).active_window == old(self).active_window,
    {
        match key {
            Key::Char(c) => {
                if c == 'q' {
                    self.exit = true;
                } else if c == 'j' {
                    if self.active_window.is_none() {
                        self.next();
                    }
                } else if c == 'k' {
                    if self.active_window.is_none() {
                        self.previous();
                    }
                } else if c == 'a' || c == 'n' {
                    self.open_window(WindowType::CreateTask);
                } else if c == 'p' {
                    self.open_window(WindowType::PomodoroSettings);
                } else if c == 'o' {
                    self.open_window(WindowType::Settings);
                }
            },
            Key::Down => {
                if self.active_window.is_none() {
                    self.next();
                }
            },
            Key::Up => {
                if self.active_window.is_none() {
                    self.previous();
                }
            },
            _ => {},
        }
    }

    /// Dispatch one key to an open window's payload.  The payload is
    /// rewritten by its own rules; a task-creation Enter commits the
    /// task; keys aimed at a focused music region move the music
    /// selection or produce a playback effect.  The returned flag says
    /// whether the window consumed the key.
    pub fn dispatch_window_key(&mut self, data: WindowData, key: Key) -> (r: (
        WindowData,
        bool,
        AudioEffect,
    ))
        requires
            old(self).wf(),
            data_wf(data),
        ensures
            final(self).wf(),
            data_wf(r.0),
            same_payload_variant(data, r.0),
            final(self).active_window == old(self).active_window,
            final(self).list_state.selected == old(self).list_state.selected,
            final(self).exit == old(self).exit,
            final(self).show_dashboard == old(self).show_dashboard,
            data is CreateTask ==> {
                &&& ct_view(r.0) == ct_step(ct_view(data), key)
                &&& r.1 == ct_consumes(key)
                &&& r.2 is Nothing
                &&& (key is Enter ==> {
                    &&& final(self).tasks@.len() == old(self).tasks@.len() + 1
                    &&& final(self).tasks@.subrange(0, old(self).tasks@.len() as int) == old(self).tasks@
                    &&& final(self).tasks@.last().title@ == ct_view(data).title
                    &&& final(self).tasks@.last().description@ == ct_view(data).description
                    &&& final(self).tasks@.last().status is Todo
                    &&& final(self).tasks@.last().tags@.len() == 0
                    &&& final(self).tasks@.last().due_date is None
                    &&& final(self).tasks@.last().finish_date is None
                    &&& final(self).list_state == (ListNav {
                        selected: old(self).list_state.selected,
                        scroll_position: 0usize,
                    })
                    &&& *final(self) == (App {
                        tasks: final(self).tasks,
                        list_state: final(self).list_state,
                        ..*old(self)
                    })
                })
                &&& (!(key is Enter) ==> *final(self) == *old(self))
            },
            data is PomodoroSettings ==> {
                &&& pom_view(r.0) == pom_step(pom_view(data), key)
                &&& r.1 == settings_consumes(key)
                &&& *final(self) == App::music_region_post(
                    *old(self),
                    pom_view(data).current_focus,
                    key,
                )
                &&& r.2 == App::music_region_effect(*old(self), pom_view(data).current_focus, key)
            },
            data is Settings ==> {
                &&& set_view(r.0) == set_step(set_view(data), key)
                &&& r.1 == settings_consumes(key)
                &&& *final(self) == App::music_region_post(
                    *old(self),
                    set_view(data).current_focus,
                    key,
                )
                &&& r.2 == App::music_region_effect(*old(self), set_view(data).current_focus, key)
            },
            data is Search || data is Empty ==> r.0 == data && r.1 == false && r.2 is Nothing
                && *final(self) == *old(self),
            r.2 matches AudioEffect::Start { index } ==> index < final(self).music_files.len(),
    {
        match data {
            WindowData::CreateTask { title, description, current_field, cursor_position } => {
                let (data2, handled) = self.dispatch_create_task(
                    title,
                    description,
                    current_field,
                    cursor_position,
                    key,
                );
                (data2, handled, AudioEffect::Nothing)
            },
            WindowData::PomodoroSettings { selected_duration, custom_duration, current_focus } => {
                self.dispatch_pomodoro(selected_duration, custom_duration, current_focus, key)
            },
            WindowData::Settings { play_during_pomodoro, play_on_finish, current_focus } => {
                self.dispatch_settings(play_during_pomodoro, play_on_finish, current_focus, key)
            },
            WindowData::Search { query } => {
                (WindowData::Search { query }, false, AudioEffect::Nothing)
            },
            WindowData::Empty => (WindowData::Empty, false, AudioEffect::Nothing),
        }
    }

    /// Route one key press.  The opening screen swallows the first key.
    /// An open window gets the key first; afterwards the closing policy
    /// — Esc always, Enter only for the single-commit kinds — decides
    /// whether the window is discarded, and only a key the window
    /// neither closed on nor consumed falls through to the global
    /// shortcuts.  The returned effect tells the embedding what to do
    /// to the audio device.
    pub fn handle_key_event(&mut self, key: Key) -> (eff: AudioEffect)
        requires
            old(self).wf(),
        ensures
            final(self).wf(),
            old(self).show_dashboard ==> *final(self) == (App {
                show_dashboard: false,
                ..*old(self)
            }) && eff is Nothing,
            !old(self).show_dashboard && old(self).active_window is Some && key is Esc ==> final(self).active_window is None,
            !old(self).show_dashboard && old(self).active_window is Some ==> ({
                let w = old(self).active_window->0;
                &&& (closes_on(w.window_type, key) ==> final(self).active_window is None)
                &&& (!closes_on(w.window_type, key) ==> (final(self).active_window matches Option::Some(w2) && w2.window_type == w.window_type
                    && w2.layout == w.layout && w2.is_visible == w.is_visible))
                &&& (w.window_type is CreateTask && key is Enter ==> final(self).list_state
                    == (ListNav {
                    selected: old(self).list_state.selected,
                    scroll_position: 0usize,
                }))
                &&& (!(w.window_type is CreateTask && key is Enter) ==> final(self).list_state
                    == old(self).list_state)
                &&& (!(w.window_type is CreateTask) ==> final(self).tasks@ == old(self).tasks@)
                &&& (w.window_type is CreateTask && !(key is Enter) ==> final(self).tasks@ == old(
                    self,
                ).tasks@)
                &&& (w.window_type is CreateTask && key is Enter ==> {
                    &&& final(self).active_window is None
                    &&& final(self).tasks@.len() == old(self).tasks@.len() + 1
                    &&& final(self).tasks@.subrange(0, old(self).tasks@.len() as int) == old(self).tasks@
                    &&& final(self).tasks@.last().title@ == ct_view(w.data).title
                    &&& final(self).tasks@.last().description@ == ct_view(w.data).description
                    &&& final(self).tasks@.last().status is Todo
                    &&& final(self).tasks@.last().tags@.len() == 0
                    &&& final(self).tasks@.last().due_date is None
                    &&& final(self).tasks@.last().finish_date is None
                })
                &&& final(self).exit == (old(self).exit || (!closes_on(w.window_type, key)
                    && !window_consumes(w.window_type, key) && key == Key::Char('q')))
                &&& final(self).music_player_state == App::music_region_post(
                    *old(self),
                    music_focus_of(w.data),
                    key,
                ).music_player_state
                &&& final(self).music_list_state == App::music_region_post(
                    *old(self),
                    music_focus_of(w.data),
                    key,
                ).music_list_state
                &&& eff == App::music_region_effect(*old(self), music_focus_of(w.data), key)
                &&& (!closes_on(w.window_type, key) && w.data is Search ==> {
                    let w2 = final(self).active_window->0;
                    &&& w2.data is Search
                    &&& search_query(w2.data) == search_query(w.data)
                })
                &&& (!closes_on(w.window_type, key) && w.data is CreateTask ==> {
                    let w2 = final(self).active_window->0;
                    &&& w2.data is CreateTask
                    &&& ct_view(w2.data) == ct_step(ct_view(w.data), key)
                })
                &&& (!closes_on(w.window_type, key) && w.data is PomodoroSettings ==> {
                    let w2 = final(self).active_window->0;
                    &&& w2.data is PomodoroSettings
                    &&& pom_view(w2.data) == pom_step(pom_view(w.data), key)
                })
                &&& (!closes_on(w.window_type, key) && w.data is Settings ==> {
                    let w2 = final(self).active_window->0;
                    &&& w2.data is Settings
                    &&& set_view(w2.data) == set_step(set_view(w.data), key)
                })
            }),
            !old(self).show_dashboard && old(self).active_window is None ==> {
                &&& (key == Key::Char('q') ==> *final(self) == (App { exit: true, ..*old(self) })
                    && eff is Nothing)
                &&& (is_down_key(key) ==> *final(self) == (App {
                    list_state: nav_after_next(old(self).list_state, old(self).tasks.len()),
                    ..*old(self)
                }) && eff is Nothing)
                &&& (is_up_key(key) ==> *final(self) == (App {
                    list_state: nav_after_previous(old(self).list_state, old(self).tasks.len()),
                    ..*old(self)
                }) && eff is Nothing)
                &&& ((key == Key::Char('a') || key == Key::Char('n')) ==> App::opened_window(
                    *old(self),
                    *final(self),
                    WindowType::CreateTask,
                ))
                &&& (key == Key::Char('p') ==> App::opened_window(
                    *old(self),
                    *final(self),
                    WindowType::PomodoroSettings,
                ))
                &&& (key == Key::Char('o') ==> App::opened_window(
                    *old(self),
                    *final(self),
                    WindowType::Settings,
                ))
                &&& (!(key == Key::Char('q') || is_down_key(key) || is_up_key(key) || key
                    == Key::Char('a') || key == Key::Char('n') || key == Key::Char('p') || key
                    == Key::Char('o')) ==> *final(self) == *old(self) && eff is Nothing)
            },
            eff matches AudioEffect::Start { index } ==> index < final(self).music_files.len(),
            final(self).show_dashboard == false,
            final(self).sink_live == old(self).sink_live,
            final(self).music_files@ == old(self).music_files@,
    {
        if self.show_dashboard {
            self.show_dashboard = false;
            return AudioEffect::Nothing;
        }
        let taken = self.active_window.take();
        match taken {
            Option::Some(window) => {
                let ActiveWindow { window_type, layout, data, is_visible } = window;
                let (data2, handled, eff) = self.dispatch_window_key(data, key);
                let close = should_close(window_type, key);
                if !close {
                    self.active_window = Option::Some(
                        ActiveWindow { window_type, layout, data: data2, is_visible },
                    );
                }
                if close || handled {
                    return eff;
                }
                self.global_shortcut(key);
                eff
            },
            Option::None => {
                self.global_shortcut(key);
                AudioEffect::Nothing
            },
        }
    }
}

/// Relies on `terminal_size::terminal_size`: the terminal's dimensions
/// in columns and rows, or `None` when they cannot be read.
#[verifier::external_body]
fn query_terminal_size() -> Option<(u16, u16)> {
    match terminal_size::terminal_size() {
        Option::Some((terminal_size::Width(w), terminal_size::Height(h))) => Option::Some((w, h)),
        Option::None => Option::None,
    }
}

/// The terminal's current dimensions, with 120 by 30 as the fallback
/// when they cannot be read.
fn current_terminal_size() -> (u16, u16) {
    match query_terminal_size() {
        Option::Some((w, h)) => (w, h),
        Option::None => (120, 30),
    }
}

/// Relies on `String`'s `FromIterator` impl: collecting characters
/// yields the string of exactly those characters.
#[verifier::external_body]
fn chars_to_string(chars: &Vec<char>) -> (r: String)
    ensures
        r@ == chars@,
{
    chars.iter().collect()
}

} // verus!
