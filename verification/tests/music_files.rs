use dwxdy::app::App;
use dwxdy::keys::Key;
use dwxdy::music::AudioEffect;
use dwxdy::music::{is_audio_extension, ScannedFile};
use dwxdy::window::WindowType;

fn entry(stem: &str, ext: &str) -> ScannedFile {
    ScannedFile {
        stem: stem.to_string(),
        extension: ext.to_string(),
        path: format!("/music/{}.{}", stem, ext),
    }
}

#[test]
fn supported_extensions_are_mp3_and_wav_in_any_case() {
    for good in ["mp3", "MP3", "Mp3", "wav", "WAV", "wAv"] {
        assert!(is_audio_extension(&good.to_string()), "{}", good);
    }
    for bad in ["", "ogg", "mp4", "mp", "wavx", "txt", "m4a"] {
        assert!(!is_audio_extension(&bad.to_string()), "{}", bad);
    }
}

#[test]
fn loading_filters_and_sorts_by_name() {
    let mut app = App::new(Vec::new());
    app.load_music_files(vec![
        entry("zeta", "mp3"),
        entry("alpha", "WAV"),
        entry("notes", "txt"),
        entry("beta", "Mp3"),
    ]);
    let names: Vec<&str> = app.music_files.iter().map(|f| f.name.as_str()).collect();
    assert_eq!(names, vec!["alpha", "beta", "zeta"]);
    assert_eq!(app.music_list_state.selected, Some(0));
    assert_eq!(app.music_list_state.scroll_position, 0);
}

#[test]
fn loading_nothing_leaves_the_selection_unset() {
    let mut app = App::new(Vec::new());
    app.load_music_files(vec![entry("readme", "md")]);
    assert!(app.music_files.is_empty());
    assert_eq!(app.music_list_state.selected, None);
}

#[test]
fn music_navigation_wraps_and_syncs_its_scrollbar() {
    let mut app = App::new(Vec::new());
    app.load_music_files(vec![entry("a", "mp3"), entry("b", "mp3"), entry("c", "mp3")]);
    app.music_list_next();
    assert_eq!(app.music_list_state.selected, Some(1));
    assert_eq!(app.music_list_state.scroll_position, 1);
    app.music_list_next();
    app.music_list_next();
    assert_eq!(app.music_list_state.selected, Some(0));
    app.music_list_previous();
    assert_eq!(app.music_list_state.selected, Some(2));
    assert_eq!(app.music_list_state.scroll_position, 2);
}

#[test]
fn arrows_in_the_music_region_move_the_music_selection() {
    let mut app = App::new(Vec::new());
    app.show_dashboard = false;
    app.load_music_files(vec![entry("a", "mp3"), entry("b", "mp3")]);
    app.open_window_sized(WindowType::PomodoroSettings, 100, 40);
    // Tab twice moves the focus onto the music region.
    app.handle_key_event(Key::Tab);
    app.handle_key_event(Key::Tab);
    app.handle_key_event(Key::Down);
    assert_eq!(app.music_list_state.selected, Some(1));
    app.handle_key_event(Key::Up);
    assert_eq!(app.music_list_state.selected, Some(0));
}

#[test]
fn enter_in_the_music_region_asks_to_start_the_selection() {
    let mut app = App::new(Vec::new());
    app.show_dashboard = false;
    app.load_music_files(vec![entry("a", "mp3"), entry("b", "mp3")]);
    app.open_window_sized(WindowType::PomodoroSettings, 100, 40);
    app.handle_key_event(Key::Tab);
    app.handle_key_event(Key::Tab);
    let eff = app.handle_key_event(Key::Enter);
    assert_eq!(eff, AudioEffect::Start { index: 0 });
    // The settings window stays open: Enter does not close it.
    assert!(app.active_window.is_some());
}

#[test]
fn sort_is_by_code_point_order() {
    let mut app = App::new(Vec::new());
    app.load_music_files(vec![
        entry("Bravo", "mp3"),
        entry("alpha", "mp3"),
        entry("42", "mp3"),
    ]);
    let names: Vec<&str> = app.music_files.iter().map(|f| f.name.as_str()).collect();
    assert_eq!(names, vec!["42", "Bravo", "alpha"]);
}
