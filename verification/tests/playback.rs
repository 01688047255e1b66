use dwxdy::app::App;
use dwxdy::music::{AudioEffect, PlaybackState, ScannedFile};

fn entry(stem: &str, ext: &str) -> ScannedFile {
    ScannedFile {
        stem: stem.to_string(),
        extension: ext.to_string(),
        path: format!("/music/{}.{}", stem, ext),
    }
}

fn app_with_two_files() -> App {
    let mut app = App::new(Vec::new());
    app.show_dashboard = false;
    app.load_music_files(vec![entry("alpha", "mp3"), entry("beta", "wav")]);
    app
}

#[test]
fn play_then_play_leaves_one_live_resource_on_the_second_file() {
    let mut app = app_with_two_files();
    app.note_playback_result(0, true);
    app.note_playback_result(1, true);
    assert!(app.sink_live);
    assert_eq!(app.music_player_state.current_playing_index, Some(1));
    assert_eq!(app.music_player_state.playback_state, PlaybackState::Playing);
}

#[test]
fn stop_twice_equals_stop_once() {
    let mut app = app_with_two_files();
    app.note_playback_result(0, true);
    let eff1 = app.stop_music();
    let after_once = (
        app.music_player_state.playback_state,
        app.music_player_state.current_playing_index,
        app.sink_live,
    );
    let eff2 = app.stop_music();
    let after_twice = (
        app.music_player_state.playback_state,
        app.music_player_state.current_playing_index,
        app.sink_live,
    );
    assert_eq!(eff1, AudioEffect::Stop);
    assert_eq!(eff2, AudioEffect::Stop);
    assert_eq!(after_once, after_twice);
    assert_eq!(after_once.0, PlaybackState::Stopped);
    assert_eq!(after_once.1, Some(0));
    assert!(!after_once.2);
}

#[test]
fn toggle_without_play_or_index_is_a_noop() {
    let mut app = app_with_two_files();
    let eff = app.toggle_playback();
    assert_eq!(eff, AudioEffect::Nothing);
    assert_eq!(app.music_player_state.playback_state, PlaybackState::Stopped);
    assert_eq!(app.music_player_state.current_playing_index, None);
    assert!(!app.sink_live);
}

#[test]
fn toggle_flips_between_playing_and_paused() {
    let mut app = app_with_two_files();
    app.note_playback_result(0, true);
    let eff = app.toggle_playback();
    assert_eq!(eff, AudioEffect::Pause);
    assert_eq!(app.music_player_state.playback_state, PlaybackState::Paused);
    let eff = app.toggle_playback();
    assert_eq!(eff, AudioEffect::Resume);
    assert_eq!(app.music_player_state.playback_state, PlaybackState::Playing);
}

#[test]
fn toggle_after_a_lost_resource_retries_the_recorded_file() {
    let mut app = app_with_two_files();
    app.note_playback_result(1, true);
    app.stop_music();
    let eff = app.toggle_playback();
    assert_eq!(eff, AudioEffect::Start { index: 1 });
}

#[test]
fn a_failed_start_resets_to_stopped_but_keeps_the_index() {
    let mut app = app_with_two_files();
    app.note_playback_result(0, false);
    assert!(!app.sink_live);
    assert_eq!(app.music_player_state.playback_state, PlaybackState::Stopped);
    assert_eq!(app.music_player_state.current_playing_index, Some(0));
}

#[test]
fn play_selected_music_names_the_selected_file() {
    let app = app_with_two_files();
    assert_eq!(app.play_selected_music(), AudioEffect::Start { index: 0 });
    let empty = App::new(Vec::new());
    assert_eq!(empty.play_selected_music(), AudioEffect::Nothing);
}

#[test]
fn default_player_volume_is_eighty_percent() {
    let app = App::new(Vec::new());
    assert_eq!(app.music_player_state.volume_percent, 80);
    assert_eq!(app.music_player_state.current_position, None);
}
