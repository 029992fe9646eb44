use azalea_shell::media::{format_time, player_label, Action, Effect, Event, Input, Metadata, Model, PlaybackStatus};

fn effects_debug(fx: &[Effect]) -> Vec<String> {
    fx.iter().map(|e| format!("{:?}", e)).collect()
}

#[test]
fn format_time_minutes_and_seconds() {
    assert_eq!(format_time(62_000_000), "01:02");
    assert_eq!(format_time(0), "00:00");
    assert_eq!(format_time(59_999_999), "00:59");
}

#[test]
fn format_time_with_hours() {
    assert_eq!(format_time(3_723_000_000), "01:02:03");
    assert_eq!(format_time(36_000_000_000), "10:00:00");
    assert_eq!(format_time(360_000_000_000), "100:00:00");
}

#[test]
fn format_time_negative_values() {
    assert_eq!(format_time(-5_000_000), "00:-5");
    assert_eq!(format_time(-3_661_000_000), "-1:-1:-1");
}

#[test]
fn format_time_extremes_do_not_panic() {
    assert_eq!(format_time(i64::MAX), "2562047788:00:54");
    assert_eq!(format_time(i64::MIN), "-2562047788:00:-54");
}

#[test]
fn player_label_strips_mpris_prefix() {
    assert_eq!(player_label("org.mpris.MediaPlayer2.spotify"), "spotify");
    assert_eq!(player_label("vlc"), "vlc");
}

#[test]
fn first_player_is_selected_and_added_to_menu() {
    let mut m = Model::new();
    let fx = m.update(Input::Event("org.mpris.MediaPlayer2.vlc".to_string(), Event::Volume));
    assert_eq!(
        effects_debug(&fx),
        vec![
            "AddMenuEntry(\"org.mpris.MediaPlayer2.vlc\")".to_string(),
            "UnloadArt".to_string(),
            "RequestPositionAndRate(\"org.mpris.MediaPlayer2.vlc\")".to_string(),
        ]
    );
    assert_eq!(m.title(), "no title");
    assert_eq!(m.artist(), "no artist");
    assert_eq!(m.length(), "00:00");
    assert!(!m.is_playing());
}

#[test]
fn second_player_does_not_take_selection_unless_music() {
    let mut m = Model::new();
    m.update(Input::Event("firefox".to_string(), Event::Volume));
    let fx = m.update(Input::Event("chromium".to_string(), Event::Volume));
    assert_eq!(effects_debug(&fx), vec!["AddMenuEntry(\"chromium\")".to_string()]);
    let fx = m.update(Input::Event("org.mpris.MediaPlayer2.YouTubeMusic".to_string(), Event::Volume));
    assert_eq!(fx.len(), 3);
    let fx = m.update(Input::Action(Action::Next));
    assert_eq!(
        effects_debug(&fx),
        vec!["Control(Next, \"org.mpris.MediaPlayer2.YouTubeMusic\")".to_string()]
    );
}

#[test]
fn metadata_updates_selected_player() {
    let mut m = Model::new();
    m.update(Input::Event("p".to_string(), Event::Volume));
    let fx = m.update(Input::Event(
        "p".to_string(),
        Event::Metadata(Metadata {
            title: Some("Song".to_string()),
            artist: Some(vec!["A".to_string(), "B".to_string()]),
            length: Some(185_000_000),
            art_url: Some("http://x/cover.png".to_string()),
        }),
    ));
    assert_eq!(
        effects_debug(&fx),
        vec!["LoadArt(\"http://x/cover.png\")".to_string(), "RequestPositionAndRate(\"p\")".to_string()]
    );
    assert_eq!(m.title(), "Song");
    assert_eq!(m.artist(), "A");
    assert_eq!(m.length(), "03:05");
}

#[test]
fn metadata_with_empty_artist_list_shows_no_artist() {
    let mut m = Model::new();
    m.update(Input::Event(
        "p".to_string(),
        Event::Metadata(Metadata { title: None, artist: Some(vec![]), length: None, art_url: None }),
    ));
    assert_eq!(m.artist(), "no artist");
}

#[test]
fn status_and_position_of_selected_player() {
    let mut m = Model::new();
    m.update(Input::Event("p".to_string(), Event::Volume));
    m.update(Input::Event("q".to_string(), Event::Volume));
    m.update(Input::Event("p".to_string(), Event::PlaybackStatus(PlaybackStatus::Playing)));
    assert!(m.is_playing());
    let fx = m.update(Input::Event("p".to_string(), Event::Position(42)));
    assert_eq!(effects_debug(&fx), vec!["SetPosition(42)".to_string()]);
    let fx = m.update(Input::Event("q".to_string(), Event::Position(7)));
    assert!(fx.is_empty());
    let fx = m.update(Input::Event("q".to_string(), Event::PlaybackRate));
    assert_eq!(effects_debug(&fx), vec!["StoreRate(\"q\")".to_string()]);
}

#[test]
fn select_and_action_without_selection() {
    let mut m = Model::new();
    assert!(m.update(Input::Action(Action::PlayPause)).is_empty());
    let fx = m.update(Input::Select("q".to_string()));
    assert_eq!(effects_debug(&fx), vec!["RequestMetadata(\"q\")".to_string()]);
    assert_eq!(m.title(), "no title");
}

#[test]
fn compact_widget_selects_only_music_players() {
    let mut m = Model::new();
    let fx = m.update_compact("vlc".to_string(), Event::PlaybackStatus(PlaybackStatus::Playing));
    assert!(fx.is_empty());
    assert!(!m.is_revealed());
    let fx = m.update_compact("Music".to_string(), Event::PlaybackStatus(PlaybackStatus::Paused));
    assert_eq!(effects_debug(&fx), vec!["ResetPosition".to_string()]);
    assert!(m.is_revealed());
    let fx = m.update_compact(
        "Music".to_string(),
        Event::Metadata(Metadata { title: Some("T".to_string()), artist: None, length: Some(1_000_000), art_url: None }),
    );
    assert_eq!(effects_debug(&fx), vec!["UnloadArt".to_string(), "ResetPosition".to_string()]);
    assert_eq!(m.title(), "T");
    assert_eq!(m.length(), "00:01");
}

#[test]
fn time_label_fields_add_up() {
    // 2 h 3 min 4 s and a fraction.
    assert_eq!(format_time(7_384_999_999), "02:03:04");
    assert_eq!(format_time(3_599_999_999), "59:59");
    assert_eq!(format_time(3_600_000_000), "01:00:00");
}
