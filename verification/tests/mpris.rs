use cosmic_connect::error::ProtocolError;
use cosmic_connect::mpris::{
    call_player_method, discover_players, player_bus_name, LoopStatus, MonitoredPlayers,
    PlaybackStatus, PlayerMetadata, PlayerMethod, PlayerProperties, PlayerState,
};

fn no_properties() -> PlayerProperties {
    PlayerProperties {
        playback_status: None,
        loop_status: None,
        identity: None,
        position: None,
        shuffle: None,
        can_play: None,
        can_pause: None,
        can_go_next: None,
        can_go_previous: None,
        can_seek: None,
    }
}

#[test]
fn test_playback_status() {
    assert_eq!(PlaybackStatus::from_str("Playing"), PlaybackStatus::Playing);
    assert_eq!(PlaybackStatus::from_str("Paused"), PlaybackStatus::Paused);
    assert_eq!(PlaybackStatus::from_str("Stopped"), PlaybackStatus::Stopped);
    assert!(PlaybackStatus::Playing.is_playing());
    assert!(!PlaybackStatus::Paused.is_playing());
}

#[test]
fn test_loop_status() {
    assert_eq!(LoopStatus::from_str("None"), LoopStatus::Off);
    assert_eq!(LoopStatus::from_str("Track"), LoopStatus::Track);
    assert_eq!(LoopStatus::from_str("Playlist"), LoopStatus::Playlist);
    assert_eq!(LoopStatus::Off.as_str(), "None");
    assert_eq!(LoopStatus::Track.as_str(), "Track");
}

#[test]
fn unknown_status_words_fall_back() {
    for s in ["", "playing", "PLAYING", "Playing ", "Stop"] {
        assert_eq!(PlaybackStatus::from_str(s), PlaybackStatus::Stopped);
        assert!(!PlaybackStatus::from_str(s).is_playing());
    }
    for s in ["", "track", "Off", "none"] {
        assert_eq!(LoopStatus::from_str(s), LoopStatus::Off);
    }
    for status in [LoopStatus::Off, LoopStatus::Track, LoopStatus::Playlist] {
        assert_eq!(LoopStatus::from_str(status.as_str()), status);
    }
    assert_eq!(LoopStatus::Playlist.as_str(), "Playlist");
}

#[test]
fn only_the_six_controls_may_be_called() {
    let all = [
        ("Play", PlayerMethod::Play),
        ("Pause", PlayerMethod::Pause),
        ("PlayPause", PlayerMethod::PlayPause),
        ("Stop", PlayerMethod::Stop),
        ("Next", PlayerMethod::Next),
        ("Previous", PlayerMethod::Previous),
    ];
    for (name, method) in all {
        assert_eq!(call_player_method(name), Ok(method));
        assert_eq!(method.as_str(), name);
        assert_eq!(PlayerMethod::from_str(name), Some(method));
    }
    assert_eq!(
        call_player_method("Seek"),
        Err(ProtocolError::Plugin("Unknown method: Seek".to_string()))
    );
    assert_eq!(call_player_method("play"), Err(ProtocolError::Plugin("Unknown method: play".to_string())));
    assert_eq!(call_player_method(""), Err(ProtocolError::Plugin("Unknown method: ".to_string())));
}

#[test]
fn players_are_the_names_with_the_prefix() {
    let names: Vec<String> = [
        "org.freedesktop.DBus",
        "org.mpris.MediaPlayer2.vlc",
        ":1.42",
        "org.mpris.MediaPlayer2.",
        "org.mpris.MediaPlayer2",
        "org.mpris.MediaPlayer2.firefox.instance_1",
        "xorg.mpris.MediaPlayer2.mpv",
    ]
    .iter()
    .map(|s| s.to_string())
    .collect();
    assert_eq!(discover_players(&names), vec!["vlc", "", "firefox.instance_1"]);
    assert_eq!(discover_players(&vec![]), Vec::<String>::new());
    assert_eq!(player_bus_name("vlc"), "org.mpris.MediaPlayer2.vlc");
    assert_eq!(discover_players(&vec![player_bus_name("späti")]), vec!["späti"]);
}

#[test]
fn player_state_defaults() {
    let state = PlayerState::query_player_state("vlc", no_properties(), PlayerMetadata::default());
    let mut expect = PlayerState::default();
    expect.name = "vlc".to_string();
    expect.identity = "vlc".to_string();
    assert_eq!(state, expect);
    assert_eq!(expect.playback_status, PlaybackStatus::Stopped);
    assert_eq!(expect.loop_status, LoopStatus::Off);
    assert_eq!(expect.position, 0);
    assert!(!expect.shuffle);
    assert!(expect.can_play && expect.can_pause && expect.can_go_next);
    assert!(expect.can_go_previous && expect.can_seek);
    assert_eq!(
        PlayerMetadata::default(),
        PlayerMetadata { artist: None, title: None, album: None, album_art_url: None, length: 0 }
    );
}

#[test]
fn player_state_takes_what_was_reported() {
    let properties = PlayerProperties {
        playback_status: Some("Playing".to_string()),
        loop_status: Some("Playlist".to_string()),
        identity: Some("VLC media player".to_string()),
        position: Some(1_500_000),
        shuffle: Some(true),
        can_play: Some(false),
        can_pause: Some(true),
        can_go_next: Some(false),
        can_go_previous: None,
        can_seek: Some(false),
    };
    let metadata = PlayerMetadata::from_properties(
        Some("Artist".to_string()),
        Some("Title".to_string()),
        None,
        Some("file:///cover.png".to_string()),
        Some(240_000_000),
    );
    let state = PlayerState::query_player_state("vlc", properties, metadata.clone());
    assert_eq!(state.name, "vlc");
    assert_eq!(state.identity, "VLC media player");
    assert_eq!(state.playback_status, PlaybackStatus::Playing);
    assert_eq!(state.loop_status, LoopStatus::Playlist);
    assert_eq!(state.position, 1_500_000);
    assert!(state.shuffle && !state.can_play && state.can_pause && !state.can_go_next);
    assert!(state.can_go_previous && !state.can_seek);
    assert_eq!(state.metadata, metadata);
    assert_eq!(metadata.length, 240_000_000);
    assert_eq!(metadata.album, None);
    assert_eq!(state.duplicate(), state);
    assert_eq!(PlayerMetadata::from_properties(None, None, None, None, None), PlayerMetadata::default());
}

#[test]
fn monitored_players_are_kept_by_name() {
    let mut players = MonitoredPlayers::new();
    assert!(players.get_player_list().is_empty());
    assert_eq!(players.get_player_state("vlc"), None);
    let vlc = PlayerState::query_player_state("vlc", no_properties(), PlayerMetadata::default());
    let mut mpv = PlayerState::query_player_state("mpv", no_properties(), PlayerMetadata::default());
    players.start_monitoring("vlc", vlc.clone());
    players.start_monitoring("mpv", mpv.clone());
    assert_eq!(players.get_player_list(), vec!["vlc", "mpv"]);
    assert_eq!(players.get_player_state("vlc"), Some(vlc.clone()));
    mpv.position = 9;
    players.start_monitoring("mpv", mpv.clone());
    assert_eq!(players.get_player_list(), vec!["vlc", "mpv"]);
    assert_eq!(players.get_player_state("mpv").unwrap().position, 9);
    players.stop_monitoring("vlc");
    players.stop_monitoring("never-there");
    assert_eq!(players.get_player_list(), vec!["mpv"]);
    assert_eq!(players.get_player_state("vlc"), None);
}
