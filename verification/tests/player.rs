use mprisbee_bridge::command::SocketCommand;
use mprisbee_bridge::json::Double;
use mprisbee_bridge::message::MprisMessage;
use mprisbee_bridge::metadata::Metadata;
use mprisbee_bridge::mpris::{LoopStatus, PlaybackStatus, Time, TrackId};
use mprisbee_bridge::notification::{notify, Options};
use mprisbee_bridge::player::{Effect, Player, PlayerState, Property};

fn track(path: &str) -> Metadata {
    let mut metadata = Metadata::new();
    metadata.trackid = Some(TrackId::named(path));
    metadata.title = Some(format!("Title of {}", path));
    metadata.artist = Some(vec!["One".to_string(), "Two".to_string()]);
    metadata
}

fn art(path: &str, url: &str) -> SocketCommand {
    SocketCommand::ArtUpdate(TrackId::named(path), Some(url.to_string()))
}

#[test]
fn initial_state() {
    let player = Player::new();
    assert_eq!(player.playback_status(), PlaybackStatus::Stopped);
    assert_eq!(player.loop_status(), LoopStatus::Off);
    assert!(!player.shuffle());
    assert!(player.metadata().trackid.is_none());
    assert_eq!(player.volume(), Double { bits: 0.0f64.to_bits() });
    assert_eq!(player.position(), Time { micros: 0 });
    assert!(player.can_go_next());
    assert!(player.can_go_previous());
    assert!(player.can_play());
    assert!(player.can_pause());
    assert!(player.can_seek());
}

#[test]
fn commands_are_read_back() {
    let mut player = Player::new();
    assert!(matches!(
        player.state.apply(SocketCommand::Play),
        Effect::PropertiesChanged(Property::PlaybackStatus(PlaybackStatus::Playing))
    ));
    assert_eq!(player.playback_status(), PlaybackStatus::Playing);
    assert!(matches!(
        player.state.apply(SocketCommand::Pause),
        Effect::PropertiesChanged(Property::PlaybackStatus(PlaybackStatus::Paused))
    ));
    assert_eq!(player.playback_status(), PlaybackStatus::Paused);
    assert!(matches!(
        player.state.apply(SocketCommand::Stop),
        Effect::PropertiesChanged(Property::PlaybackStatus(PlaybackStatus::Stopped))
    ));
    assert_eq!(player.playback_status(), PlaybackStatus::Stopped);
    assert!(matches!(
        player.state.apply(SocketCommand::Seek(Time { micros: 9 })),
        Effect::Seeked(Time { micros: 9 })
    ));
    assert_eq!(player.position(), Time { micros: 9 });
    assert!(matches!(
        player.state.apply(SocketCommand::Shuffle(true)),
        Effect::PropertiesChanged(Property::Shuffle(true))
    ));
    assert!(player.shuffle());
    assert!(matches!(
        player.state.apply(SocketCommand::LoopStatus(LoopStatus::Playlist)),
        Effect::PropertiesChanged(Property::LoopStatus(LoopStatus::Playlist))
    ));
    assert_eq!(player.loop_status(), LoopStatus::Playlist);
    assert!(matches!(player.state.apply(SocketCommand::Exit), Effect::Stop));
    assert_eq!(player.position(), Time { micros: 9 });
}

#[test]
fn metadata_are_read_back() {
    let mut player = Player::new();
    match player.state.apply(SocketCommand::MetadataChange(track("/a"))) {
        Effect::PropertiesChanged(Property::Metadata(told)) => {
            assert_eq!(told.title, Some("Title of /a".to_string()));
        }
        other => panic!("{:?}", other),
    }
    let read = player.metadata();
    assert_eq!(read.trackid.unwrap().as_str(), "/a");
    assert_eq!(read.artist, Some(vec!["One".to_string(), "Two".to_string()]));
}

#[test]
fn art_for_the_current_track() {
    let mut player = Player::new();
    player.state.apply(SocketCommand::MetadataChange(track("/a")));
    match player.state.apply(art("/a", "file:///c.png")) {
        Effect::PropertiesChanged(Property::Metadata(told)) => {
            assert_eq!(told.art_url, Some("file:///c.png".to_string()));
            assert_eq!(told.title, Some("Title of /a".to_string()));
        }
        other => panic!("{:?}", other),
    }
    assert_eq!(player.metadata().art_url, Some("file:///c.png".to_string()));
    player.state.apply(SocketCommand::ArtUpdate(TrackId::named("/a"), None));
    assert_eq!(player.metadata().art_url, None);
}

#[test]
fn art_for_another_track() {
    let mut player = Player::new();
    assert!(matches!(player.state.apply(art("/a", "x")), Effect::Nothing));
    player.state.apply(SocketCommand::MetadataChange(track("/a")));
    assert!(matches!(player.state.apply(art("/b", "x")), Effect::ForeignArt));
    assert_eq!(player.metadata().art_url, None);
}

#[test]
fn new_metadata_drop_the_art() {
    let mut player = Player::new();
    player.state.apply(SocketCommand::MetadataChange(track("/a")));
    player.state.apply(art("/a", "x"));
    player.state.apply(SocketCommand::MetadataChange(track("/a")));
    assert_eq!(player.metadata().art_url, None);
}

#[test]
fn abilities_stay() {
    let mut player = Player::new();
    for command in [
        SocketCommand::Play,
        SocketCommand::Seek(Time { micros: 1 }),
        SocketCommand::MetadataChange(track("/a")),
        SocketCommand::Exit,
    ] {
        player.state.apply(command);
        assert!(player.can_go_next() && player.can_go_previous() && player.can_play());
        assert!(player.can_pause() && player.can_seek());
        assert_eq!(player.volume(), Double { bits: 0 });
    }
}

#[test]
fn the_play_pause_button() {
    let mut state = PlayerState::default();
    state.switch_playback_status();
    assert_eq!(state.playback_status, PlaybackStatus::Playing);
    state.switch_playback_status();
    assert_eq!(state.playback_status, PlaybackStatus::Paused);
    state.switch_playback_status();
    assert_eq!(state.playback_status, PlaybackStatus::Playing);
}

#[test]
fn requests_that_become_messages() {
    assert!(matches!(Player::next(), Some(MprisMessage::Next)));
    assert!(matches!(Player::previous(), Some(MprisMessage::Previous)));
    assert!(matches!(Player::pause(), Some(MprisMessage::Pause)));
    assert!(matches!(Player::play_pause(), Some(MprisMessage::PlayPause)));
    assert!(matches!(Player::stop(), Some(MprisMessage::Stop)));
    assert!(matches!(Player::play(), Some(MprisMessage::Play)));
    assert!(matches!(
        Player::seek(Time { micros: -3 }),
        Some(MprisMessage::Seek(Time { micros: -3 }))
    ));
}

#[test]
fn requests_that_are_ignored() {
    let half = Double { bits: 0.5f64.to_bits() };
    assert!(Player::raise().is_none());
    assert!(Player::quit().is_none());
    assert!(Player::set_fullscreen(true).is_none());
    assert!(Player::set_position(&TrackId::named("/a"), Time { micros: 1 }).is_none());
    assert!(Player::open_uri("file:///a").is_none());
    assert!(Player::set_loop_status(LoopStatus::Track).is_none());
    assert!(Player::set_rate(half).is_none());
    assert!(Player::set_shuffle(true).is_none());
    assert!(Player::set_volume(half).is_none());
}

#[test]
fn fixed_answers() {
    assert!(!Player::can_quit());
    assert!(!Player::fullscreen());
    assert!(!Player::can_set_fullscreen());
    assert!(Player::can_raise());
    assert!(!Player::has_track_list());
    assert!(Player::can_control());
    assert_eq!(Player::identity(), "MusicBee");
    assert_eq!(Player::desktop_entry(), "MusicBee");
    assert_eq!(Player::supported_uri_schemes(), vec!["file".to_string()]);
    assert!(Player::supported_mime_types().is_empty());
    for rate in [Player::rate(), Player::minimum_rate(), Player::maximum_rate()] {
        assert_eq!(f64::from_bits(rate.bits), 1.0);
    }
}

#[test]
fn options_of_the_program() {
    let args = |list: &[&str]| list.iter().map(|a| a.to_string()).collect::<Vec<String>>();
    assert!(Options::from_args(&args(&["-n"])).notifications);
    assert!(Options::from_args(&args(&["x", "--notifications"])).notifications);
    assert!(!Options::from_args(&args(&[])).notifications);
    assert!(!Options::from_args(&args(&["-nn", "notifications", "-N"])).notifications);
}

#[test]
fn notification_on_track_change() {
    let on = Options { notifications: true };
    let mut state = PlayerState::default();
    let command = SocketCommand::MetadataChange(track("/a"));
    let notification = notify(&on, &state, &command).unwrap();
    assert_eq!(notification.summary, "Title of /a");
    assert_eq!(notification.body, "One, Two");
    assert!(notify(&Options { notifications: false }, &state, &command).is_none());
    state.apply(command);
    assert!(notify(&on, &state, &SocketCommand::MetadataChange(track("/a"))).is_none());
    assert!(notify(&on, &state, &SocketCommand::MetadataChange(track("/b"))).is_some());
    assert!(notify(&on, &state, &SocketCommand::Play).is_none());
}

/// Follows commands up to the first that says to stop.
fn follow(state: &mut PlayerState, commands: Vec<SocketCommand>) {
    for command in commands {
        if matches!(state.apply(command), Effect::Stop) {
            return;
        }
    }
}

#[test]
fn nothing_follows_exit() {
    let mut state = PlayerState::default();
    follow(
        &mut state,
        vec![SocketCommand::Play, SocketCommand::Exit, SocketCommand::Stop],
    );
    assert_eq!(state.playback_status, PlaybackStatus::Playing);
}

#[test]
fn two_runs_have_the_effect_of_one() {
    let seek = |micros| SocketCommand::Seek(Time { micros });
    let mut twice = PlayerState::default();
    follow(&mut twice, vec![SocketCommand::Play, seek(1)]);
    follow(&mut twice, vec![SocketCommand::Shuffle(true), seek(2)]);
    let mut once = PlayerState::default();
    follow(
        &mut once,
        vec![SocketCommand::Play, seek(1), SocketCommand::Shuffle(true), seek(2)],
    );
    assert_eq!(format!("{:?}", once), format!("{:?}", twice));
}

#[test]
fn repetition_changes_nothing() {
    let commands: [fn() -> SocketCommand; 4] = [
        || SocketCommand::MetadataChange(track("/a")),
        || art("/a", "x"),
        || SocketCommand::Seek(Time { micros: 4 }),
        || SocketCommand::Pause,
    ];
    let mut state = PlayerState::default();
    for command in commands {
        state.apply(command());
        let before = format!("{:?}", state);
        state.apply(command());
        assert_eq!(format!("{:?}", state), before);
    }
}

#[test]
fn commands_leave_the_rest() {
    let mut state = PlayerState::default();
    state.apply(SocketCommand::MetadataChange(track("/a")));
    state.apply(SocketCommand::Seek(Time { micros: 4 }));
    state.apply(SocketCommand::LoopStatus(LoopStatus::Track));
    state.apply(SocketCommand::Stop);
    assert_eq!(state.position, Time { micros: 4 });
    assert_eq!(state.loop_status, LoopStatus::Track);
    assert!(!state.shuffle);
    assert_eq!(state.metadata.title, Some("Title of /a".to_string()));
}
