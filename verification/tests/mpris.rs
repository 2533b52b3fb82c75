use mprisbee_bridge::mpris::{millis_fit, LoopStatus, Time, TrackId};

#[test]
fn milliseconds_become_microseconds() {
    assert_eq!(Time::from_millis(5).as_micros(), 5000);
    assert_eq!(Time::from_millis(-5).as_micros(), -5000);
    assert_eq!(Time::from_millis(9223372036854775).as_micros(), 9223372036854775000);
    assert_eq!(Time::from_millis(-9223372036854775).as_micros(), -9223372036854775000);
}

#[test]
fn milliseconds_in_range() {
    assert!(millis_fit(9223372036854775));
    assert!(!millis_fit(9223372036854776));
    assert!(millis_fit(-9223372036854775));
    assert!(!millis_fit(-9223372036854776));
    assert!(!millis_fit(i64::MAX));
    assert!(!millis_fit(i64::MIN));
}

#[test]
fn object_paths_are_track_ids() {
    for path in ["/", "/Path/t0/0bject", "/org/musicbee/track/unknown", "/_"] {
        assert_eq!(TrackId::named(path).as_str(), path);
    }
}

#[test]
fn other_texts_are_the_root_track() {
    for path in ["", "//", ".", "a", "/double//slashes", "/end/with/slash/", "/ha.d", "/ä", "/a b"] {
        assert_eq!(TrackId::named(path).as_str(), "/");
    }
}

#[test]
fn copies_are_the_same_track() {
    let id = TrackId::named("/a");
    assert!(id.same_as(&id.copy()));
    assert!(!id.same_as(&TrackId::named("/b")));
}

#[test]
fn loop_status_names() {
    assert_eq!(LoopStatus::named("None"), LoopStatus::Off);
    assert_eq!(LoopStatus::named("Track"), LoopStatus::Track);
    assert_eq!(LoopStatus::named("Playlist"), LoopStatus::Playlist);
    assert_eq!(LoopStatus::named("playlist"), LoopStatus::Off);
    assert_eq!(LoopStatus::named(""), LoopStatus::Off);
    for status in [LoopStatus::Off, LoopStatus::Track, LoopStatus::Playlist] {
        assert_eq!(LoopStatus::named(status.as_str()), status);
    }
    assert_eq!(LoopStatus::Off.as_str(), "None");
}
