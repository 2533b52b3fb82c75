use mprisbee_bridge::json::{parse, Double};
use mprisbee_bridge::message::{encode, message_fields, MprisMessage};
use mprisbee_bridge::mpris::{LoopStatus, Time, TrackId};

fn position() -> MprisMessage {
    MprisMessage::SetPosition(TrackId::named("/a/b"), Time { micros: 7 })
}

fn volume(level: f64) -> MprisMessage {
    MprisMessage::SetVolume(Double { bits: level.to_bits() })
}

#[test]
fn lines_of_the_messages() {
    assert_eq!(encode(&MprisMessage::Next), "{\"event\":\"next\"}\n");
    assert_eq!(encode(&MprisMessage::Previous), "{\"event\":\"previous\"}\n");
    assert_eq!(encode(&MprisMessage::Pause), "{\"event\":\"pause\"}\n");
    assert_eq!(encode(&MprisMessage::PlayPause), "{\"event\":\"playpause\"}\n");
    assert_eq!(encode(&MprisMessage::Stop), "{\"event\":\"stop\"}\n");
    assert_eq!(encode(&MprisMessage::Play), "{\"event\":\"play\"}\n");
    assert_eq!(
        encode(&MprisMessage::Seek(Time { micros: -5000000 })),
        "{\"event\":\"seek\",\"offset\":-5000000}\n"
    );
    assert_eq!(
        encode(&position()),
        "{\"event\":\"position\",\"position\":7,\"trackid\":\"/a/b\"}\n"
    );
    assert_eq!(
        encode(&MprisMessage::SetLoopStatus(LoopStatus::Off)),
        "{\"event\":\"loop_status\",\"status\":\"None\"}\n"
    );
    assert_eq!(
        encode(&MprisMessage::SetLoopStatus(LoopStatus::Playlist)),
        "{\"event\":\"loop_status\",\"status\":\"Playlist\"}\n"
    );
    assert_eq!(
        encode(&MprisMessage::SetShuffle(true)),
        "{\"event\":\"shuffle\",\"shuffle\":true}\n"
    );
    assert_eq!(encode(&volume(0.5)), "{\"event\":\"volume\",\"volume\":0.5}\n");
}

#[test]
fn volume_that_is_no_number() {
    assert_eq!(encode(&volume(f64::NAN)), "{\"event\":\"volume\",\"volume\":null}\n");
    assert_eq!(encode(&volume(f64::INFINITY)), "{\"event\":\"volume\",\"volume\":null}\n");
}

#[test]
fn members_are_read_back() {
    let line = encode(&position());
    let json = parse(&line[..line.len() - 1]).unwrap();
    assert_eq!(json.text_field("event"), Some("position"));
    assert_eq!(json.text_field("trackid"), Some("/a/b"));
    assert_eq!(json.integer_field("position"), Some(7));
    for micros in [i64::MIN, -1, 0, i64::MAX] {
        let line = encode(&MprisMessage::Seek(Time { micros }));
        assert_eq!(parse(line.trim_end()).unwrap().integer_field("offset"), Some(micros));
    }
}

#[test]
fn volume_is_read_back() {
    let line = encode(&volume(0.5));
    let json = parse(line.trim_end()).unwrap();
    assert_eq!(json.text_field("event"), Some("volume"));
    assert_eq!(json.double_field("volume"), Some(Double { bits: 0.5f64.to_bits() }));
}

#[test]
fn one_line_break_at_the_end() {
    for message in [MprisMessage::Next, position(), volume(0.1), volume(f64::NAN)] {
        let line = encode(&message);
        assert_eq!(line.matches('\n').count(), 1);
        assert!(line.ends_with('\n'));
    }
}

#[test]
fn different_messages_have_different_lines() {
    let lines: Vec<String> = vec![
        encode(&MprisMessage::Pause),
        encode(&MprisMessage::Play),
        encode(&MprisMessage::PlayPause),
        encode(&MprisMessage::Seek(Time { micros: 1 })),
        encode(&MprisMessage::Seek(Time { micros: 2 })),
        encode(&MprisMessage::SetShuffle(true)),
        encode(&MprisMessage::SetShuffle(false)),
        encode(&MprisMessage::SetLoopStatus(LoopStatus::Track)),
        encode(&MprisMessage::SetLoopStatus(LoopStatus::Off)),
    ];
    for i in 0..lines.len() {
        for j in 0..i {
            assert_ne!(lines[i], lines[j]);
        }
    }
}

#[test]
fn number_of_members() {
    assert_eq!(message_fields(&MprisMessage::Next).len(), 1);
    assert_eq!(message_fields(&MprisMessage::SetShuffle(false)).len(), 2);
    assert_eq!(message_fields(&position()).len(), 3);
}
