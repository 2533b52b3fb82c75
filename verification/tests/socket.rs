use mprisbee_bridge::command::{decode, find_failure, Decoded, Failure, SocketCommand};
use mprisbee_bridge::json::{parse, Double, Entry, Json};
use mprisbee_bridge::message::MprisMessage;
use mprisbee_bridge::metadata::{to_file_url, Metadata};
use mprisbee_bridge::mpris::{LoopStatus, Time};
use mprisbee_bridge::socket::{
    find_wineprefix, Skipped, SocketAction, SocketEvent, SocketHandler,
};

const PREFIX: &str = "/home/user/Programs/MusicBee/";

fn handler() -> SocketHandler {
    let mut handler = SocketHandler::for_user(1000);
    assert!(handler.adopt_environ(&vec![
        "HOME=/home/user".to_string(),
        format!("WINEPREFIX={}", PREFIX),
    ]));
    handler
}

fn on_line(handler: &SocketHandler, line: &str) -> SocketAction {
    handler.run(&SocketEvent::Line(line.to_string()))
}

fn command(line: &str) -> SocketCommand {
    match on_line(&handler(), line) {
        SocketAction::Send(command) => command,
        other => panic!("no command: {:?}", other),
    }
}

fn metadata(members: &str) -> Metadata {
    match command(&format!("{{\"event\":\"metachange\",\"metadata\":{{{}}}}}", members)) {
        SocketCommand::MetadataChange(metadata) => metadata,
        other => panic!("no metadata: {:?}", other),
    }
}

fn texts(texts: &[&str]) -> Option<Vec<String>> {
    Some(texts.iter().map(|t| t.to_string()).collect())
}

#[test]
fn paths_of_the_socket() {
    let handler = SocketHandler::for_user(1000);
    assert_eq!(handler.socket_dir(), "/tmp/mprisbee1000");
    assert_eq!(handler.socket_path(), "/tmp/mprisbee1000/wine.sock");
    assert_eq!(handler.leftover_path(), "/tmp/mprisbee1000/wine-out");
    assert_eq!(SocketHandler::for_user(0).socket_dir(), "/tmp/mprisbee0");
}

#[test]
fn new_handler_is_for_the_current_user() {
    let handler = SocketHandler::new();
    assert_eq!(handler.uid, users::get_current_uid());
    assert_eq!(handler.wineprefix, None);
}

#[test]
fn first_wine_prefix_counts() {
    let environ = vec![
        "XWINEPREFIX=no".to_string(),
        "WINEPREFIX=/first/".to_string(),
        "WINEPREFIX=/second/".to_string(),
    ];
    assert_eq!(find_wineprefix(&environ), Some("/first/".to_string()));
    assert_eq!(find_wineprefix(&vec!["WINEPREFIX".to_string()]), None);
    assert_eq!(find_wineprefix(&vec!["WINEPREFIX=".to_string()]), Some(String::new()));
    assert_eq!(find_wineprefix(&vec![]), None);
}

#[test]
fn wine_prefix_is_kept_where_none_is_given() {
    let mut handler = handler();
    assert!(!handler.adopt_environ(&vec!["HOME=/".to_string()]));
    assert_eq!(handler.wineprefix, Some(PREFIX.to_string()));
    assert_eq!(handler.uid, 1000);
}

#[test]
fn file_urls() {
    assert_eq!(
        to_file_url("C:\\Music\\Song.mp3", PREFIX),
        "file:///home/user/Programs/MusicBee/drive_c/Music/Song.mp3"
    );
    assert_eq!(to_file_url("Z:\\home\\user\\a.flac", PREFIX), "file:///home/user/a.flac");
    assert_eq!(to_file_url("/home/user/a.flac", PREFIX), "file:///home/user/a.flac");
    assert_eq!(to_file_url("D:\\a", PREFIX), "file://D:/a");
    assert_eq!(to_file_url("C:/a", "/prefix"), "file:///prefixdrive_c/a");
    assert_eq!(to_file_url("", PREFIX), "file://");
}

#[test]
fn file_urls_have_no_backslash() {
    assert!(!to_file_url("C:\\a\\\\b\\C:\\", PREFIX).contains('\\'));
}

#[test]
fn full_metadata() {
    let m = metadata(concat_members().as_str());
    assert_eq!(m.trackid.unwrap().as_str(), "/org/musicbee/track/7");
    assert_eq!(m.title, Some("Title".to_string()));
    assert_eq!(m.length, Some(Time { micros: 215000000 }));
    assert_eq!(m.artist, texts(&["One", "Two"]));
    assert_eq!(m.album, Some("Album".to_string()));
    assert_eq!(
        m.url,
        Some("file:///home/user/Programs/MusicBee/drive_c/a.mp3".to_string())
    );
    assert_eq!(m.art_url, None);
    assert_eq!(m.disc_number, Some(1));
    assert_eq!(m.track_number, Some(12));
    assert_eq!(m.album_artist, texts(&["Band"]));
    assert_eq!(m.composer, texts(&["C"]));
    assert_eq!(m.lyricist, texts(&[]));
    assert_eq!(m.genre, texts(&["Rock", "Pop"]));
    assert_eq!(m.audio_bpm, Some(120));
    assert_eq!(m.content_created, Some("2001".to_string()));
    assert_eq!(m.user_rating, Some(Double { bits: 0.8f64.to_bits() }));
    assert_eq!(m.comment, texts(&["Nice"]));
}

fn concat_members() -> String {
    [
        "\"trackid\":\"/org/musicbee/track/7\"",
        "\"title\":\"Title\"",
        "\"length\":215000",
        "\"artist\":[\"One\",3,\"Two\"]",
        "\"album\":\"Album\"",
        "\"file_url\":\"C:\\\\a.mp3\"",
        "\"disc_number\":1",
        "\"track_number\":12",
        "\"album_artist\":[\"Band\"]",
        "\"composer\":[\"C\"]",
        "\"lyricist\":[null]",
        "\"genre\":[\"Rock\",\"Pop\"]",
        "\"bpm\":120",
        "\"content_created\":\"2001\"",
        "\"rating\":0.8",
        "\"comment\":[\"Nice\"]",
    ]
    .join(",")
}

#[test]
fn empty_metadata_have_defaults() {
    let m = metadata("");
    assert_eq!(m.trackid.unwrap().as_str(), "/org/musicbee/track/unknown");
    assert_eq!(m.title, Some("Unknown Title".to_string()));
    assert_eq!(m.length, Some(Time { micros: 0 }));
    assert_eq!(m.artist, texts(&["Unknown Artist"]));
    assert_eq!(m.album, Some("Unknown Album".to_string()));
    assert_eq!(m.url, Some("Unknown File URL".to_string()));
    assert_eq!(m.disc_number, None);
    assert_eq!(m.track_number, None);
    assert_eq!(m.album_artist, None);
    assert_eq!(m.composer, None);
    assert_eq!(m.lyricist, None);
    assert_eq!(m.genre, None);
    assert_eq!(m.audio_bpm, None);
    assert_eq!(m.content_created, None);
    assert_eq!(m.user_rating, None);
    assert_eq!(m.comment, None);
}

#[test]
fn metadata_of_another_kind_have_defaults() {
    assert!(matches!(
        command("{\"event\":\"metachange\",\"metadata\":null}"),
        SocketCommand::MetadataChange(m) if m.title == Some("Unknown Title".to_string())
    ));
}

#[test]
fn odd_metadata() {
    let m = metadata("\"trackid\":\"no path\",\"artist\":[],\"disc_number\":2147483648,\"rating\":1");
    assert_eq!(m.trackid.unwrap().as_str(), "/");
    assert_eq!(m.artist, texts(&["Unknown Artist"]));
    assert_eq!(m.disc_number, None);
    assert_eq!(m.user_rating, Some(Double { bits: 1.0f64.to_bits() }));
    let m = metadata("\"artist\":[1,2],\"track_number\":-2147483648,\"bpm\":1.5,\"length\":\"x\"");
    assert_eq!(m.artist, texts(&["Unknown Artist"]));
    assert_eq!(m.track_number, Some(i32::MIN));
    assert_eq!(m.audio_bpm, None);
    assert_eq!(m.length, Some(Time { micros: 0 }));
}

#[test]
fn art_updates() {
    match command("{\"event\":\"artupdate\",\"trackid\":\"/t\",\"albumartpath\":\"Z:\\\\tmp\\\\c.png\"}") {
        SocketCommand::ArtUpdate(id, url) => {
            assert_eq!(id.as_str(), "/t");
            assert_eq!(url, Some("file:///tmp/c.png".to_string()));
        }
        other => panic!("{:?}", other),
    }
    match command("{\"event\":\"artupdate\"}") {
        SocketCommand::ArtUpdate(id, url) => {
            assert_eq!(id.as_str(), "/org/musicbee/track/unknown");
            assert_eq!(url, None);
        }
        other => panic!("{:?}", other),
    }
}

#[test]
fn simple_events() {
    assert!(matches!(command("{\"event\":\"pause\"}"), SocketCommand::Pause));
    assert!(matches!(command("{\"event\":\"play\"}"), SocketCommand::Play));
    assert!(matches!(command("{\"event\":\"stop\"}"), SocketCommand::Stop));
    assert!(matches!(
        command("{\"event\":\"seek\",\"offset\":1500}"),
        SocketCommand::Seek(Time { micros: 1500000 })
    ));
    assert!(matches!(
        command("{\"event\":\"shuffle\",\"status\":true}"),
        SocketCommand::Shuffle(true)
    ));
    assert!(matches!(
        command("{\"event\":\"loopstatus\",\"status\":\"Track\"}"),
        SocketCommand::LoopStatus(LoopStatus::Track)
    ));
    assert!(matches!(
        command("{\"event\":\"loopstatus\",\"status\":\"?\"}"),
        SocketCommand::LoopStatus(LoopStatus::Off)
    ));
}

#[test]
fn incomplete_events() {
    let handler = handler();
    for line in [
        "{\"event\":\"metachange\"}",
        "{\"event\":\"seek\"}",
        "{\"event\":\"seek\",\"offset\":1.5}",
        "{\"event\":\"shuffle\",\"status\":1}",
        "{\"event\":\"loopstatus\",\"status\":null}",
    ] {
        assert!(matches!(on_line(&handler, line), SocketAction::Skip(Skipped::Incomplete)));
    }
}

#[test]
fn lines_without_a_known_event() {
    let handler = handler();
    assert!(matches!(on_line(&handler, "not json"), SocketAction::Skip(Skipped::NotJson)));
    assert!(matches!(on_line(&handler, "{}"), SocketAction::Skip(Skipped::NoEvent)));
    assert!(matches!(on_line(&handler, "[\"event\"]"), SocketAction::Skip(Skipped::NoEvent)));
    assert!(matches!(on_line(&handler, "{\"event\":1}"), SocketAction::Skip(Skipped::NoEvent)));
    assert!(matches!(
        on_line(&handler, "{\"event\":\"dance\"}"),
        SocketAction::Skip(Skipped::UnknownEvent(name)) if name == "dance"
    ));
}

#[test]
fn exit_and_closing_stop_the_service() {
    let handler = handler();
    assert!(matches!(
        on_line(&handler, "{\"event\":\"exit\"}"),
        SocketAction::SendAndStop(SocketCommand::Exit)
    ));
    assert!(matches!(handler.run(&SocketEvent::Closed), SocketAction::Stop));
}

#[test]
fn messages_are_written() {
    let handler = handler();
    assert!(matches!(
        handler.run(&SocketEvent::Message(MprisMessage::Next)),
        SocketAction::Write(text) if text == "{\"event\":\"next\"}\n"
    ));
    assert!(matches!(
        handler.run(&SocketEvent::NoMessage),
        SocketAction::Skip(Skipped::NoMessage)
    ));
}

#[test]
fn failure_without_a_wine_prefix() {
    let handler = SocketHandler::for_user(1000);
    for line in [
        "{\"event\":\"metachange\",\"metadata\":{\"file_url\":\"C:\\\\a\"}}",
        "{\"event\":\"artupdate\",\"albumartpath\":\"C:\\\\a\"}",
    ] {
        assert!(matches!(
            on_line(&handler, line),
            SocketAction::Fail(Failure::WinePrefixUnknown)
        ));
    }
    assert!(matches!(
        on_line(&handler, "{\"event\":\"metachange\",\"metadata\":{}}"),
        SocketAction::Send(SocketCommand::MetadataChange(_))
    ));
}

#[test]
fn failure_on_times_out_of_range() {
    for line in [
        "{\"event\":\"metachange\",\"metadata\":{\"length\":9223372036854775807}}",
        "{\"event\":\"seek\",\"offset\":-9223372036854775808}",
    ] {
        assert!(matches!(
            on_line(&handler(), line),
            SocketAction::Fail(Failure::TimeOutOfRange)
        ));
    }
}

#[test]
fn events_without_paths_do_not_need_the_prefix() {
    let json = parse("{\"event\":\"seek\",\"offset\":2}").unwrap();
    for prefix in [None, Some(PREFIX.to_string())] {
        assert_eq!(find_failure(&json, &prefix), None);
        assert!(matches!(
            decode(&json, &prefix),
            Decoded::Command(SocketCommand::Seek(Time { micros: 2000 }))
        ));
    }
}

#[test]
fn reaction_to_a_document_built_by_hand() {
    let document = Some(Json::Object(vec![Entry {
        name: "event".to_string(),
        value: Json::Text("play".to_string()),
    }]));
    assert!(matches!(
        handler().react(&document),
        SocketAction::Send(SocketCommand::Play)
    ));
    assert!(matches!(handler().react(&None), SocketAction::Skip(Skipped::NotJson)));
}

#[test]
fn exit_is_handed_on_last() {
    let handler = handler();
    let mut handed_on: Vec<SocketCommand> = Vec::new();
    for line in ["{\"event\":\"play\"}", "?", "{\"event\":\"exit\"}", "{\"event\":\"stop\"}"] {
        match on_line(&handler, line) {
            SocketAction::Send(command) => handed_on.push(command),
            SocketAction::SendAndStop(command) => {
                handed_on.push(command);
                break;
            }
            _ => {}
        }
    }
    assert_eq!(handed_on.len(), 2);
    assert!(matches!(handed_on[0], SocketCommand::Play));
    assert!(matches!(handed_on[1], SocketCommand::Exit));
}

#[test]
fn users_do_not_share_a_socket() {
    assert_ne!(
        SocketHandler::for_user(100).socket_path(),
        SocketHandler::for_user(1000).socket_path()
    );
}

#[test]
fn known_prefix_suffices() {
    let json =
        parse("{\"event\":\"artupdate\",\"albumartpath\":\"C:\\\\a\"}").unwrap();
    assert_eq!(find_failure(&json, &None), Some(Failure::WinePrefixUnknown));
    assert_eq!(find_failure(&json, &Some(String::new())), None);
}
