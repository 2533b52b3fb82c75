//! The commands that the player plugin sends, and how they are read out of its events.
use crate::json::{
    field, flag_field, integer_field, text_field, Json, JsonNumber, JsonView,
};
use crate::metadata::{
    file_url, law_other_text_members_have_defaults, length_fits, length_millis, metadata_of,
    read_trackid, to_file_url, trackid_of, Metadata, MetadataView,
};
use crate::mpris::{
    is_object_path, law_loop_statuses_have_their_names, millis_fit, millis_in_range,
    named_loop_status, LoopStatus, Time, TrackId,
};
use crate::text::text_eq;
use vstd::prelude::*;

verus! {

/// A command of the player plugin.
#[derive(Debug)]
pub enum SocketCommand {
    /// Another track is current, or its metadata changed.
    MetadataChange(Metadata),
    /// The URL of the cover of a track became known, or that it has none.
    ArtUpdate(TrackId, Option<String>),
    /// The playback position jumped.
    Seek(Time),
    Pause,
    Play,
    Stop,
    Shuffle(bool),
    LoopStatus(LoopStatus),
    /// The player quits.
    Exit,
}

/// What a command says.
pub enum SocketCommandView {
    MetadataChange(MetadataView),
    ArtUpdate(Seq<char>, Option<Seq<char>>),
    Seek(Time),
    Pause,
    Play,
    Stop,
    Shuffle(bool),
    LoopStatus(LoopStatus),
    Exit,
}

impl View for SocketCommand {
    type V = SocketCommandView;

    open spec fn view(&self) -> SocketCommandView {
        match self {
            SocketCommand::MetadataChange(metadata) => SocketCommandView::MetadataChange(
                metadata@,
            ),
            SocketCommand::ArtUpdate(trackid, url) => SocketCommandView::ArtUpdate(
                trackid@,
                url.deep_view(),
            ),
            SocketCommand::Seek(time) => SocketCommandView::Seek(*time),
            SocketCommand::Pause => SocketCommandView::Pause,
            SocketCommand::Play => SocketCommandView::Play,
            SocketCommand::Stop => SocketCommandView::Stop,
            SocketCommand::Shuffle(shuffle) => SocketCommandView::Shuffle(*shuffle),
            SocketCommand::LoopStatus(status) => SocketCommandView::LoopStatus(*status),
            SocketCommand::Exit => SocketCommandView::Exit,
        }
    }
}

/// What an event comes to.
#[derive(Debug)]
pub enum Decoded {
    /// The event is this command.
    Command(SocketCommand),
    /// The event is known, but lacks a member that it needs.
    Incomplete,
    /// The event has a name that is not known.
    Unknown(String),
    /// The document names no event.
    Missing,
}

/// What an event comes to.
pub enum DecodedView {
    Command(SocketCommandView),
    Incomplete,
    Unknown(Seq<char>),
    Missing,
}

impl View for Decoded {
    type V = DecodedView;

    open spec fn view(&self) -> DecodedView {
        match self {
            Decoded::Command(command) => DecodedView::Command(command@),
            Decoded::Incomplete => DecodedView::Incomplete,
            Decoded::Unknown(name) => DecodedView::Unknown(name@),
            Decoded::Missing => DecodedView::Missing,
        }
    }
}

/// Why an event cannot be handled.
#[derive(Clone, Copy, Debug, PartialEq, Eq, Structural)]
pub enum Failure {
    /// A time is given that does not fit into a [`Time`].
    TimeOutOfRange,
    /// A Windows path is given, and the Wine prefix is not known.
    WinePrefixUnknown,
}

/// Why an event cannot be handled, if it cannot.
pub open spec fn failure_of(json: JsonView, wineprefix: Option<Seq<char>>) -> Option<Failure> {
    let event = text_field(json, "event"@);
    if event == Some("metachange"@) {
        match field(json, "metadata"@) {
            Some(metadata) => if !millis_in_range(length_millis(metadata)) {
                Some(Failure::TimeOutOfRange)
            } else if text_field(metadata, "file_url"@) is Some && wineprefix is None {
                Some(Failure::WinePrefixUnknown)
            } else {
                None
            },
            None => None,
        }
    } else if event == Some("artupdate"@) {
        if text_field(json, "albumartpath"@) is Some && wineprefix is None {
            Some(Failure::WinePrefixUnknown)
        } else {
            None
        }
    } else if event == Some("seek"@) {
        match integer_field(json, "offset"@) {
            Some(millis) => if !millis_in_range(millis) {
                Some(Failure::TimeOutOfRange)
            } else {
                None
            },
            None => None,
        }
    } else {
        None
    }
}

/// The command in `o`, where there is one.
pub open spec fn command_or_incomplete(o: Option<SocketCommandView>) -> DecodedView {
    match o {
        Some(command) => DecodedView::Command(command),
        None => DecodedView::Incomplete,
    }
}

/// The URL of the cover in an event.
pub open spec fn art_url_of(json: JsonView, wineprefix: Option<Seq<char>>) -> Option<Seq<char>> {
    match text_field(json, "albumartpath"@) {
        Some(path) => Some(file_url(path, wineprefix->0)),
        None => None,
    }
}

/// The loop status that an event asks for.
pub open spec fn loop_status_of(name: Seq<char>) -> LoopStatus {
    match named_loop_status(name) {
        Some(status) => status,
        None => LoopStatus::Off,
    }
}

/// What an event comes to, where it can be handled.
pub open spec fn decoded(json: JsonView, wineprefix: Option<Seq<char>>) -> DecodedView {
    match text_field(json, "event"@) {
        None => DecodedView::Missing,
        Some(event) => if event == "metachange"@ {
            command_or_incomplete(
                match field(json, "metadata"@) {
                    Some(metadata) => Some(
                        SocketCommandView::MetadataChange(metadata_of(metadata, wineprefix)),
                    ),
                    None => None,
                },
            )
        } else if event == "artupdate"@ {
            DecodedView::Command(
                SocketCommandView::ArtUpdate(trackid_of(json), art_url_of(json, wineprefix)),
            )
        } else if event == "seek"@ {
            command_or_incomplete(
                match integer_field(json, "offset"@) {
                    Some(millis) => Some(
                        SocketCommandView::Seek(Time { micros: (millis * 1000) as i64 }),
                    ),
                    None => None,
                },
            )
        } else if event == "pause"@ {
            DecodedView::Command(SocketCommandView::Pause)
        } else if event == "play"@ {
            DecodedView::Command(SocketCommandView::Play)
        } else if event == "stop"@ {
            DecodedView::Command(SocketCommandView::Stop)
        } else if event == "shuffle"@ {
            command_or_incomplete(
                match flag_field(json, "status"@) {
                    Some(shuffle) => Some(SocketCommandView::Shuffle(shuffle)),
                    None => None,
                },
            )
        } else if event == "loopstatus"@ {
            command_or_incomplete(
                match text_field(json, "status"@) {
                    Some(name) => Some(SocketCommandView::LoopStatus(loop_status_of(name))),
                    None => None,
                },
            )
        } else if event == "exit"@ {
            DecodedView::Command(SocketCommandView::Exit)
        } else {
            DecodedView::Unknown(event)
        },
    }
}

/// Tells why an event cannot be handled, if it cannot.
pub fn find_failure(json: &Json, wineprefix: &Option<String>) -> (r: Option<Failure>)
    ensures
        r == failure_of(json@, wineprefix.deep_view()),
{
    let event = match json.text_field("event") {
        Some(event) => event,
        None => {
            return None;
        },
    };
    if text_eq(event, "metachange") {
        match json.get("metadata") {
            Some(metadata) => {
                if !length_fits(metadata) {
                    return Some(Failure::TimeOutOfRange);
                }
                if metadata.text_field("file_url").is_some() && wineprefix.is_none() {
                    return Some(Failure::WinePrefixUnknown);
                }
                None
            },
            None => None,
        }
    } else if text_eq(event, "artupdate") {
        if json.text_field("albumartpath").is_some() && wineprefix.is_none() {
            Some(Failure::WinePrefixUnknown)
        } else {
            None
        }
    } else if text_eq(event, "seek") {
        match json.integer_field("offset") {
            Some(millis) => if !millis_fit(millis) {
                Some(Failure::TimeOutOfRange)
            } else {
                None
            },
            None => None,
        }
    } else {
        None
    }
}

/// Reads the event in a document.
pub fn decode(json: &Json, wineprefix: &Option<String>) -> (r: Decoded)
    requires
        failure_of(json@, wineprefix.deep_view()) is None,
    ensures
        r@ == decoded(json@, wineprefix.deep_view()),
{
    let event = match json.text_field("event") {
        Some(event) => event,
        None => {
            return Decoded::Missing;
        },
    };
    if text_eq(event, "metachange") {
        match json.get("metadata") {
            Some(metadata) => Decoded::Command(
                SocketCommand::MetadataChange(Metadata::from_json(metadata, wineprefix)),
            ),
            None => Decoded::Incomplete,
        }
    } else if text_eq(event, "artupdate") {
        let url = match json.text_field("albumartpath") {
            Some(path) => match wineprefix {
                Some(prefix) => Some(to_file_url(path, prefix.as_str())),
                None => None,
            },
            None => None,
        };
        Decoded::Command(SocketCommand::ArtUpdate(read_trackid(json), url))
    } else if text_eq(event, "seek") {
        match json.integer_field("offset") {
            Some(millis) => Decoded::Command(SocketCommand::Seek(Time::from_millis(millis))),
            None => Decoded::Incomplete,
        }
    } else if text_eq(event, "pause") {
        Decoded::Command(SocketCommand::Pause)
    } else if text_eq(event, "play") {
        Decoded::Command(SocketCommand::Play)
    } else if text_eq(event, "stop") {
        Decoded::Command(SocketCommand::Stop)
    } else if text_eq(event, "shuffle") {
        match json.flag_field("status") {
            Some(shuffle) => Decoded::Command(SocketCommand::Shuffle(shuffle)),
            None => Decoded::Incomplete,
        }
    } else if text_eq(event, "loopstatus") {
        match json.text_field("status") {
            Some(name) => Decoded::Command(SocketCommand::LoopStatus(LoopStatus::named(name))),
            None => Decoded::Incomplete,
        }
    } else if text_eq(event, "exit") {
        Decoded::Command(SocketCommand::Exit)
    } else {
        Decoded::Unknown(event.to_owned())
    }
}

/// Where an event can be handled without a Wine prefix, it comes to the same with any prefix.
pub proof fn law_prefix_counts_only_for_paths(json: JsonView, wineprefix: Seq<char>)
    requires
        failure_of(json, None) is None,
    ensures
        failure_of(json, Some(wineprefix)) is None,
        decoded(json, Some(wineprefix)) == decoded(json, None),
{
}

/// With a Wine prefix, an event fails only where a time is out of range.
pub proof fn law_known_prefix_suffices(json: JsonView, wineprefix: Seq<char>)
    ensures
        failure_of(json, Some(wineprefix)) != Some(Failure::WinePrefixUnknown),
{
}

/// What a command says is what it carries.
pub proof fn law_view_of_commands(command: SocketCommand)
    ensures
        match command {
            SocketCommand::MetadataChange(metadata) => command@
                == SocketCommandView::MetadataChange(metadata@),
            SocketCommand::ArtUpdate(trackid, url) => command@ == SocketCommandView::ArtUpdate(
                trackid@,
                url.deep_view(),
            ),
            SocketCommand::Seek(time) => command@ == SocketCommandView::Seek(time),
            SocketCommand::Pause => command@ is Pause,
            SocketCommand::Play => command@ is Play,
            SocketCommand::Stop => command@ is Stop,
            SocketCommand::Shuffle(shuffle) => command@ == SocketCommandView::Shuffle(shuffle),
            SocketCommand::LoopStatus(status) => command@ == SocketCommandView::LoopStatus(
                status,
            ),
            SocketCommand::Exit => command@ is Exit,
        },
{
}

/// What an event comes to is what the outcome carries.
pub proof fn law_view_of_decoded(outcome: Decoded)
    ensures
        match outcome {
            Decoded::Command(command) => outcome@ == DecodedView::Command(command@),
            Decoded::Incomplete => outcome@ is Incomplete,
            Decoded::Unknown(name) => outcome@ == DecodedView::Unknown(name@),
            Decoded::Missing => outcome@ is Missing,
        },
{
}

/// The names of the events are all different.
proof fn lemma_event_names_are_different()
    ensures
        "metachange"@ != "artupdate"@,
        "metachange"@ != "seek"@,
        "metachange"@ != "pause"@,
        "metachange"@ != "play"@,
        "metachange"@ != "stop"@,
        "metachange"@ != "shuffle"@,
        "metachange"@ != "loopstatus"@,
        "metachange"@ != "exit"@,
        "artupdate"@ != "seek"@,
        "artupdate"@ != "pause"@,
        "artupdate"@ != "play"@,
        "artupdate"@ != "stop"@,
        "artupdate"@ != "shuffle"@,
        "artupdate"@ != "loopstatus"@,
        "artupdate"@ != "exit"@,
        "seek"@ != "pause"@,
        "seek"@ != "play"@,
        "seek"@ != "stop"@,
        "seek"@ != "shuffle"@,
        "seek"@ != "loopstatus"@,
        "seek"@ != "exit"@,
        "pause"@ != "play"@,
        "pause"@ != "stop"@,
        "pause"@ != "shuffle"@,
        "pause"@ != "loopstatus"@,
        "pause"@ != "exit"@,
        "play"@ != "stop"@,
        "play"@ != "shuffle"@,
        "play"@ != "loopstatus"@,
        "play"@ != "exit"@,
        "stop"@ != "shuffle"@,
        "stop"@ != "loopstatus"@,
        "stop"@ != "exit"@,
        "shuffle"@ != "loopstatus"@,
        "shuffle"@ != "exit"@,
        "loopstatus"@ != "exit"@,
{
    reveal_strlit("metachange");
    reveal_strlit("artupdate");
    reveal_strlit("seek");
    reveal_strlit("pause");
    reveal_strlit("play");
    reveal_strlit("stop");
    reveal_strlit("shuffle");
    reveal_strlit("loopstatus");
    reveal_strlit("exit");
    assert("metachange"@.len() == 10 && "metachange"@[0] == 'm' && "metachange"@[1] == 'e');
    assert("artupdate"@.len() == 9 && "artupdate"@[0] == 'a' && "artupdate"@[1] == 'r');
    assert("seek"@.len() == 4 && "seek"@[0] == 's' && "seek"@[1] == 'e');
    assert("pause"@.len() == 5 && "pause"@[0] == 'p' && "pause"@[1] == 'a');
    assert("play"@.len() == 4 && "play"@[0] == 'p' && "play"@[1] == 'l');
    assert("stop"@.len() == 4 && "stop"@[0] == 's' && "stop"@[1] == 't');
    assert("shuffle"@.len() == 7 && "shuffle"@[0] == 's' && "shuffle"@[1] == 'h');
    assert("loopstatus"@.len() == 10 && "loopstatus"@[0] == 'l' && "loopstatus"@[1] == 'o');
    assert("exit"@.len() == 4 && "exit"@[0] == 'e' && "exit"@[1] == 'x');
}

/// An event without arguments comes to the command of its name.
pub proof fn law_plain_events(
    members: Map<Seq<char>, JsonView>,
    wineprefix: Option<Seq<char>>,
    event: Seq<char>,
)
    requires
        members.contains_key("event"@),
        members["event"@] == JsonView::Text(event),
    ensures
        ({
            let json = JsonView::Object(members);
            let outcome = decoded(json, wineprefix);
            &&& event == "pause"@ ==> outcome == DecodedView::Command(SocketCommandView::Pause)
                && failure_of(json, wineprefix) is None
            &&& event == "play"@ ==> outcome == DecodedView::Command(SocketCommandView::Play)
                && failure_of(json, wineprefix) is None
            &&& event == "stop"@ ==> outcome == DecodedView::Command(SocketCommandView::Stop)
                && failure_of(json, wineprefix) is None
            &&& event == "exit"@ ==> outcome == DecodedView::Command(SocketCommandView::Exit)
                && failure_of(json, wineprefix) is None
        }),
{
    lemma_event_names_are_different();
}

/// The event `seek` comes to the command that sets the position to its offset, which is given
/// in milliseconds. Without an offset it is incomplete, and with one that is out of range it
/// cannot be handled.
pub proof fn law_seek_event(
    members: Map<Seq<char>, JsonView>,
    wineprefix: Option<Seq<char>>,
    number: JsonNumber,
    millis: i64,
)
    requires
        members.contains_key("event"@),
        members["event"@] == JsonView::Text("seek"@),
    ensures
        ({
            let json = JsonView::Object(members);
            let outcome = decoded(json, wineprefix);
            let given = members.contains_key("offset"@) && members["offset"@]
                == JsonView::Number(number);
            &&& given && number.integer == Some(millis) && i64::MIN <= millis * 1000 <= i64::MAX
                ==> {
                &&& failure_of(json, wineprefix) is None
                &&& outcome matches DecodedView::Command(SocketCommandView::Seek(time))
                    && time.micros == millis * 1000
            }
            &&& given && number.integer == Some(millis) && !(i64::MIN <= millis * 1000 <= i64::MAX)
                ==> failure_of(json, wineprefix) == Some(Failure::TimeOutOfRange)
            &&& given && number.integer is None ==> outcome is Incomplete && failure_of(
                json,
                wineprefix,
            ) is None
            &&& !(members.contains_key("offset"@) && members["offset"@] is Number) ==> outcome
                is Incomplete && failure_of(json, wineprefix) is None
        }),
{
    lemma_event_names_are_different();
}

/// The event `shuffle` comes to the command that sets shuffling to its status, on or off.
/// Without one it is incomplete.
pub proof fn law_shuffle_event(
    members: Map<Seq<char>, JsonView>,
    wineprefix: Option<Seq<char>>,
    shuffle: bool,
)
    requires
        members.contains_key("event"@),
        members["event"@] == JsonView::Text("shuffle"@),
    ensures
        ({
            let json = JsonView::Object(members);
            let outcome = decoded(json, wineprefix);
            &&& failure_of(json, wineprefix) is None
            &&& members.contains_key("status"@) && members["status"@] == JsonView::Bool(shuffle)
                ==> outcome == DecodedView::Command(SocketCommandView::Shuffle(shuffle))
            &&& !(members.contains_key("status"@) && members["status"@] is Bool) ==> outcome
                is Incomplete
        }),
{
    lemma_event_names_are_different();
}

/// The event `loopstatus` comes to the command that sets the loop status to the one it names. A
/// name that is not known stands for no repetition. Without a name it is incomplete.
pub proof fn law_loopstatus_event(
    members: Map<Seq<char>, JsonView>,
    wineprefix: Option<Seq<char>>,
    name: Seq<char>,
)
    requires
        members.contains_key("event"@),
        members["event"@] == JsonView::Text("loopstatus"@),
    ensures
        ({
            let json = JsonView::Object(members);
            let outcome = decoded(json, wineprefix);
            let given = members.contains_key("status"@) && members["status"@] == JsonView::Text(
                name,
            );
            &&& failure_of(json, wineprefix) is None
            &&& given && name == "Track"@ ==> outcome == DecodedView::Command(
                SocketCommandView::LoopStatus(LoopStatus::Track),
            )
            &&& given && name == "Playlist"@ ==> outcome == DecodedView::Command(
                SocketCommandView::LoopStatus(LoopStatus::Playlist),
            )
            &&& given && name != "Track"@ && name != "Playlist"@ ==> outcome
                == DecodedView::Command(SocketCommandView::LoopStatus(LoopStatus::Off))
            &&& !(members.contains_key("status"@) && members["status"@] is Text) ==> outcome
                is Incomplete
        }),
{
    lemma_event_names_are_different();
    law_loop_statuses_have_their_names(name);
}

/// The event `artupdate` comes to the command that gives the track that it names the cover that
/// it names, or none. It can be handled unless it names a cover and the Wine prefix is not known.
pub proof fn law_artupdate_event(
    members: Map<Seq<char>, JsonView>,
    wineprefix: Option<Seq<char>>,
    name: Seq<char>,
    path: Seq<char>,
)
    requires
        members.contains_key("event"@),
        members["event"@] == JsonView::Text("artupdate"@),
    ensures
        ({
            let json = JsonView::Object(members);
            let outcome = decoded(json, wineprefix);
            let cover = members.contains_key("albumartpath"@) && members["albumartpath"@] is Text;
            &&& outcome matches DecodedView::Command(SocketCommandView::ArtUpdate(trackid, url))
                && {
                &&& members.contains_key("trackid"@) && members["trackid"@] == JsonView::Text(name)
                    ==> trackid == if is_object_path(name) {
                    name
                } else {
                    "/"@
                }
                &&& !(members.contains_key("trackid"@) && members["trackid"@] is Text) ==> trackid
                    == "/org/musicbee/track/unknown"@
                &&& cover && members["albumartpath"@] == JsonView::Text(path) && wineprefix is Some
                    ==> url == Some(file_url(path, wineprefix->0))
                &&& !cover ==> url is None
            }
            &&& failure_of(json, wineprefix) == if cover && wineprefix is None {
                Some(Failure::WinePrefixUnknown)
            } else {
                None
            }
        }),
{
    lemma_event_names_are_different();
    law_other_text_members_have_defaults(members, wineprefix);
}

/// The event `metachange` comes to the command that makes what its member `metadata` says the
/// metadata of the track. Without that member it is incomplete.
pub proof fn law_metachange_event(
    members: Map<Seq<char>, JsonView>,
    wineprefix: Option<Seq<char>>,
)
    requires
        members.contains_key("event"@),
        members["event"@] == JsonView::Text("metachange"@),
    ensures
        ({
            let json = JsonView::Object(members);
            let outcome = decoded(json, wineprefix);
            &&& members.contains_key("metadata"@) ==> outcome == DecodedView::Command(
                SocketCommandView::MetadataChange(metadata_of(members["metadata"@], wineprefix)),
            )
            &&& !members.contains_key("metadata"@) ==> outcome is Incomplete && failure_of(
                json,
                wineprefix,
            ) is None
            &&& members.contains_key("metadata"@) && !(members["metadata"@] is Object)
                ==> failure_of(json, wineprefix) is None
        }),
{
    lemma_event_names_are_different();
}

/// The event `metachange` cannot be handled where the length of the track is out of range, or
/// else where the path of its file is given and the Wine prefix is not known. In every other
/// case it can.
pub proof fn law_metachange_failure(
    members: Map<Seq<char>, JsonView>,
    inner: Map<Seq<char>, JsonView>,
    wineprefix: Option<Seq<char>>,
)
    requires
        members.contains_key("event"@),
        members["event"@] == JsonView::Text("metachange"@),
        members.contains_key("metadata"@),
        members["metadata"@] == JsonView::Object(inner),
    ensures
        ({
            let too_long = inner.contains_key("length"@) && inner["length"@] is Number
                && inner["length"@]->Number_0.integer is Some && !(i64::MIN
                <= inner["length"@]->Number_0.integer->0 * 1000 <= i64::MAX);
            let file = inner.contains_key("file_url"@) && inner["file_url"@] is Text;
            failure_of(JsonView::Object(members), wineprefix) == if too_long {
                Some(Failure::TimeOutOfRange)
            } else if file && wineprefix is None {
                Some(Failure::WinePrefixUnknown)
            } else {
                None
            }
        }),
{
    lemma_event_names_are_different();
}

/// An event of any other name is unknown under that name.
pub proof fn law_unknown_events(
    members: Map<Seq<char>, JsonView>,
    wineprefix: Option<Seq<char>>,
    event: Seq<char>,
)
    requires
        members.contains_key("event"@),
        members["event"@] == JsonView::Text(event),
        event != "metachange"@,
        event != "artupdate"@,
        event != "seek"@,
        event != "pause"@,
        event != "play"@,
        event != "stop"@,
        event != "shuffle"@,
        event != "loopstatus"@,
        event != "exit"@,
    ensures
        decoded(JsonView::Object(members), wineprefix) == DecodedView::Unknown(event),
        failure_of(JsonView::Object(members), wineprefix) is None,
{
}

/// A document without a text for its event names none.
pub proof fn law_missing_events(json: JsonView, wineprefix: Option<Seq<char>>)
    requires
        json is Object ==> !json->Object_0.contains_key("event"@) || !(
        json->Object_0["event"@] is Text),
    ensures
        decoded(json, wineprefix) is Missing,
        failure_of(json, wineprefix) is None,
{
}

} // verus!
