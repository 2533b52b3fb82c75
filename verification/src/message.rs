//! The messages for the player plugin, and the lines of text that carry them.
use crate::json::{integer, parsed, Double, JsonView};
use crate::mpris::{
    law_loop_status_name_round_trip, loop_status_name, LoopStatus, Time, TrackId,
};
use vstd::prelude::*;

verus! {

/// A message for the player plugin.
#[derive(Debug)]
pub enum MprisMessage {
    Next,
    Previous,
    Pause,
    PlayPause,
    Stop,
    Play,
    /// Move the playback position by this much.
    Seek(Time),
    /// Move the playback position of this track to this time.
    SetPosition(TrackId, Time),
    SetLoopStatus(LoopStatus),
    SetShuffle(bool),
    SetVolume(Double),
}

/// What a message says.
pub enum MprisMessageView {
    Next,
    Previous,
    Pause,
    PlayPause,
    Stop,
    Play,
    Seek(Time),
    SetPosition(Seq<char>, Time),
    SetLoopStatus(LoopStatus),
    SetShuffle(bool),
    SetVolume(Double),
}

impl View for MprisMessage {
    type V = MprisMessageView;

    open spec fn view(&self) -> MprisMessageView {
        match self {
            MprisMessage::Next => MprisMessageView::Next,
            MprisMessage::Previous => MprisMessageView::Previous,
            MprisMessage::Pause => MprisMessageView::Pause,
            MprisMessage::PlayPause => MprisMessageView::PlayPause,
            MprisMessage::Stop => MprisMessageView::Stop,
            MprisMessage::Play => MprisMessageView::Play,
            MprisMessage::Seek(offset) => MprisMessageView::Seek(*offset),
            MprisMessage::SetPosition(trackid, position) => MprisMessageView::SetPosition(
                trackid@,
                *position,
            ),
            MprisMessage::SetLoopStatus(status) => MprisMessageView::SetLoopStatus(*status),
            MprisMessage::SetShuffle(shuffle) => MprisMessageView::SetShuffle(*shuffle),
            MprisMessage::SetVolume(volume) => MprisMessageView::SetVolume(*volume),
        }
    }
}

/// The value of a member in a message.
#[derive(Debug)]
pub enum FieldValue {
    Text(String),
    Integer(i64),
    Flag(bool),
    Level(Double),
}

/// A member in a message.
#[derive(Debug)]
pub struct Field {
    pub name: String,
    pub value: FieldValue,
}

/// What the value of a member says.
pub enum Scalar {
    Text(Seq<char>),
    Integer(i64),
    Flag(bool),
    Level(Double),
}

impl View for FieldValue {
    type V = Scalar;

    open spec fn view(&self) -> Scalar {
        match self {
            FieldValue::Text(text) => Scalar::Text(text@),
            FieldValue::Integer(i) => Scalar::Integer(*i),
            FieldValue::Flag(b) => Scalar::Flag(*b),
            FieldValue::Level(level) => Scalar::Level(*level),
        }
    }
}

/// The members in `fields` by name. Of two with one name, the later one counts.
pub open spec fn members(fields: Seq<Field>) -> Map<Seq<char>, Scalar>
    decreases fields.len(),
{
    if fields.len() == 0 {
        Map::empty()
    } else {
        members(fields.drop_last()).insert(fields.last().name@, fields.last().value@)
    }
}

/// Whether a JSON value says the same as `scalar`. Nothing is asked of levels.
pub open spec fn says(json: JsonView, scalar: Scalar) -> bool {
    match scalar {
        Scalar::Text(text) => json == JsonView::Text(text),
        Scalar::Integer(i) => integer(json) == Some(i),
        Scalar::Flag(b) => json == JsonView::Bool(b),
        Scalar::Level(_) => true,
    }
}

/// Whether a document is an object with the given members and no others.
pub open spec fn reads_as(document: Option<JsonView>, fields: Map<Seq<char>, Scalar>) -> bool {
    match document {
        Some(JsonView::Object(found)) => {
            &&& found.dom() == fields.dom()
            &&& forall|name: Seq<char>| #[trigger]
                fields.contains_key(name) ==> says(found[name], fields[name])
        },
        _ => false,
    }
}

/// Whether no member is a level.
pub open spec fn without_level(fields: Map<Seq<char>, Scalar>) -> bool {
    forall|name: Seq<char>| #[trigger] fields.contains_key(name) ==> !(fields[name] is Level)
}

/// The name under which a message is sent.
pub open spec fn event_name(message: MprisMessageView) -> Seq<char> {
    match message {
        MprisMessageView::Next => "next"@,
        MprisMessageView::Previous => "previous"@,
        MprisMessageView::Pause => "pause"@,
        MprisMessageView::PlayPause => "playpause"@,
        MprisMessageView::Stop => "stop"@,
        MprisMessageView::Play => "play"@,
        MprisMessageView::Seek(_) => "seek"@,
        MprisMessageView::SetPosition(_, _) => "position"@,
        MprisMessageView::SetLoopStatus(_) => "loop_status"@,
        MprisMessageView::SetShuffle(_) => "shuffle"@,
        MprisMessageView::SetVolume(_) => "volume"@,
    }
}

/// The members of the JSON object that carries a message.
pub open spec fn fields_of(message: MprisMessageView) -> Map<Seq<char>, Scalar> {
    let event = Map::empty().insert("event"@, Scalar::Text(event_name(message)));
    match message {
        MprisMessageView::Seek(offset) => event.insert("offset"@, Scalar::Integer(offset.micros)),
        MprisMessageView::SetPosition(trackid, position) => event.insert(
            "trackid"@,
            Scalar::Text(trackid),
        ).insert("position"@, Scalar::Integer(position.micros)),
        MprisMessageView::SetLoopStatus(status) => event.insert(
            "status"@,
            Scalar::Text(loop_status_name(status)),
        ),
        MprisMessageView::SetShuffle(shuffle) => event.insert("shuffle"@, Scalar::Flag(shuffle)),
        MprisMessageView::SetVolume(volume) => event.insert("volume"@, Scalar::Level(volume)),
        _ => event,
    }
}

/// The compact text that `serde_json` gives an object with these members.
pub uninterp spec fn json_text(fields: Map<Seq<char>, Scalar>) -> Seq<char>;

/// The line of text that carries a message.
pub open spec fn message_line(message: MprisMessageView) -> Seq<char> {
    json_text(fields_of(message)).push('\n')
}

/// Builds a `serde_json::Map` with `Value::from` for the members and calls `to_string` on the
/// object. The text is a function of the members alone and is called [`json_text`]. It holds no
/// line break, because `serde_json` writes no white space and escapes control characters.
/// What `serde_json::from_str` reads out of it is an object with these members. Of a level it is
/// left unsaid whether it is read, and how closely, because the reading of floating point is not
/// exact.
#[verifier::external_body]
fn object_text(fields: &Vec<Field>) -> (r: String)
    ensures
        r@ == json_text(members(fields@)),
        !r@.contains('\n'),
        parsed(r@) is Some ==> reads_as(parsed(r@), members(fields@)),
        without_level(members(fields@)) ==> parsed(r@) is Some,
{
    let object = fields.iter().map(|field| (field.name.clone(), match &field.value {
        FieldValue::Text(text) => serde_json::Value::from(text.as_str()),
        FieldValue::Integer(i) => serde_json::Value::from(*i),
        FieldValue::Flag(b) => serde_json::Value::from(*b),
        FieldValue::Level(level) => {
            serde_json::Value::from(mpris_server::Volume::from_bits(level.bits))
        },
    })).collect();
    serde_json::Value::Object(object).to_string()
}

/// A member that is a text.
fn text_member(name: &str, text: &str) -> (r: Field)
    ensures
        r.name@ == name@,
        r.value@ == Scalar::Text(text@),
{
    Field { name: name.to_owned(), value: FieldValue::Text(text.to_owned()) }
}

/// A member that is an integer.
fn integer_member(name: &str, value: i64) -> (r: Field)
    ensures
        r.name@ == name@,
        r.value@ == Scalar::Integer(value),
{
    Field { name: name.to_owned(), value: FieldValue::Integer(value) }
}

/// Adding a member at the end inserts it.
proof fn lemma_members_push(fields: Seq<Field>, field: Field)
    ensures
        members(fields.push(field)) == members(fields).insert(field.name@, field.value@),
{
    assert(fields.push(field).drop_last() == fields);
}

/// The members of the JSON object that carries a message.
pub fn message_fields(message: &MprisMessage) -> (r: Vec<Field>)
    ensures
        members(r@) == fields_of(message@),
{
    let name = match message {
        MprisMessage::Next => "next",
        MprisMessage::Previous => "previous",
        MprisMessage::Pause => "pause",
        MprisMessage::PlayPause => "playpause",
        MprisMessage::Stop => "stop",
        MprisMessage::Play => "play",
        MprisMessage::Seek(_) => "seek",
        MprisMessage::SetPosition(_, _) => "position",
        MprisMessage::SetLoopStatus(_) => "loop_status",
        MprisMessage::SetShuffle(_) => "shuffle",
        MprisMessage::SetVolume(_) => "volume",
    };
    let mut fields: Vec<Field> = Vec::new();
    add_member(&mut fields, text_member("event", name));
    match message {
        MprisMessage::Seek(offset) => {
            add_member(&mut fields, integer_member("offset", offset.as_micros()));
        },
        MprisMessage::SetPosition(trackid, position) => {
            add_member(&mut fields, text_member("trackid", trackid.as_str()));
            add_member(&mut fields, integer_member("position", position.as_micros()));
        },
        MprisMessage::SetLoopStatus(status) => {
            add_member(&mut fields, text_member("status", status.as_str()));
        },
        MprisMessage::SetShuffle(shuffle) => {
            add_member(
                &mut fields,
                Field { name: "shuffle".to_owned(), value: FieldValue::Flag(*shuffle) },
            );
        },
        MprisMessage::SetVolume(volume) => {
            add_member(
                &mut fields,
                Field { name: "volume".to_owned(), value: FieldValue::Level(*volume) },
            );
        },
        _ => {},
    }
    fields
}

/// Adds a member.
fn add_member(fields: &mut Vec<Field>, field: Field)
    ensures
        members(final(fields)@) == members(old(fields)@).insert(field.name@, field.value@),
{
    proof {
        lemma_members_push(fields@, field);
    }
    fields.push(field);
}

/// The line of text that carries a message. It ends with its only line break. What `serde_json`
/// reads out of it is an object with the members of the message.
pub fn encode(message: &MprisMessage) -> (r: String)
    ensures
        r@ == message_line(message@),
        !r@.drop_last().contains('\n'),
        parsed(r@.drop_last()) is Some ==> reads_as(parsed(r@.drop_last()), fields_of(message@)),
        !(message@ is SetVolume) ==> parsed(r@.drop_last()) is Some,
{
    let mut line = object_text(&message_fields(message));
    let ghost text = line@;
    line.push('\n');
    assert(line@.drop_last() == text);
    line
}

/// The names of two messages are the same only where the messages are of one kind.
proof fn lemma_event_names_differ(a: MprisMessageView, b: MprisMessageView)
    requires
        event_name(a) == event_name(b),
    ensures
        a is Next == b is Next,
        a is Previous == b is Previous,
        a is Pause == b is Pause,
        a is PlayPause == b is PlayPause,
        a is Stop == b is Stop,
        a is Play == b is Play,
        a is Seek == b is Seek,
        a is SetPosition == b is SetPosition,
        a is SetLoopStatus == b is SetLoopStatus,
        a is SetShuffle == b is SetShuffle,
        a is SetVolume == b is SetVolume,
{
    reveal_strlit("next");
    reveal_strlit("previous");
    reveal_strlit("pause");
    reveal_strlit("playpause");
    reveal_strlit("stop");
    reveal_strlit("play");
    reveal_strlit("seek");
    reveal_strlit("position");
    reveal_strlit("loop_status");
    reveal_strlit("shuffle");
    reveal_strlit("volume");
    let s = event_name(a);
    assert(s.len() == event_name(b).len());
    assert(s[0] == event_name(b)[0]);
    assert(s[1] == event_name(b)[1]);
}

/// A document carries at most one message: two messages that it reads as are the same, up to
/// the level of a volume.
pub proof fn law_document_carries_one_message(
    document: Option<JsonView>,
    a: MprisMessageView,
    b: MprisMessageView,
)
    requires
        reads_as(document, fields_of(a)),
        reads_as(document, fields_of(b)),
    ensures
        a == b || (a is SetVolume && b is SetVolume),
{
    reveal_strlit("event");
    reveal_strlit("offset");
    reveal_strlit("trackid");
    reveal_strlit("position");
    reveal_strlit("status");
    reveal_strlit("shuffle");
    reveal_strlit("volume");
    assert("volume"@.len() == 6);
    assert("event"@.len() == 5 && "offset"@.len() == 6 && "trackid"@.len() == 7);
    assert("position"@.len() == 8 && "status"@[0] == 's' && "shuffle"@.len() == 7);
    assert("trackid"@[0] == 't' && "shuffle"@[0] == 's' && "offset"@[0] == 'o');
    let fa = fields_of(a);
    let fb = fields_of(b);
    assert(fa.contains_key("event"@) && fb.contains_key("event"@));
    lemma_event_names_differ(a, b);
    assert(a is Seek ==> fa.contains_key("offset"@) && fb.contains_key("offset"@));
    assert(a is SetPosition ==> fa.contains_key("trackid"@) && fb.contains_key("trackid"@));
    assert(a is SetPosition ==> fa.contains_key("position"@) && fb.contains_key("position"@));
    assert(a is SetLoopStatus ==> fa.contains_key("status"@) && fb.contains_key("status"@));
    assert(a is SetShuffle ==> fa.contains_key("shuffle"@) && fb.contains_key("shuffle"@));
    match (a, b) {
        (MprisMessageView::SetLoopStatus(x), MprisMessageView::SetLoopStatus(y)) => {
            law_loop_status_name_round_trip(x);
            law_loop_status_name_round_trip(y);
        },
        _ => {},
    }
}

/// What a message says is what it carries.
pub proof fn law_view_of_messages(message: MprisMessage)
    ensures
        match message {
            MprisMessage::Next => message@ is Next,
            MprisMessage::Previous => message@ is Previous,
            MprisMessage::Pause => message@ is Pause,
            MprisMessage::PlayPause => message@ is PlayPause,
            MprisMessage::Stop => message@ is Stop,
            MprisMessage::Play => message@ is Play,
            MprisMessage::Seek(offset) => message@ == MprisMessageView::Seek(offset),
            MprisMessage::SetPosition(trackid, position) => message@
                == MprisMessageView::SetPosition(trackid@, position),
            MprisMessage::SetLoopStatus(status) => message@ == MprisMessageView::SetLoopStatus(
                status,
            ),
            MprisMessage::SetShuffle(shuffle) => message@ == MprisMessageView::SetShuffle(shuffle),
            MprisMessage::SetVolume(volume) => message@ == MprisMessageView::SetVolume(volume),
        },
{
}

/// What the value of a member says is what it carries.
pub proof fn law_view_of_field_values(value: FieldValue)
    ensures
        match value {
            FieldValue::Text(text) => value@ == Scalar::Text(text@),
            FieldValue::Integer(i) => value@ == Scalar::Integer(i),
            FieldValue::Flag(b) => value@ == Scalar::Flag(b),
            FieldValue::Level(level) => value@ == Scalar::Level(level),
        },
{
}

/// A member counts where no later one has its name.
pub proof fn law_last_of_a_name_counts(fields: Seq<Field>, i: int)
    requires
        0 <= i < fields.len(),
        forall|j: int| i < j < fields.len() ==> #[trigger] fields[j].name@ != fields[i].name@,
    ensures
        members(fields).contains_key(fields[i].name@),
        members(fields)[fields[i].name@] == fields[i].value@,
    decreases fields.len(),
{
    let rest = fields.drop_last();
    if i < fields.len() - 1 {
        assert(fields[fields.len() - 1].name@ != fields[i].name@);
        assert forall|j: int| i < j < rest.len() implies #[trigger] rest[j].name@
            != rest[i].name@ by {
            assert(rest[j] == fields[j]);
        }
        law_last_of_a_name_counts(rest, i);
    }
}

/// There are no members but those in `fields`.
pub proof fn law_members_are_given(fields: Seq<Field>, name: Seq<char>)
    requires
        members(fields).contains_key(name),
    ensures
        exists|i: int| 0 <= i < fields.len() && #[trigger] fields[i].name@ == name,
    decreases fields.len(),
{
    let rest = fields.drop_last();
    if name == fields.last().name@ {
        assert(fields[fields.len() - 1].name@ == name);
    } else {
        law_members_are_given(rest, name);
        let i = choose|i: int| 0 <= i < rest.len() && #[trigger] rest[i].name@ == name;
        assert(fields[i].name@ == name);
    }
}

/// The names of the members are all different.
proof fn lemma_member_names_differ()
    ensures
        "event"@ != "offset"@,
        "event"@ != "trackid"@,
        "event"@ != "position"@,
        "event"@ != "status"@,
        "event"@ != "shuffle"@,
        "event"@ != "volume"@,
        "offset"@ != "trackid"@,
        "offset"@ != "position"@,
        "offset"@ != "status"@,
        "offset"@ != "shuffle"@,
        "offset"@ != "volume"@,
        "trackid"@ != "position"@,
        "trackid"@ != "status"@,
        "trackid"@ != "shuffle"@,
        "trackid"@ != "volume"@,
        "position"@ != "status"@,
        "position"@ != "shuffle"@,
        "position"@ != "volume"@,
        "status"@ != "shuffle"@,
        "status"@ != "volume"@,
        "shuffle"@ != "volume"@,
{
    reveal_strlit("event");
    reveal_strlit("offset");
    reveal_strlit("trackid");
    reveal_strlit("position");
    reveal_strlit("status");
    reveal_strlit("shuffle");
    reveal_strlit("volume");
    assert("event"@.len() == 5 && "event"@[0] == 'e');
    assert("offset"@.len() == 6 && "offset"@[0] == 'o');
    assert("trackid"@.len() == 7 && "trackid"@[0] == 't');
    assert("position"@.len() == 8 && "position"@[0] == 'p');
    assert("status"@.len() == 6 && "status"@[0] == 's');
    assert("shuffle"@.len() == 7 && "shuffle"@[0] == 's');
    assert("volume"@.len() == 6 && "volume"@[0] == 'v');
}

/// The members that carry a message are its name and its arguments.
pub proof fn law_members_of_messages(message: MprisMessageView)
    ensures
        match message {
            MprisMessageView::Next => fields_of(message) == map!["event"@ => Scalar::Text("next"@)],
            MprisMessageView::Previous => fields_of(message)
                == map!["event"@ => Scalar::Text("previous"@)],
            MprisMessageView::Pause => fields_of(message)
                == map!["event"@ => Scalar::Text("pause"@)],
            MprisMessageView::PlayPause => fields_of(message)
                == map!["event"@ => Scalar::Text("playpause"@)],
            MprisMessageView::Stop => fields_of(message) == map!["event"@ => Scalar::Text("stop"@)],
            MprisMessageView::Play => fields_of(message) == map!["event"@ => Scalar::Text("play"@)],
            MprisMessageView::Seek(offset) => fields_of(message) == map![
                "event"@ => Scalar::Text("seek"@),
                "offset"@ => Scalar::Integer(offset.micros),
            ],
            MprisMessageView::SetPosition(trackid, position) => fields_of(message) == map![
                "event"@ => Scalar::Text("position"@),
                "trackid"@ => Scalar::Text(trackid),
                "position"@ => Scalar::Integer(position.micros),
            ],
            MprisMessageView::SetLoopStatus(status) => fields_of(message) == map![
                "event"@ => Scalar::Text("loop_status"@),
                "status"@ => Scalar::Text(
                    match status {
                        LoopStatus::Off => "None"@,
                        LoopStatus::Track => "Track"@,
                        LoopStatus::Playlist => "Playlist"@,
                    },
                ),
            ],
            MprisMessageView::SetShuffle(shuffle) => fields_of(message) == map![
                "event"@ => Scalar::Text("shuffle"@),
                "shuffle"@ => Scalar::Flag(shuffle),
            ],
            MprisMessageView::SetVolume(volume) => fields_of(message) == map![
                "event"@ => Scalar::Text("volume"@),
                "volume"@ => Scalar::Level(volume),
            ],
        },
{
    lemma_member_names_differ();
}

/// The line that carries a message is the text of the object with the members of the message,
/// and a line break.
pub proof fn law_line_is_the_text_of_the_members(message: MprisMessageView)
    ensures
        message_line(message).len() > 0,
        message_line(message).last() == '\n',
        message_line(message).drop_last() == json_text(fields_of(message)),
{
}

/// A document that reads as a message is an object that holds the name of the message, its
/// arguments and nothing else.
pub proof fn law_document_holds_the_message(document: Option<JsonView>, message: MprisMessageView)
    requires
        reads_as(document, fields_of(message)),
    ensures
        document matches Some(JsonView::Object(found)) && match message {
            MprisMessageView::Next => {
                &&& found.dom() == set!["event"@]
                &&& found["event"@] == JsonView::Text("next"@)
            },
            MprisMessageView::Previous => {
                &&& found.dom() == set!["event"@]
                &&& found["event"@] == JsonView::Text("previous"@)
            },
            MprisMessageView::Pause => {
                &&& found.dom() == set!["event"@]
                &&& found["event"@] == JsonView::Text("pause"@)
            },
            MprisMessageView::PlayPause => {
                &&& found.dom() == set!["event"@]
                &&& found["event"@] == JsonView::Text("playpause"@)
            },
            MprisMessageView::Stop => {
                &&& found.dom() == set!["event"@]
                &&& found["event"@] == JsonView::Text("stop"@)
            },
            MprisMessageView::Play => {
                &&& found.dom() == set!["event"@]
                &&& found["event"@] == JsonView::Text("play"@)
            },
            MprisMessageView::Seek(offset) => {
                &&& found.dom() == set!["event"@, "offset"@]
                &&& found["event"@] == JsonView::Text("seek"@)
                &&& found["offset"@] matches JsonView::Number(number) && number.integer == Some(
                    offset.micros,
                )
            },
            MprisMessageView::SetPosition(trackid, position) => {
                &&& found.dom() == set!["event"@, "trackid"@, "position"@]
                &&& found["event"@] == JsonView::Text("position"@)
                &&& found["trackid"@] == JsonView::Text(trackid)
                &&& found["position"@] matches JsonView::Number(number) && number.integer == Some(
                    position.micros,
                )
            },
            MprisMessageView::SetLoopStatus(status) => {
                &&& found.dom() == set!["event"@, "status"@]
                &&& found["event"@] == JsonView::Text("loop_status"@)
                &&& status is Off ==> found["status"@] == JsonView::Text("None"@)
                &&& status is Track ==> found["status"@] == JsonView::Text("Track"@)
                &&& status is Playlist ==> found["status"@] == JsonView::Text("Playlist"@)
            },
            MprisMessageView::SetShuffle(shuffle) => {
                &&& found.dom() == set!["event"@, "shuffle"@]
                &&& found["event"@] == JsonView::Text("shuffle"@)
                &&& found["shuffle"@] == JsonView::Bool(shuffle)
            },
            MprisMessageView::SetVolume(_) => {
                &&& found.dom() == set!["event"@, "volume"@]
                &&& found["event"@] == JsonView::Text("volume"@)
            },
        },
{
    lemma_member_names_differ();
    let fields = fields_of(message);
    assert(document matches Some(JsonView::Object(found)) && found.dom() == fields.dom());
    assert(fields.contains_key("event"@));
    assert(message is Seek ==> fields.contains_key("offset"@));
    assert(message is SetPosition ==> fields.contains_key("trackid"@));
    assert(message is SetPosition ==> fields.contains_key("position"@));
    assert(message is SetLoopStatus ==> fields.contains_key("status"@));
    assert(message is SetShuffle ==> fields.contains_key("shuffle"@));
}

} // verus!
