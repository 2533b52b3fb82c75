//! The socket on which the player plugin is served.
use crate::command::{
    decode, decoded, failure_of, find_failure, Decoded, DecodedView, Failure, SocketCommand,
    SocketCommandView,
};
use crate::json::{parse, parsed, Json, JsonView};
use crate::message::{
    encode, fields_of, json_text, law_document_holds_the_message,
    law_line_is_the_text_of_the_members, law_members_of_messages, message_line, reads_as,
    MprisMessage, MprisMessageView, Scalar,
};
use crate::mpris::LoopStatus;
use crate::text::{
    after_prefix, decimal, decimal_text, law_decimal_stands_for_its_number, number_of,
};
use vstd::prelude::*;

verus! {

/// Serves the player plugin on a socket of the user `uid`. Drive C of the player lies under
/// `wineprefix`, once that is known.
#[derive(Debug)]
pub struct SocketHandler {
    pub wineprefix: Option<String>,
    pub uid: u32,
}

/// Something that happens while the plugin is served.
#[derive(Debug)]
pub enum SocketEvent {
    /// A line of text came from the plugin, here without its line break.
    Line(String),
    /// No more text can be read from the plugin.
    Closed,
    /// There is a message for the plugin.
    Message(MprisMessage),
    /// There will be no more messages for the plugin.
    NoMessage,
}

/// Something that happens while the plugin is served.
pub enum SocketEventView {
    Line(Seq<char>),
    Closed,
    Message(MprisMessageView),
    NoMessage,
}

impl View for SocketEvent {
    type V = SocketEventView;

    open spec fn view(&self) -> SocketEventView {
        match self {
            SocketEvent::Line(line) => SocketEventView::Line(line@),
            SocketEvent::Closed => SocketEventView::Closed,
            SocketEvent::Message(message) => SocketEventView::Message(message@),
            SocketEvent::NoMessage => SocketEventView::NoMessage,
        }
    }
}

/// Why there is nothing to do.
#[derive(Debug)]
pub enum Skipped {
    /// The line is not a JSON document.
    NotJson,
    /// The event lacks a member that it needs.
    Incomplete,
    /// The event has a name that is not known.
    UnknownEvent(String),
    /// The document names no event.
    NoEvent,
    /// There is no message.
    NoMessage,
}

/// Why there is nothing to do.
pub enum SkippedView {
    NotJson,
    Incomplete,
    UnknownEvent(Seq<char>),
    NoEvent,
    NoMessage,
}

impl View for Skipped {
    type V = SkippedView;

    open spec fn view(&self) -> SkippedView {
        match self {
            Skipped::NotJson => SkippedView::NotJson,
            Skipped::Incomplete => SkippedView::Incomplete,
            Skipped::UnknownEvent(name) => SkippedView::UnknownEvent(name@),
            Skipped::NoEvent => SkippedView::NoEvent,
            Skipped::NoMessage => SkippedView::NoMessage,
        }
    }
}

/// What is to be done about an event.
#[derive(Debug)]
pub enum SocketAction {
    /// Hand on this command and go on.
    Send(SocketCommand),
    /// Hand on this command and stop serving.
    SendAndStop(SocketCommand),
    /// Write this text to the plugin and go on.
    Write(String),
    /// Go on.
    Skip(Skipped),
    /// Stop serving.
    Stop,
    /// Give up.
    Fail(Failure),
}

/// What is to be done about an event.
pub enum SocketActionView {
    Send(SocketCommandView),
    SendAndStop(SocketCommandView),
    Write(Seq<char>),
    Skip(SkippedView),
    Stop,
    Fail(Failure),
}

impl View for SocketAction {
    type V = SocketActionView;

    open spec fn view(&self) -> SocketActionView {
        match self {
            SocketAction::Send(command) => SocketActionView::Send(command@),
            SocketAction::SendAndStop(command) => SocketActionView::SendAndStop(command@),
            SocketAction::Write(text) => SocketActionView::Write(text@),
            SocketAction::Skip(skipped) => SocketActionView::Skip(skipped@),
            SocketAction::Stop => SocketActionView::Stop,
            SocketAction::Fail(failure) => SocketActionView::Fail(*failure),
        }
    }
}

/// The directory of the socket of a user.
pub open spec fn socket_dir_of(uid: u32) -> Seq<char> {
    "/tmp/mprisbee"@ + decimal(uid as nat)
}

/// The Wine prefix that the first environment variable of that name among `environ` gives.
pub open spec fn wineprefix_in(environ: Seq<Seq<char>>) -> Option<Seq<char>>
    decreases environ.len(),
{
    if environ.len() == 0 {
        None
    } else if "WINEPREFIX="@.is_prefix_of(environ[0]) {
        Some(environ[0].skip("WINEPREFIX="@.len() as int))
    } else {
        wineprefix_in(environ.skip(1))
    }
}

/// What is to be done about what was read out of a line.
pub open spec fn action_on_document(
    document: Option<JsonView>,
    wineprefix: Option<Seq<char>>,
) -> SocketActionView {
    match document {
        None => SocketActionView::Skip(SkippedView::NotJson),
        Some(json) => match failure_of(json, wineprefix) {
            Some(failure) => SocketActionView::Fail(failure),
            None => match decoded(json, wineprefix) {
                DecodedView::Command(command) => if command is Exit {
                    SocketActionView::SendAndStop(command)
                } else {
                    SocketActionView::Send(command)
                },
                DecodedView::Incomplete => SocketActionView::Skip(SkippedView::Incomplete),
                DecodedView::Unknown(name) => SocketActionView::Skip(
                    SkippedView::UnknownEvent(name),
                ),
                DecodedView::Missing => SocketActionView::Skip(SkippedView::NoEvent),
            },
        },
    }
}

/// What is to be done about an event.
pub open spec fn action_on(
    event: SocketEventView,
    wineprefix: Option<Seq<char>>,
) -> SocketActionView {
    match event {
        SocketEventView::Line(line) => action_on_document(parsed(line), wineprefix),
        SocketEventView::Closed => SocketActionView::Stop,
        SocketEventView::Message(message) => SocketActionView::Write(message_line(message)),
        SocketEventView::NoMessage => SocketActionView::Skip(SkippedView::NoMessage),
    }
}

/// The commands that are handed on while `events` happen one after the other.
pub open spec fn handed_on(
    events: Seq<SocketEventView>,
    wineprefix: Option<Seq<char>>,
) -> Seq<SocketCommandView>
    decreases events.len(),
{
    if events.len() == 0 {
        Seq::empty()
    } else {
        match action_on(events[0], wineprefix) {
            SocketActionView::Send(command) => seq![command] + handed_on(
                events.skip(1),
                wineprefix,
            ),
            SocketActionView::SendAndStop(command) => seq![command],
            SocketActionView::Write(_) | SocketActionView::Skip(_) => handed_on(
                events.skip(1),
                wineprefix,
            ),
            SocketActionView::Stop | SocketActionView::Fail(_) => Seq::empty(),
        }
    }
}

/// Whether an action ends the service in good order.
pub open spec fn stops(action: SocketActionView) -> bool {
    action is SendAndStop || action is Stop
}

/// Calls `users::get_current_uid`, which asks the system for the user that runs the process.
#[verifier::external_body]
fn current_uid() -> (r: u32) {
    users::get_current_uid()
}

impl SocketHandler {
    /// A handler for the user that runs the process. Which user that is, is up to the system.
    pub fn new() -> (r: SocketHandler)
        ensures
            r.wineprefix is None,
    {
        SocketHandler::for_user(current_uid())
    }

    /// A handler for the user `uid`.
    pub fn for_user(uid: u32) -> (r: SocketHandler)
        ensures
            r.wineprefix is None,
            r.uid == uid,
    {
        SocketHandler { wineprefix: None, uid }
    }

    /// The directory of the socket.
    pub fn socket_dir(&self) -> (r: String)
        ensures
            r@ == socket_dir_of(self.uid),
    {
        "/tmp/mprisbee".to_owned().concat(decimal_text(self.uid).as_str())
    }

    /// The path of the socket.
    pub fn socket_path(&self) -> (r: String)
        ensures
            r@ == socket_dir_of(self.uid) + "/wine.sock"@,
    {
        self.socket_dir().concat("/wine.sock")
    }

    /// The path of the file that is removed when the handler is dropped, ahead of the directory.
    pub fn leftover_path(&self) -> (r: String)
        ensures
            r@ == socket_dir_of(self.uid) + "/wine-out"@,
    {
        self.socket_dir().concat("/wine-out")
    }

    /// Takes the Wine prefix from the environment variables of the player, each of the form
    /// `NAME=value`. Tells whether there was one.
    pub fn adopt_environ(&mut self, environ: &Vec<String>) -> (r: bool)
        ensures
            r == wineprefix_in(environ.deep_view()) is Some,
            final(self).wineprefix.deep_view() == match wineprefix_in(environ.deep_view()) {
                Some(prefix) => Some(prefix),
                None => old(self).wineprefix.deep_view(),
            },
            final(self).uid == old(self).uid,
    {
        match find_wineprefix(environ) {
            Some(prefix) => {
                self.wineprefix = Some(prefix);
                true
            },
            None => false,
        }
    }

    /// Decides what is to be done about what was read out of a line.
    pub fn react(&self, document: &Option<Json>) -> (r: SocketAction)
        ensures
            r@ == action_on_document(
                match document {
                    Some(json) => Some(json@),
                    None => None,
                },
                self.wineprefix.deep_view(),
            ),
    {
        let json = match document {
            Some(json) => json,
            None => {
                return SocketAction::Skip(Skipped::NotJson);
            },
        };
        match find_failure(json, &self.wineprefix) {
            Some(failure) => {
                return SocketAction::Fail(failure);
            },
            None => {},
        }
        match decode(json, &self.wineprefix) {
            Decoded::Command(SocketCommand::Exit) => SocketAction::SendAndStop(
                SocketCommand::Exit,
            ),
            Decoded::Command(command) => SocketAction::Send(command),
            Decoded::Incomplete => SocketAction::Skip(Skipped::Incomplete),
            Decoded::Unknown(name) => SocketAction::Skip(Skipped::UnknownEvent(name)),
            Decoded::Missing => SocketAction::Skip(Skipped::NoEvent),
        }
    }

    /// Runs the handler on one event: decides what is to be done about it. What is written to
    /// the plugin is one line, and the plugin can read the message back out of it.
    pub fn run(&self, event: &SocketEvent) -> (r: SocketAction)
        ensures
            r@ == action_on(event@, self.wineprefix.deep_view()),
            r@ matches SocketActionView::Write(text) ==> {
                &&& text.last() == '\n'
                &&& !text.drop_last().contains('\n')
            },
            event@ matches SocketEventView::Message(message) ==> {
                let document = parsed(message_line(message).drop_last());
                &&& document is Some ==> reads_as(document, fields_of(message))
                &&& !(message is SetVolume) ==> document is Some
            },
            *event matches SocketEvent::Message(message) ==> {
                &&& r matches SocketAction::Write(text) && {
                    let document = parsed(text@.drop_last());
                    &&& text@.len() > 0 && text@.last() == '\n'
                    &&& !text@.drop_last().contains('\n')
                    &&& document is Some ==> reads_as(document, fields_of(message@))
                    &&& document is Some ==> {
                        document matches Some(JsonView::Object(found)) && match message@ {
                            MprisMessageView::Next => {
                                &&& found.dom() == set!["event"@]
                                &&& found["event"@] == JsonView::Text("next"@)
                            },
                            MprisMessageView::Previous => {
                                &&& found.dom() == set!["event"@]
                                &&& found["event"@] == JsonView::Text("previous"@)
                            },
                            MprisMessageView::Pause => {
                                &&& found.dom() == set!["event"@]
                                &&& found["event"@] == JsonView::Text("pause"@)
                            },
                            MprisMessageView::PlayPause => {
                                &&& found.dom() == set!["event"@]
                                &&& found["event"@] == JsonView::Text("playpause"@)
                            },
                            MprisMessageView::Stop => {
                                &&& found.dom() == set!["event"@]
                                &&& found["event"@] == JsonView::Text("stop"@)
                            },
                            MprisMessageView::Play => {
                                &&& found.dom() == set!["event"@]
                                &&& found["event"@] == JsonView::Text("play"@)
                            },
                            MprisMessageView::Seek(offset) => {
                                &&& found.dom() == set!["event"@, "offset"@]
                                &&& found["event"@] == JsonView::Text("seek"@)
                                &&& found["offset"@] matches JsonView::Number(number)
                                    && number.integer == Some(offset.micros)
                            },
                            MprisMessageView::SetPosition(trackid, position) => {
                                &&& found.dom() == set!["event"@, "trackid"@, "position"@]
                                &&& found["event"@] == JsonView::Text("position"@)
                                &&& found["trackid"@] == JsonView::Text(trackid)
                                &&& found["position"@] matches JsonView::Number(number)
                                    && number.integer == Some(position.micros)
                            },
                            MprisMessageView::SetLoopStatus(status) => {
                                &&& found.dom() == set!["event"@, "status"@]
                                &&& found["event"@] == JsonView::Text("loop_status"@)
                                &&& status is Off ==> found["status"@] == JsonView::Text("None"@)
                                &&& status is Track ==> found["status"@] == JsonView::Text(
                                    "Track"@,
                                )
                                &&& status is Playlist ==> found["status"@] == JsonView::Text(
                                    "Playlist"@,
                                )
                            },
                            MprisMessageView::SetShuffle(shuffle) => {
                                &&& found.dom() == set!["event"@, "shuffle"@]
                                &&& found["event"@] == JsonView::Text("shuffle"@)
                                &&& found["shuffle"@] == JsonView::Bool(shuffle)
                            },
                            MprisMessageView::SetVolume(_) => {
                                &&& found.dom() == set!["event"@, "volume"@]
                                &&& found["event"@] == JsonView::Text("volume"@)
                            },
                        }
                    }
                    &&& !(message is SetVolume) ==> document is Some
                }
            },
    {
        match event {
            SocketEvent::Line(line) => self.react(&parse(line.as_str())),
            SocketEvent::Closed => SocketAction::Stop,
            SocketEvent::Message(message) => {
                let text = encode(message);
                proof {
                    let document = parsed(text@.drop_last());
                    if document is Some {
                        law_document_holds_the_message(document, message@);
                    }
                }
                SocketAction::Write(text)
            },
            SocketEvent::NoMessage => SocketAction::Skip(Skipped::NoMessage),
        }
    }
}

/// The Wine prefix that the first environment variable of that name gives.
pub fn find_wineprefix(environ: &Vec<String>) -> (r: Option<String>)
    ensures
        r.deep_view() == wineprefix_in(environ.deep_view()),
        match r {
            Some(prefix) => exists|i: int|
                #![trigger environ@[i]]
                {
                    &&& 0 <= i < environ@.len()
                    &&& environ@[i]@ == "WINEPREFIX="@ + prefix@
                    &&& forall|j: int|
                        0 <= j < i ==> !"WINEPREFIX="@.is_prefix_of(#[trigger] environ@[j]@)
                },
            None => forall|i: int|
                0 <= i < environ@.len() ==> !"WINEPREFIX="@.is_prefix_of(#[trigger] environ@[i]@),
        },
{
    let ghost vars = environ.deep_view();
    assert(vars.skip(0) == vars);
    for i in 0..environ.len()
        invariant
            vars == environ.deep_view(),
            wineprefix_in(vars) == wineprefix_in(vars.skip(i as int)),
            forall|j: int|
                0 <= j < i ==> !"WINEPREFIX="@.is_prefix_of(#[trigger] environ@[j]@),
    {
        assert(vars.skip(i as int)[0] == environ@[i as int]@);
        assert(vars.skip(i as int).skip(1) == vars.skip(i + 1));
        match after_prefix(environ[i].as_str(), "WINEPREFIX=") {
            Some(prefix) => {
                assert(environ@[i as int]@.skip("WINEPREFIX="@.len() as int) == prefix@);
                assert(environ@[i as int]@ == "WINEPREFIX="@ + prefix@);
                return Some(prefix);
            },
            None => {},
        }
    }
    None
}

/// The service ends in good order exactly when no more text can be read or the event `exit`
/// arrives.
pub proof fn law_stops_on_close_or_exit(event: SocketEventView, wineprefix: Option<Seq<char>>)
    ensures
        stops(action_on(event, wineprefix)) <==> (event is Closed || match event {
            SocketEventView::Line(line) => match parsed(line) {
                Some(json) => crate::json::text_field(json, "event"@) == Some("exit"@),
                None => false,
            },
            _ => false,
        }),
{
    reveal_strlit("metachange");
    reveal_strlit("artupdate");
    reveal_strlit("seek");
    reveal_strlit("pause");
    reveal_strlit("play");
    reveal_strlit("stop");
    reveal_strlit("shuffle");
    reveal_strlit("loopstatus");
    reveal_strlit("exit");
    assert("exit"@.len() == 4 && "exit"@[0] == 'e');
    assert("metachange"@[0] == 'm' && "artupdate"@[0] == 'a' && "seek"@[0] == 's');
    assert("pause"@[0] == 'p' && "play"@[0] == 'p' && "stop"@[0] == 's');
    assert("shuffle"@[0] == 's' && "loopstatus"@[0] == 'l');
}

/// Two users never share a socket directory.
pub proof fn law_socket_dirs_differ(a: u32, b: u32)
    ensures
        socket_dir_of(a) == socket_dir_of(b) ==> a == b,
{
    if socket_dir_of(a) == socket_dir_of(b) {
        let start = "/tmp/mprisbee"@.len() as int;
        assert(socket_dir_of(a).skip(start) == decimal(a as nat));
        assert(socket_dir_of(b).skip(start) == decimal(b as nat));
        crate::text::law_decimal_tells_numbers_apart(a as nat, b as nat);
    }
}

/// Whatever happens on the socket, `Exit` is handed on at most once, as the last command.
pub proof fn law_exit_is_handed_on_last(
    events: Seq<SocketEventView>,
    wineprefix: Option<Seq<char>>,
    i: int,
)
    requires
        0 <= i < handed_on(events, wineprefix).len(),
        handed_on(events, wineprefix)[i] is Exit,
    ensures
        i == handed_on(events, wineprefix).len() - 1,
    decreases events.len(),
{
    let rest = events.skip(1);
    match action_on(events[0], wineprefix) {
        SocketActionView::Send(_) => {
            assert(i > 0);
            assert(handed_on(events, wineprefix)[i] == handed_on(rest, wineprefix)[i - 1]);
            law_exit_is_handed_on_last(rest, wineprefix, i - 1);
        },
        SocketActionView::Write(_) | SocketActionView::Skip(_) => {
            law_exit_is_handed_on_last(rest, wineprefix, i);
        },
        _ => {},
    }
}

/// What happened is what an event carries.
pub proof fn law_view_of_events(event: SocketEvent)
    ensures
        match event {
            SocketEvent::Line(line) => event@ == SocketEventView::Line(line@),
            SocketEvent::Closed => event@ is Closed,
            SocketEvent::Message(message) => event@ == SocketEventView::Message(message@),
            SocketEvent::NoMessage => event@ is NoMessage,
        },
{
}

/// What is to be done is what an action carries.
pub proof fn law_view_of_actions(action: SocketAction)
    ensures
        match action {
            SocketAction::Send(command) => action@ == SocketActionView::Send(command@),
            SocketAction::SendAndStop(command) => action@ == SocketActionView::SendAndStop(
                command@,
            ),
            SocketAction::Write(text) => action@ == SocketActionView::Write(text@),
            SocketAction::Skip(skipped) => action@ == SocketActionView::Skip(skipped@),
            SocketAction::Stop => action@ is Stop,
            SocketAction::Fail(failure) => action@ == SocketActionView::Fail(failure),
        },
{
}

/// Why nothing is to be done is what a reason carries.
pub proof fn law_view_of_reasons(skipped: Skipped)
    ensures
        match skipped {
            Skipped::NotJson => skipped@ is NotJson,
            Skipped::Incomplete => skipped@ is Incomplete,
            Skipped::UnknownEvent(name) => skipped@ == SkippedView::UnknownEvent(name@),
            Skipped::NoEvent => skipped@ is NoEvent,
            Skipped::NoMessage => skipped@ is NoMessage,
        },
{
}

/// A message is written as the text of the object that holds its name, its arguments and
/// nothing else, and a line break.
pub proof fn law_message_is_written(message: MprisMessageView, wineprefix: Option<Seq<char>>)
    ensures
        action_on(SocketEventView::Message(message), wineprefix) matches SocketActionView::Write(
            text,
        ) && {
            &&& text.len() > 0 && text.last() == '\n'
            &&& text.drop_last() == json_text(
                match message {
                    MprisMessageView::Next => map!["event"@ => Scalar::Text("next"@)],
                    MprisMessageView::Previous => map!["event"@ => Scalar::Text("previous"@)],
                    MprisMessageView::Pause => map!["event"@ => Scalar::Text("pause"@)],
                    MprisMessageView::PlayPause => map!["event"@ => Scalar::Text("playpause"@)],
                    MprisMessageView::Stop => map!["event"@ => Scalar::Text("stop"@)],
                    MprisMessageView::Play => map!["event"@ => Scalar::Text("play"@)],
                    MprisMessageView::Seek(offset) => map![
                        "event"@ => Scalar::Text("seek"@),
                        "offset"@ => Scalar::Integer(offset.micros),
                    ],
                    MprisMessageView::SetPosition(trackid, position) => map![
                        "event"@ => Scalar::Text("position"@),
                        "trackid"@ => Scalar::Text(trackid),
                        "position"@ => Scalar::Integer(position.micros),
                    ],
                    MprisMessageView::SetLoopStatus(status) => map![
                        "event"@ => Scalar::Text("loop_status"@),
                        "status"@ => Scalar::Text(
                            match status {
                                LoopStatus::Off => "None"@,
                                LoopStatus::Track => "Track"@,
                                LoopStatus::Playlist => "Playlist"@,
                            },
                        ),
                    ],
                    MprisMessageView::SetShuffle(shuffle) => map![
                        "event"@ => Scalar::Text("shuffle"@),
                        "shuffle"@ => Scalar::Flag(shuffle),
                    ],
                    MprisMessageView::SetVolume(volume) => map![
                        "event"@ => Scalar::Text("volume"@),
                        "volume"@ => Scalar::Level(volume),
                    ],
                },
            )
        },
{
    law_members_of_messages(message);
    law_line_is_the_text_of_the_members(message);
}

/// A line that is no JSON document is passed over. Of one that is, the failure is the answer
/// where there is one. Else the command that it comes to is handed on, and with `Exit` the
/// service ends. Where it comes to none, it is passed over for the reason why not.
pub proof fn law_line_is_handled(line: Seq<char>, json: JsonView, wineprefix: Option<Seq<char>>)
    ensures
        ({
            let action = action_on(SocketEventView::Line(line), wineprefix);
            let failure = failure_of(json, wineprefix);
            let outcome = decoded(json, wineprefix);
            &&& parsed(line) is None <==> action == SocketActionView::Skip(SkippedView::NotJson)
            &&& parsed(line) == Some(json) && failure is Some ==> action == SocketActionView::Fail(
                failure->0,
            )
            &&& parsed(line) == Some(json) && failure is None ==> {
                &&& outcome matches DecodedView::Command(command) ==> if command
                    == SocketCommandView::Exit {
                    action == SocketActionView::SendAndStop(SocketCommandView::Exit)
                } else {
                    action == SocketActionView::Send(command)
                }
                &&& outcome is Incomplete ==> action == SocketActionView::Skip(
                    SkippedView::Incomplete,
                )
                &&& outcome matches DecodedView::Unknown(name) ==> action
                    == SocketActionView::Skip(SkippedView::UnknownEvent(name))
                &&& outcome is Missing ==> action == SocketActionView::Skip(SkippedView::NoEvent)
            }
        }),
{
}

/// The service ends when no more text can be read. It goes on when there are no more messages.
pub proof fn law_ends_are_told_apart(wineprefix: Option<Seq<char>>)
    ensures
        action_on(SocketEventView::Closed, wineprefix) == SocketActionView::Stop,
        action_on(SocketEventView::NoMessage, wineprefix) == SocketActionView::Skip(
            SkippedView::NoMessage,
        ),
{
}

/// The Wine prefix is what follows `WINEPREFIX=` in the first variable that starts so, wherever
/// that variable stands.
pub proof fn law_first_wineprefix_counts(environ: Seq<Seq<char>>, i: int, prefix: Seq<char>)
    requires
        0 <= i < environ.len(),
        environ[i] == "WINEPREFIX="@ + prefix,
        forall|j: int| 0 <= j < i ==> !"WINEPREFIX="@.is_prefix_of(#[trigger] environ[j]),
    ensures
        wineprefix_in(environ) == Some(prefix),
    decreases i,
{
    if i == 0 {
        assert(environ[0].subrange(0, "WINEPREFIX="@.len() as int) == "WINEPREFIX="@);
        assert(environ[0].skip("WINEPREFIX="@.len() as int) == prefix);
    } else {
        let rest = environ.skip(1);
        assert(!"WINEPREFIX="@.is_prefix_of(environ[0]));
        assert(rest[i - 1] == environ[i]);
        assert forall|j: int| 0 <= j < i - 1 implies !"WINEPREFIX="@.is_prefix_of(
            #[trigger] rest[j],
        ) by {
            assert(rest[j] == environ[j + 1]);
        }
        law_first_wineprefix_counts(rest, i - 1, prefix);
    }
}

/// No Wine prefix is found only where none of the variables starts with `WINEPREFIX=`.
pub proof fn law_no_wineprefix_is_missed(environ: Seq<Seq<char>>)
    ensures
        wineprefix_in(environ) is None <==> forall|i: int|
            0 <= i < environ.len() ==> !"WINEPREFIX="@.is_prefix_of(#[trigger] environ[i]),
    decreases environ.len(),
{
    if environ.len() > 0 {
        let rest = environ.skip(1);
        law_no_wineprefix_is_missed(rest);
        if wineprefix_in(environ) is None {
            assert forall|i: int| 0 <= i < environ.len() implies !"WINEPREFIX="@.is_prefix_of(
                #[trigger] environ[i],
            ) by {
                if i > 0 {
                    assert(environ[i] == rest[i - 1]);
                }
            }
        } else if !"WINEPREFIX="@.is_prefix_of(environ[0]) {
            let i = choose|i: int|
                0 <= i < rest.len() && "WINEPREFIX="@.is_prefix_of(#[trigger] rest[i]);
            assert(rest[i] == environ[i + 1]);
            assert("WINEPREFIX="@.is_prefix_of(environ[i + 1]));
        } else {
            assert("WINEPREFIX="@.is_prefix_of(environ[0]));
        }
    }
}

/// Variables before and after the one that gives the Wine prefix make no difference.
pub proof fn law_other_variables_make_no_difference(
    before: Seq<Seq<char>>,
    after: Seq<Seq<char>>,
)
    requires
        forall|j: int| 0 <= j < before.len() ==> !"WINEPREFIX="@.is_prefix_of(
            #[trigger] before[j],
        ),
    ensures
        wineprefix_in(before + after) == wineprefix_in(after),
    decreases before.len(),
{
    if before.len() == 0 {
        assert(before + after == after);
    } else {
        assert((before + after)[0] == before[0]);
        assert((before + after).skip(1) == before.skip(1) + after);
        assert forall|j: int| 0 <= j < before.skip(1).len() implies !"WINEPREFIX="@.is_prefix_of(
            #[trigger] before.skip(1)[j],
        ) by {
            assert(before.skip(1)[j] == before[j + 1]);
        }
        law_other_variables_make_no_difference(before.skip(1), after);
    }
}

/// The socket directory of a user is named by the number of the user, in decimal digits.
pub proof fn law_socket_dir_names_the_user(uid: u32)
    ensures
        ({
            let dir = socket_dir_of(uid);
            let start = "/tmp/mprisbee"@.len() as int;
            &&& dir.len() > start
            &&& dir.take(start) == "/tmp/mprisbee"@
            &&& forall|i: int| start <= i < dir.len() ==> '0' <= #[trigger] dir[i] <= '9'
            &&& number_of(dir.skip(start)) == uid
            &&& dir[start] == '0' ==> dir.len() == start + 1
        }),
{
    let dir = socket_dir_of(uid);
    let start = "/tmp/mprisbee"@.len() as int;
    law_decimal_stands_for_its_number(uid as nat);
    assert(dir.take(start) == "/tmp/mprisbee"@);
    assert(dir.skip(start) == decimal(uid as nat));
    assert forall|i: int| start <= i < dir.len() implies '0' <= #[trigger] dir[i] <= '9' by {
        assert(dir[i] == decimal(uid as nat)[i - start]);
    }
}

} // verus!
