//! Desktop notifications on track change, which the user asks for with an option.
use crate::command::{SocketCommand, SocketCommandView};
use crate::metadata::{text_or, MetadataView};
use crate::player::{PlayerState, PlayerStateView};
use crate::text::{join, joined, law_joined_short, law_joined_splits, text_eq};
use vstd::prelude::*;

verus! {

/// The options of the program.
#[derive(Clone, Copy, Debug, PartialEq, Eq, Structural)]
pub struct Options {
    /// Send notifications on track change.
    pub notifications: bool,
}

/// A notification.
#[derive(Debug)]
pub struct Notification {
    pub summary: String,
    pub body: String,
}

/// What a notification says.
pub struct NotificationView {
    pub summary: Seq<char>,
    pub body: Seq<char>,
}

impl View for Notification {
    type V = NotificationView;

    open spec fn view(&self) -> NotificationView {
        NotificationView { summary: self.summary@, body: self.body@ }
    }
}

/// Whether an argument asks for notifications.
pub open spec fn asks_for_notifications(arg: Seq<char>) -> bool {
    arg == "-n"@ || arg == "--notifications"@
}

/// The notification of a track: its title, and its artists with commas between them.
pub open spec fn notification_of(metadata: MetadataView) -> NotificationView {
    NotificationView {
        summary: text_or(metadata.title, Seq::empty()),
        body: match metadata.artist {
            Some(names) => joined(names, ", "@),
            None => Seq::empty(),
        },
    }
}

/// Whether a command makes another track the current one.
pub open spec fn changes_track(state: PlayerStateView, command: SocketCommandView) -> bool {
    match command {
        SocketCommandView::MetadataChange(metadata) => metadata.trackid != state.metadata.trackid,
        _ => false,
    }
}

/// The notification that goes with a command, if one does.
pub open spec fn notification_on(
    options: Options,
    state: PlayerStateView,
    command: SocketCommandView,
) -> Option<NotificationView> {
    if options.notifications && changes_track(state, command) {
        Some(notification_of(command->MetadataChange_0))
    } else {
        None
    }
}

impl Options {
    /// Reads the options out of the arguments of the program. Other arguments are passed over.
    pub fn from_args(args: &Vec<String>) -> (r: Options)
        ensures
            r.notifications <==> exists|i: int|
                0 <= i < args@.len() && asks_for_notifications(#[trigger] args@[i]@),
            r.notifications <==> exists|i: int|
                0 <= i < args@.len() && (#[trigger] args@[i]@ == "-n"@ || args@[i]@
                    == "--notifications"@),
    {
        for i in 0..args.len()
            invariant
                forall|j: int| 0 <= j < i ==> !asks_for_notifications(#[trigger] args@[j]@),
        {
            let arg = args[i].as_str();
            if text_eq(arg, "-n") || text_eq(arg, "--notifications") {
                assert(args@[i as int]@ == "-n"@ || args@[i as int]@ == "--notifications"@);
                assert(asks_for_notifications(args@[i as int]@));
                return Options { notifications: true };
            }
        }
        assert forall|i: int| 0 <= i < args@.len() implies #[trigger] args@[i]@ != "-n"@
            && args@[i]@ != "--notifications"@ by {
            assert(!asks_for_notifications(args@[i]@));
        }
        Options { notifications: false }
    }
}

/// The notification that goes with a command which the state has yet to follow, if one does.
pub fn notify(options: &Options, state: &PlayerState, command: &SocketCommand) -> (r: Option<
    Notification,
>)
    ensures
        match r {
            Some(notification) => notification_on(*options, state@, command@) == Some(
                notification@,
            ),
            None => notification_on(*options, state@, command@) is None,
        },
{
    if !options.notifications {
        return None;
    }
    let metadata = match command {
        SocketCommand::MetadataChange(metadata) => metadata,
        _ => {
            return None;
        },
    };
    let same_track = match (&metadata.trackid, &state.metadata.trackid) {
        (Some(new), Some(current)) => new.same_as(current),
        (None, None) => true,
        _ => false,
    };
    if same_track {
        return None;
    }
    let summary = match &metadata.title {
        Some(title) => title.clone(),
        None => String::new(),
    };
    let body = match &metadata.artist {
        Some(names) => join(names, ", "),
        None => String::new(),
    };
    Some(Notification { summary, body })
}

/// A track is notified of once: when its metadata arrive again, no notification goes with them.
pub proof fn law_track_is_notified_once(
    options: Options,
    state: PlayerStateView,
    metadata: MetadataView,
    again: MetadataView,
)
    requires
        again.trackid == metadata.trackid,
    ensures
        notification_on(
            options,
            crate::player::next_state(state, SocketCommandView::MetadataChange(metadata)),
            SocketCommandView::MetadataChange(again),
        ) is None,
{
}

/// What a notification says is what it carries.
pub proof fn law_view_of_notifications(notification: Notification)
    ensures
        notification@.summary == notification.summary@,
        notification@.body == notification.body@,
{
}

/// There are two arguments that ask for notifications.
pub proof fn law_two_arguments_ask_for_notifications(arg: Seq<char>)
    ensures
        asks_for_notifications("-n"@),
        asks_for_notifications("--notifications"@),
        arg != "-n"@ && arg != "--notifications"@ ==> !asks_for_notifications(arg),
{
}

/// A notification goes with a command exactly where notifications are asked for and the command
/// brings the metadata of another track.
pub proof fn law_another_track_is_notified(
    options: Options,
    state: PlayerStateView,
    command: SocketCommandView,
)
    ensures
        notification_on(options, state, command) is Some <==> {
            &&& options.notifications
            &&& command matches SocketCommandView::MetadataChange(metadata) && metadata.trackid
                != state.metadata.trackid
        },
{
}

/// A notification is headed by the title of the track. It names the artists in their order, with
/// a comma and a space between two of them.
pub proof fn law_notification_names_the_track(
    options: Options,
    state: PlayerStateView,
    metadata: MetadataView,
)
    requires
        options.notifications,
        metadata.trackid != state.metadata.trackid,
    ensures
        notification_on(options, state, SocketCommandView::MetadataChange(metadata)) matches Some(
            notification,
        ) && {
            &&& metadata.title matches Some(title) ==> notification.summary == title
            &&& metadata.title is None ==> notification.summary.len() == 0
            &&& metadata.artist is None ==> notification.body.len() == 0
            &&& metadata.artist matches Some(names) ==> {
                &&& names.len() == 0 ==> notification.body.len() == 0
                &&& names.len() == 1 ==> notification.body == names[0]
                &&& names.len() == 2 ==> notification.body == names[0] + ", "@ + names[1]
            }
        },
{
    if let Some(names) = metadata.artist {
        if names.len() == 1 {
            assert(names == seq![names[0]]);
            law_joined_short(names[0], ", "@);
        } else if names.len() == 2 {
            assert(names == seq![names[0]] + seq![names[1]]);
            law_joined_short(names[0], ", "@);
            law_joined_short(names[1], ", "@);
            law_joined_splits(seq![names[0]], seq![names[1]], ", "@);
        }
    }
}

/// The notification of a track with more artists names them behind the others.
pub proof fn law_notification_names_all_artists(
    options: Options,
    state: PlayerStateView,
    metadata: MetadataView,
    first: Seq<Seq<char>>,
    others: Seq<Seq<char>>,
)
    requires
        options.notifications,
        metadata.trackid != state.metadata.trackid,
        first.len() > 0,
        others.len() > 0,
    ensures
        ({
            let a = notification_on(
                options,
                state,
                SocketCommandView::MetadataChange(MetadataView { artist: Some(first), ..metadata }),
            );
            let b = notification_on(
                options,
                state,
                SocketCommandView::MetadataChange(
                    MetadataView { artist: Some(others), ..metadata },
                ),
            );
            let all = notification_on(
                options,
                state,
                SocketCommandView::MetadataChange(
                    MetadataView { artist: Some(first + others), ..metadata },
                ),
            );
            &&& a is Some && b is Some && all is Some
            &&& all->0.body == a->0.body + ", "@ + b->0.body
        }),
{
    law_joined_splits(first, others, ", "@);
}

} // verus!
