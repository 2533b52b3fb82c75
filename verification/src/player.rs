//! The player as MPRIS shows it: its state, how commands change it, and what is answered to
//! the requests of MPRIS clients.
use crate::command::{SocketCommand, SocketCommandView};
use crate::json::Double;
use crate::message::MprisMessage;
use crate::metadata::{no_metadata, Metadata, MetadataView};
use crate::mpris::{LoopStatus, PlaybackStatus, Time, TrackId};
use vstd::prelude::*;

verus! {

/// The state of the player.
#[derive(Debug)]
pub struct PlayerState {
    pub playback_status: PlaybackStatus,
    pub loop_status: LoopStatus,
    pub shuffle: bool,
    pub metadata: Metadata,
    pub volume: Double,
    pub position: Time,
    pub can_go_next: bool,
    pub can_go_previous: bool,
    pub can_play: bool,
    pub can_pause: bool,
    pub can_seek: bool,
}

/// What the state of the player is.
pub struct PlayerStateView {
    pub playback_status: PlaybackStatus,
    pub loop_status: LoopStatus,
    pub shuffle: bool,
    pub metadata: MetadataView,
    pub volume: Double,
    pub position: Time,
    pub can_go_next: bool,
    pub can_go_previous: bool,
    pub can_play: bool,
    pub can_pause: bool,
    pub can_seek: bool,
}

impl View for PlayerState {
    type V = PlayerStateView;

    open spec fn view(&self) -> PlayerStateView {
        PlayerStateView {
            playback_status: self.playback_status,
            loop_status: self.loop_status,
            shuffle: self.shuffle,
            metadata: self.metadata@,
            volume: self.volume,
            position: self.position,
            can_go_next: self.can_go_next,
            can_go_previous: self.can_go_previous,
            can_play: self.can_play,
            can_pause: self.can_pause,
            can_seek: self.can_seek,
        }
    }
}

/// A property that MPRIS clients are told about.
#[derive(Debug)]
pub enum Property {
    Metadata(Metadata),
    PlaybackStatus(PlaybackStatus),
    Shuffle(bool),
    LoopStatus(LoopStatus),
}

/// What a property is.
pub enum PropertyView {
    Metadata(MetadataView),
    PlaybackStatus(PlaybackStatus),
    Shuffle(bool),
    LoopStatus(LoopStatus),
}

impl View for Property {
    type V = PropertyView;

    open spec fn view(&self) -> PropertyView {
        match self {
            Property::Metadata(metadata) => PropertyView::Metadata(metadata@),
            Property::PlaybackStatus(status) => PropertyView::PlaybackStatus(*status),
            Property::Shuffle(shuffle) => PropertyView::Shuffle(*shuffle),
            Property::LoopStatus(status) => PropertyView::LoopStatus(*status),
        }
    }
}

/// What is to be done when the state has followed a command.
#[derive(Debug)]
pub enum Effect {
    /// Tell the clients that this property changed.
    PropertiesChanged(Property),
    /// Tell the clients that the position jumped to this time.
    Seeked(Time),
    /// Nothing: the cover is not one of the current track.
    ForeignArt,
    /// Nothing.
    Nothing,
    /// Stop.
    Stop,
}

/// What is to be done when the state has followed a command.
pub enum EffectView {
    PropertiesChanged(PropertyView),
    Seeked(Time),
    ForeignArt,
    Nothing,
    Stop,
}

impl View for Effect {
    type V = EffectView;

    open spec fn view(&self) -> EffectView {
        match self {
            Effect::PropertiesChanged(property) => EffectView::PropertiesChanged(property@),
            Effect::Seeked(time) => EffectView::Seeked(*time),
            Effect::ForeignArt => EffectView::ForeignArt,
            Effect::Nothing => EffectView::Nothing,
            Effect::Stop => EffectView::Stop,
        }
    }
}

/// The state of a player of which nothing has been heard.
pub open spec fn initial_state() -> PlayerStateView {
    PlayerStateView {
        playback_status: PlaybackStatus::Stopped,
        loop_status: LoopStatus::Off,
        shuffle: false,
        metadata: no_metadata(),
        volume: Double { bits: 0 },
        position: Time { micros: 0 },
        can_go_next: true,
        can_go_previous: true,
        can_play: true,
        can_pause: true,
        can_seek: true,
    }
}

/// The status after a press of the button that both plays and pauses.
pub open spec fn switched(status: PlaybackStatus) -> PlaybackStatus {
    match status {
        PlaybackStatus::Playing => PlaybackStatus::Paused,
        PlaybackStatus::Paused | PlaybackStatus::Stopped => PlaybackStatus::Playing,
    }
}

/// The state after a command.
pub open spec fn next_state(state: PlayerStateView, command: SocketCommandView) -> PlayerStateView {
    match command {
        SocketCommandView::MetadataChange(metadata) => PlayerStateView { metadata, ..state },
        SocketCommandView::ArtUpdate(trackid, art_url) => if state.metadata.trackid == Some(
            trackid,
        ) {
            PlayerStateView { metadata: MetadataView { art_url, ..state.metadata }, ..state }
        } else {
            state
        },
        SocketCommandView::Seek(time) => PlayerStateView { position: time, ..state },
        SocketCommandView::Pause => PlayerStateView {
            playback_status: PlaybackStatus::Paused,
            ..state
        },
        SocketCommandView::Play => PlayerStateView {
            playback_status: PlaybackStatus::Playing,
            ..state
        },
        SocketCommandView::Stop => PlayerStateView {
            playback_status: PlaybackStatus::Stopped,
            ..state
        },
        SocketCommandView::Shuffle(shuffle) => PlayerStateView { shuffle, ..state },
        SocketCommandView::LoopStatus(status) => PlayerStateView { loop_status: status, ..state },
        SocketCommandView::Exit => state,
    }
}

/// What is to be done when the state has followed a command.
pub open spec fn effect_of(state: PlayerStateView, command: SocketCommandView) -> EffectView {
    match command {
        SocketCommandView::MetadataChange(metadata) => EffectView::PropertiesChanged(
            PropertyView::Metadata(metadata),
        ),
        SocketCommandView::ArtUpdate(trackid, _) => match state.metadata.trackid {
            Some(current) => if current == trackid {
                EffectView::PropertiesChanged(
                    PropertyView::Metadata(next_state(state, command).metadata),
                )
            } else {
                EffectView::ForeignArt
            },
            None => EffectView::Nothing,
        },
        SocketCommandView::Seek(time) => EffectView::Seeked(time),
        SocketCommandView::Pause => EffectView::PropertiesChanged(
            PropertyView::PlaybackStatus(PlaybackStatus::Paused),
        ),
        SocketCommandView::Play => EffectView::PropertiesChanged(
            PropertyView::PlaybackStatus(PlaybackStatus::Playing),
        ),
        SocketCommandView::Stop => EffectView::PropertiesChanged(
            PropertyView::PlaybackStatus(PlaybackStatus::Stopped),
        ),
        SocketCommandView::Shuffle(shuffle) => EffectView::PropertiesChanged(
            PropertyView::Shuffle(shuffle),
        ),
        SocketCommandView::LoopStatus(status) => EffectView::PropertiesChanged(
            PropertyView::LoopStatus(status),
        ),
        SocketCommandView::Exit => EffectView::Stop,
    }
}

/// The state after a run of commands. Those behind the first `Exit` are not followed.
pub open spec fn state_after(
    state: PlayerStateView,
    commands: Seq<SocketCommandView>,
) -> PlayerStateView
    decreases commands.len(),
{
    if commands.len() == 0 || commands[0] is Exit {
        state
    } else {
        state_after(next_state(state, commands[0]), commands.skip(1))
    }
}

impl Default for PlayerState {
    /// The state of a player of which nothing has been heard.
    fn default() -> (r: PlayerState)
        ensures
            r@ == initial_state(),
    {
        PlayerState {
            playback_status: PlaybackStatus::Stopped,
            loop_status: LoopStatus::Off,
            shuffle: false,
            metadata: Metadata::new(),
            volume: Double { bits: 0 },
            position: Time { micros: 0 },
            can_go_next: true,
            can_go_previous: true,
            can_play: true,
            can_pause: true,
            can_seek: true,
        }
    }
}

impl PlayerState {
    /// Presses the button that both plays and pauses.
    pub fn switch_playback_status(&mut self)
        ensures
            final(self)@ == (PlayerStateView {
                playback_status: switched(old(self)@.playback_status),
                ..old(self)@
            }),
    {
        self.playback_status = match self.playback_status {
            PlaybackStatus::Paused | PlaybackStatus::Stopped => PlaybackStatus::Playing,
            PlaybackStatus::Playing => PlaybackStatus::Paused,
        };
    }

    /// Follows a command, and tells what is to be done about it.
    pub fn apply(&mut self, command: SocketCommand) -> (r: Effect)
        ensures
            final(self)@ == next_state(old(self)@, command@),
            r@ == effect_of(old(self)@, command@),
    {
        match command {
            SocketCommand::MetadataChange(metadata) => {
                self.metadata = metadata.copy();
                Effect::PropertiesChanged(Property::Metadata(metadata))
            },
            SocketCommand::ArtUpdate(trackid, art_url) => {
                let current = match &self.metadata.trackid {
                    Some(current) => current.same_as(&trackid),
                    None => {
                        return Effect::Nothing;
                    },
                };
                if current {
                    self.metadata.art_url = art_url;
                    Effect::PropertiesChanged(Property::Metadata(self.metadata.copy()))
                } else {
                    Effect::ForeignArt
                }
            },
            SocketCommand::Seek(time) => {
                self.position = time;
                Effect::Seeked(time)
            },
            SocketCommand::Pause => {
                self.playback_status = PlaybackStatus::Paused;
                Effect::PropertiesChanged(Property::PlaybackStatus(PlaybackStatus::Paused))
            },
            SocketCommand::Play => {
                self.playback_status = PlaybackStatus::Playing;
                Effect::PropertiesChanged(Property::PlaybackStatus(PlaybackStatus::Playing))
            },
            SocketCommand::Stop => {
                self.playback_status = PlaybackStatus::Stopped;
                Effect::PropertiesChanged(Property::PlaybackStatus(PlaybackStatus::Stopped))
            },
            SocketCommand::Shuffle(shuffle) => {
                self.shuffle = shuffle;
                Effect::PropertiesChanged(Property::Shuffle(shuffle))
            },
            SocketCommand::LoopStatus(status) => {
                self.loop_status = status;
                Effect::PropertiesChanged(Property::LoopStatus(status))
            },
            SocketCommand::Exit => Effect::Stop,
        }
    }
}

/// The player that MPRIS clients see. A request of a client is answered with the message that
/// goes to the plugin, or with nothing where the request is ignored.
#[derive(Debug)]
pub struct Player {
    pub state: PlayerState,
}

impl Player {
    /// A player of which nothing has been heard.
    pub fn new() -> (r: Player)
        ensures
            r.state@ == initial_state(),
    {
        Player { state: PlayerState::default() }
    }

    /// Ignores the request to show a window.
    pub fn raise() -> (r: Option<MprisMessage>)
        ensures
            r is None,
    {
        None
    }

    /// Ignores the request to quit.
    pub fn quit() -> (r: Option<MprisMessage>)
        ensures
            r is None,
    {
        None
    }

    /// Ignores the request to cover the screen.
    pub fn set_fullscreen(fullscreen: bool) -> (r: Option<MprisMessage>)
        ensures
            r is None,
    {
        None
    }

    /// Asks the plugin for the next track.
    pub fn next() -> (r: Option<MprisMessage>)
        ensures
            r == Some(MprisMessage::Next),
    {
        Some(MprisMessage::Next)
    }

    /// Asks the plugin for the previous track.
    pub fn previous() -> (r: Option<MprisMessage>)
        ensures
            r == Some(MprisMessage::Previous),
    {
        Some(MprisMessage::Previous)
    }

    /// Asks the plugin to pause.
    pub fn pause() -> (r: Option<MprisMessage>)
        ensures
            r == Some(MprisMessage::Pause),
    {
        Some(MprisMessage::Pause)
    }

    /// Asks the plugin to pause, or to play if it does not.
    pub fn play_pause() -> (r: Option<MprisMessage>)
        ensures
            r == Some(MprisMessage::PlayPause),
    {
        Some(MprisMessage::PlayPause)
    }

    /// Asks the plugin to stop.
    pub fn stop() -> (r: Option<MprisMessage>)
        ensures
            r == Some(MprisMessage::Stop),
    {
        Some(MprisMessage::Stop)
    }

    /// Asks the plugin to play.
    pub fn play() -> (r: Option<MprisMessage>)
        ensures
            r == Some(MprisMessage::Play),
    {
        Some(MprisMessage::Play)
    }

    /// Asks the plugin to move the playback position by `offset`.
    pub fn seek(offset: Time) -> (r: Option<MprisMessage>)
        ensures
            r == Some(MprisMessage::Seek(offset)),
    {
        Some(MprisMessage::Seek(offset))
    }

    /// Ignores the request to move the playback position of a track.
    pub fn set_position(track_id: &TrackId, position: Time) -> (r: Option<MprisMessage>)
        ensures
            r is None,
    {
        None
    }

    /// Ignores the request to open a file.
    pub fn open_uri(uri: &str) -> (r: Option<MprisMessage>)
        ensures
            r is None,
    {
        None
    }

    /// Ignores the request for another loop status.
    pub fn set_loop_status(loop_status: LoopStatus) -> (r: Option<MprisMessage>)
        ensures
            r is None,
    {
        None
    }

    /// Ignores the request for another speed.
    pub fn set_rate(rate: Double) -> (r: Option<MprisMessage>)
        ensures
            r is None,
    {
        None
    }

    /// Ignores the request to shuffle or not.
    pub fn set_shuffle(shuffle: bool) -> (r: Option<MprisMessage>)
        ensures
            r is None,
    {
        None
    }

    /// Ignores the request for another volume.
    pub fn set_volume(volume: Double) -> (r: Option<MprisMessage>)
        ensures
            r is None,
    {
        None
    }

    /// Clients cannot make the player quit.
    pub fn can_quit() -> (r: bool)
        ensures
            r == false,
    {
        false
    }

    /// The player does not cover the screen.
    pub fn fullscreen() -> (r: bool)
        ensures
            r == false,
    {
        false
    }

    /// Clients cannot make the player cover the screen.
    pub fn can_set_fullscreen() -> (r: bool)
        ensures
            r == false,
    {
        false
    }

    /// The player says that its window can be raised.
    pub fn can_raise() -> (r: bool)
        ensures
            r == true,
    {
        true
    }

    /// The player offers no list of tracks.
    pub fn has_track_list() -> (r: bool)
        ensures
            r == false,
    {
        false
    }

    /// Clients can control the player.
    pub fn can_control() -> (r: bool)
        ensures
            r == true,
    {
        true
    }

    /// The name of the player.
    pub fn identity() -> (r: String)
        ensures
            r@ == "MusicBee"@,
    {
        "MusicBee".to_owned()
    }

    /// The name of the desktop file of the player.
    pub fn desktop_entry() -> (r: String)
        ensures
            r@ == "MusicBee"@,
    {
        "MusicBee".to_owned()
    }

    /// The URI schemes that the player knows.
    pub fn supported_uri_schemes() -> (r: Vec<String>)
        ensures
            r.deep_view() == seq!["file"@],
    {
        let mut schemes: Vec<String> = Vec::new();
        schemes.push("file".to_owned());
        assert(schemes.deep_view() == seq!["file"@]);
        schemes
    }

    /// The MIME types that the player knows.
    pub fn supported_mime_types() -> (r: Vec<String>)
        ensures
            r@.len() == 0,
    {
        Vec::new()
    }

    /// The speed, which is 1.
    pub fn rate() -> (r: Double)
        ensures
            r == (Double { bits: 0x3ff0_0000_0000_0000 }),
    {
        Double { bits: 0x3ff0_0000_0000_0000 }
    }

    /// The least speed, which is 1.
    pub fn minimum_rate() -> (r: Double)
        ensures
            r == (Double { bits: 0x3ff0_0000_0000_0000 }),
    {
        Double { bits: 0x3ff0_0000_0000_0000 }
    }

    /// The greatest speed, which is 1.
    pub fn maximum_rate() -> (r: Double)
        ensures
            r == (Double { bits: 0x3ff0_0000_0000_0000 }),
    {
        Double { bits: 0x3ff0_0000_0000_0000 }
    }

    /// Whether a track is playing.
    pub fn playback_status(&self) -> (r: PlaybackStatus)
        ensures
            r == self.state@.playback_status,
            r == self.state.playback_status,
    {
        self.state.playback_status
    }

    /// What happens at the end of a track.
    pub fn loop_status(&self) -> (r: LoopStatus)
        ensures
            r == self.state@.loop_status,
            r == self.state.loop_status,
    {
        self.state.loop_status
    }

    /// Whether the tracks are shuffled.
    pub fn shuffle(&self) -> (r: bool)
        ensures
            r == self.state@.shuffle,
            r == self.state.shuffle,
    {
        self.state.shuffle
    }

    /// The volume.
    pub fn volume(&self) -> (r: Double)
        ensures
            r == self.state@.volume,
            r == self.state.volume,
    {
        self.state.volume
    }

    /// The playback position that was last heard of.
    pub fn position(&self) -> (r: Time)
        ensures
            r == self.state@.position,
            r == self.state.position,
    {
        self.state.position
    }

    /// Whether there is a next track.
    pub fn can_go_next(&self) -> (r: bool)
        ensures
            r == self.state@.can_go_next,
            r == self.state.can_go_next,
    {
        self.state.can_go_next
    }

    /// Whether there is a previous track.
    pub fn can_go_previous(&self) -> (r: bool)
        ensures
            r == self.state@.can_go_previous,
            r == self.state.can_go_previous,
    {
        self.state.can_go_previous
    }

    /// Whether the player can play.
    pub fn can_play(&self) -> (r: bool)
        ensures
            r == self.state@.can_play,
            r == self.state.can_play,
    {
        self.state.can_play
    }

    /// Whether the player can pause.
    pub fn can_pause(&self) -> (r: bool)
        ensures
            r == self.state@.can_pause,
            r == self.state.can_pause,
    {
        self.state.can_pause
    }

    /// Whether the playback position can be moved.
    pub fn can_seek(&self) -> (r: bool)
        ensures
            r == self.state@.can_seek,
            r == self.state.can_seek,
    {
        self.state.can_seek
    }

    /// The metadata of the current track.
    pub fn metadata(&self) -> (r: Metadata)
        ensures
            r@ == self.state@.metadata,
            r@ == self.state.metadata@,
    {
        self.state.metadata.copy()
    }
}

/// What a command set is what is read afterwards.
pub proof fn law_command_is_read_back(state: PlayerStateView, command: SocketCommandView)
    ensures
        match command {
            SocketCommandView::MetadataChange(metadata) => next_state(state, command).metadata
                == metadata,
            SocketCommandView::ArtUpdate(trackid, art_url) => state.metadata.trackid == Some(
                trackid,
            ) ==> next_state(state, command).metadata.art_url == art_url,
            SocketCommandView::Seek(time) => next_state(state, command).position == time,
            SocketCommandView::Pause => next_state(state, command).playback_status
                == PlaybackStatus::Paused,
            SocketCommandView::Play => next_state(state, command).playback_status
                == PlaybackStatus::Playing,
            SocketCommandView::Stop => next_state(state, command).playback_status
                == PlaybackStatus::Stopped,
            SocketCommandView::Shuffle(shuffle) => next_state(state, command).shuffle == shuffle,
            SocketCommandView::LoopStatus(status) => next_state(state, command).loop_status
                == status,
            SocketCommandView::Exit => next_state(state, command) == state,
        },
{
}

/// A command changes no other property than its own.
pub proof fn law_command_leaves_the_rest(state: PlayerStateView, command: SocketCommandView)
    ensures
        !(command is MetadataChange || command is ArtUpdate) ==> next_state(state, command).metadata
            == state.metadata,
        !(command is Pause || command is Play || command is Stop) ==> next_state(
            state,
            command,
        ).playback_status == state.playback_status,
        !(command is Seek) ==> next_state(state, command).position == state.position,
        !(command is Shuffle) ==> next_state(state, command).shuffle == state.shuffle,
        !(command is LoopStatus) ==> next_state(state, command).loop_status == state.loop_status,
{
}

/// The cover of a track reaches the metadata exactly when the track is still the current one,
/// and changes nothing else in them.
pub proof fn law_art_goes_to_its_track(
    state: PlayerStateView,
    metadata: MetadataView,
    trackid: Seq<char>,
    art_url: Option<Seq<char>>,
)
    ensures
        state_after(
            state,
            seq![
                SocketCommandView::MetadataChange(metadata),
                SocketCommandView::ArtUpdate(trackid, art_url),
            ],
        ).metadata == if metadata.trackid == Some(trackid) {
            MetadataView { art_url, ..metadata }
        } else {
            metadata
        },
{
    let commands = seq![
        SocketCommandView::MetadataChange(metadata),
        SocketCommandView::ArtUpdate(trackid, art_url),
    ];
    reveal_with_fuel(state_after, 3);
    assert(commands.skip(1)[0] == commands[1]);
    assert(commands.skip(1).skip(1).len() == 0);
}

/// No change goes untold, and what clients are told is what they then read.
pub proof fn law_changes_are_told(state: PlayerStateView, command: SocketCommandView)
    ensures
        match effect_of(state, command) {
            EffectView::PropertiesChanged(PropertyView::Metadata(metadata)) => next_state(
                state,
                command,
            ) == (PlayerStateView { metadata, ..state }),
            EffectView::PropertiesChanged(PropertyView::PlaybackStatus(status)) => next_state(
                state,
                command,
            ) == (PlayerStateView { playback_status: status, ..state }),
            EffectView::PropertiesChanged(PropertyView::Shuffle(shuffle)) => next_state(
                state,
                command,
            ) == (PlayerStateView { shuffle, ..state }),
            EffectView::PropertiesChanged(PropertyView::LoopStatus(status)) => next_state(
                state,
                command,
            ) == (PlayerStateView { loop_status: status, ..state }),
            EffectView::Seeked(time) => next_state(state, command) == (PlayerStateView {
                position: time,
                ..state
            }),
            EffectView::ForeignArt | EffectView::Nothing | EffectView::Stop => next_state(
                state,
                command,
            ) == state,
        },
{
}

/// A command that is repeated changes nothing more.
pub proof fn law_repetition_changes_nothing(state: PlayerStateView, command: SocketCommandView)
    ensures
        next_state(next_state(state, command), command) == next_state(state, command),
{
}

/// No run of commands changes the volume or what the player can do.
pub proof fn law_abilities_stay(state: PlayerStateView, commands: Seq<SocketCommandView>)
    ensures
        state_after(state, commands).volume == state.volume,
        state_after(state, commands).can_go_next == state.can_go_next,
        state_after(state, commands).can_go_previous == state.can_go_previous,
        state_after(state, commands).can_play == state.can_play,
        state_after(state, commands).can_pause == state.can_pause,
        state_after(state, commands).can_seek == state.can_seek,
    decreases commands.len(),
{
    if commands.len() > 0 && !(commands[0] is Exit) {
        law_abilities_stay(next_state(state, commands[0]), commands.skip(1));
    }
}

/// Two runs of commands, the first without `Exit`, have the effect of one.
pub proof fn law_runs_compose(
    state: PlayerStateView,
    first: Seq<SocketCommandView>,
    second: Seq<SocketCommandView>,
)
    requires
        forall|i: int| 0 <= i < first.len() ==> !(#[trigger] first[i] is Exit),
    ensures
        state_after(state, first + second) == state_after(state_after(state, first), second),
    decreases first.len(),
{
    if first.len() == 0 {
        assert(first + second == second);
    } else {
        assert((first + second)[0] == first[0]);
        assert((first + second).skip(1) == first.skip(1) + second);
        law_runs_compose(next_state(state, first[0]), first.skip(1), second);
    }
}

/// What comes behind `Exit` has no effect.
pub proof fn law_nothing_follows_exit(
    state: PlayerStateView,
    before: Seq<SocketCommandView>,
    behind: Seq<SocketCommandView>,
)
    ensures
        state_after(state, before.push(SocketCommandView::Exit) + behind) == state_after(
            state,
            before,
        ),
    decreases before.len(),
{
    let all = before.push(SocketCommandView::Exit) + behind;
    if before.len() == 0 {
        assert(all[0] is Exit);
    } else {
        assert(all[0] == before[0]);
        if !(before[0] is Exit) {
            assert(all.skip(1) == before.skip(1).push(SocketCommandView::Exit) + behind);
            law_nothing_follows_exit(next_state(state, before[0]), before.skip(1), behind);
        }
    }
}

/// Two presses of the button that both plays and pauses cancel out, once the player has left
/// the stopped state.
pub proof fn law_two_switches_cancel_out(status: PlaybackStatus)
    ensures
        status != PlaybackStatus::Stopped ==> switched(switched(status)) == status,
        switched(switched(status)) != PlaybackStatus::Stopped,
{
}

/// What the state of the player is, its fields say.
pub proof fn law_view_of_states(state: PlayerState)
    ensures
        state@.playback_status == state.playback_status,
        state@.loop_status == state.loop_status,
        state@.shuffle == state.shuffle,
        state@.volume == state.volume,
        state@.position == state.position,
        state@.can_go_next == state.can_go_next,
        state@.can_go_previous == state.can_go_previous,
        state@.can_play == state.can_play,
        state@.can_pause == state.can_pause,
        state@.can_seek == state.can_seek,
        state@.metadata == state.metadata@,
{
}

/// What a property is, and what is to be done, is what the value carries.
pub proof fn law_view_of_effects(property: Property, effect: Effect)
    ensures
        match property {
            Property::Metadata(metadata) => property@ == PropertyView::Metadata(metadata@),
            Property::PlaybackStatus(status) => property@ == PropertyView::PlaybackStatus(status),
            Property::Shuffle(shuffle) => property@ == PropertyView::Shuffle(shuffle),
            Property::LoopStatus(status) => property@ == PropertyView::LoopStatus(status),
        },
        match effect {
            Effect::PropertiesChanged(changed) => effect@ == EffectView::PropertiesChanged(
                changed@,
            ),
            Effect::Seeked(time) => effect@ == EffectView::Seeked(time),
            Effect::ForeignArt => effect@ is ForeignArt,
            Effect::Nothing => effect@ is Nothing,
            Effect::Stop => effect@ is Stop,
        },
{
}

/// A player of which nothing has been heard is stopped at the start of no track, neither
/// repeats nor shuffles, is silent, and can do everything.
pub proof fn law_nothing_is_known_at_first()
    ensures
        initial_state().playback_status == PlaybackStatus::Stopped,
        initial_state().loop_status == LoopStatus::Off,
        !initial_state().shuffle,
        initial_state().volume.bits == 0,
        initial_state().position.micros == 0,
        initial_state().can_go_next,
        initial_state().can_go_previous,
        initial_state().can_play,
        initial_state().can_pause,
        initial_state().can_seek,
        initial_state().metadata.trackid is None,
        initial_state().metadata.title is None,
        initial_state().metadata.length is None,
        initial_state().metadata.artist is None,
        initial_state().metadata.album is None,
        initial_state().metadata.url is None,
        initial_state().metadata.art_url is None,
        initial_state().metadata.disc_number is None,
        initial_state().metadata.track_number is None,
        initial_state().metadata.album_artist is None,
        initial_state().metadata.composer is None,
        initial_state().metadata.lyricist is None,
        initial_state().metadata.genre is None,
        initial_state().metadata.audio_bpm is None,
        initial_state().metadata.content_created is None,
        initial_state().metadata.user_rating is None,
        initial_state().metadata.comment is None,
{
}

/// The button that both plays and pauses pauses a player that plays, and makes any other play.
pub proof fn law_button_plays_and_pauses(status: PlaybackStatus)
    ensures
        status == PlaybackStatus::Playing ==> switched(status) == PlaybackStatus::Paused,
        status != PlaybackStatus::Playing ==> switched(status) == PlaybackStatus::Playing,
{
}

/// Every command but `Exit`, and a cover that is not one of the current track, is told, with the
/// value that the command gives.
pub proof fn law_commands_are_told(state: PlayerStateView, command: SocketCommandView)
    ensures
        match command {
            SocketCommandView::MetadataChange(metadata) => effect_of(state, command)
                == EffectView::PropertiesChanged(PropertyView::Metadata(metadata)),
            SocketCommandView::ArtUpdate(trackid, art_url) => {
                &&& state.metadata.trackid == Some(trackid) ==> effect_of(state, command)
                    == EffectView::PropertiesChanged(
                    PropertyView::Metadata(MetadataView { art_url, ..state.metadata }),
                )
                &&& state.metadata.trackid is Some && state.metadata.trackid != Some(trackid)
                    ==> effect_of(state, command) == EffectView::ForeignArt
                &&& state.metadata.trackid is None ==> effect_of(state, command)
                    == EffectView::Nothing
            },
            SocketCommandView::Seek(time) => effect_of(state, command) == EffectView::Seeked(time),
            SocketCommandView::Pause => effect_of(state, command) == EffectView::PropertiesChanged(
                PropertyView::PlaybackStatus(PlaybackStatus::Paused),
            ),
            SocketCommandView::Play => effect_of(state, command) == EffectView::PropertiesChanged(
                PropertyView::PlaybackStatus(PlaybackStatus::Playing),
            ),
            SocketCommandView::Stop => effect_of(state, command) == EffectView::PropertiesChanged(
                PropertyView::PlaybackStatus(PlaybackStatus::Stopped),
            ),
            SocketCommandView::Shuffle(shuffle) => effect_of(state, command)
                == EffectView::PropertiesChanged(PropertyView::Shuffle(shuffle)),
            SocketCommandView::LoopStatus(status) => effect_of(state, command)
                == EffectView::PropertiesChanged(PropertyView::LoopStatus(status)),
            SocketCommandView::Exit => effect_of(state, command) == EffectView::Stop,
        },
{
}

/// A cover reaches the metadata of its own track alone, and leaves the rest of them as it was.
pub proof fn law_art_changes_nothing_else(
    state: PlayerStateView,
    trackid: Seq<char>,
    art_url: Option<Seq<char>>,
)
    ensures
        ({
            let next = next_state(state, SocketCommandView::ArtUpdate(trackid, art_url));
            &&& next.metadata == (MetadataView {
                art_url: if state.metadata.trackid == Some(trackid) {
                    art_url
                } else {
                    state.metadata.art_url
                },
                ..state.metadata
            })
            &&& next == (PlayerStateView { metadata: next.metadata, ..state })
        }),
{
}

/// A run of commands is followed one command after the other, up to the first `Exit`.
pub proof fn law_commands_are_followed_in_order(
    state: PlayerStateView,
    commands: Seq<SocketCommandView>,
    command: SocketCommandView,
)
    requires
        forall|i: int| 0 <= i < commands.len() ==> !(#[trigger] commands[i] is Exit),
    ensures
        state_after(state, Seq::empty()) == state,
        state_after(state, commands.push(command)) == next_state(
            state_after(state, commands),
            command,
        ),
{
    reveal_with_fuel(state_after, 2);
    assert(commands.push(command) == commands + seq![command]);
    law_runs_compose(state, commands, seq![command]);
}

} // verus!
