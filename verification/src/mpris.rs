//! The vocabulary of MPRIS: times, track identifiers, loop and playback status.
use mpris_server::zbus::zvariant;
use vstd::prelude::*;

verus! {

/// A time with microsecond precision, which can be negative.
#[derive(Clone, Copy, Debug, PartialEq, Eq, Structural)]
pub struct Time {
    pub micros: i64,
}

/// What happens at the end of a track.
#[derive(Clone, Copy, Debug, PartialEq, Eq, Structural)]
pub enum LoopStatus {
    /// Nothing is repeated. MPRIS calls this status `None`.
    Off,
    /// The track starts again.
    Track,
    /// The list of tracks starts again after the last one.
    Playlist,
}

/// Whether a track is playing.
#[derive(Clone, Copy, Debug, PartialEq, Eq, Structural)]
pub enum PlaybackStatus {
    Playing,
    Paused,
    Stopped,
}

/// The identifier of a track, which is a D-Bus object path.
#[derive(Debug)]
pub struct TrackId {
    path: String,
}

/// Whether `millis` milliseconds fit into a [`Time`].
pub open spec fn millis_in_range(millis: i64) -> bool {
    i64::MIN <= millis * 1000 <= i64::MAX
}

/// The characters of the names in an object path.
pub open spec fn is_name_char(c: char) -> bool {
    'A' <= c <= 'Z' || 'a' <= c <= 'z' || '0' <= c <= '9' || c == '_'
}

/// Whether `s` is a D-Bus object path: a slash, alone or in front of names, with one slash
/// between two names and none at the end.
pub open spec fn is_object_path(s: Seq<char>) -> bool {
    &&& s.len() > 0
    &&& s[0] == '/'
    &&& s.len() > 1 ==> s.last() != '/'
    &&& forall|i: int| 0 <= i < s.len() ==> s[i] == '/' || is_name_char(#[trigger] s[i])
    &&& forall|i: int| 0 < i < s.len() && s[i - 1] == '/' ==> #[trigger] s[i] != '/'
}

/// The path of the track that a text names. A text that is no object path names the root.
pub open spec fn track_path(s: Seq<char>) -> Seq<char> {
    if is_object_path(s) {
        s
    } else {
        "/"@
    }
}

/// The loop status that a text names.
pub open spec fn named_loop_status(s: Seq<char>) -> Option<LoopStatus> {
    if s == "None"@ {
        Some(LoopStatus::Off)
    } else if s == "Track"@ {
        Some(LoopStatus::Track)
    } else if s == "Playlist"@ {
        Some(LoopStatus::Playlist)
    } else {
        None
    }
}

/// The name of a loop status.
pub open spec fn loop_status_name(status: LoopStatus) -> Seq<char> {
    match status {
        LoopStatus::Off => "None"@,
        LoopStatus::Track => "Track"@,
        LoopStatus::Playlist => "Playlist"@,
    }
}

impl View for TrackId {
    type V = Seq<char>;

    closed spec fn view(&self) -> Seq<char> {
        self.path@
    }
}

impl DeepView for TrackId {
    type V = Seq<char>;

    open spec fn deep_view(&self) -> Seq<char> {
        self@
    }
}

/// Calls `mpris_server::Time::from_millis`, which multiplies by a thousand and panics where the
/// product does not fit, and `Time::as_micros`.
#[verifier::external_body]
fn micros_from_millis(millis: i64) -> (r: i64)
    requires
        millis_in_range(millis),
    ensures
        r == millis * 1000,
{
    mpris_server::Time::from_millis(millis).as_micros()
}

/// Calls `mpris_server::TrackId::try_from` on a text. It takes the object paths as they are
/// and refuses every other text.
#[verifier::external_body]
fn track_id_path(text: &str) -> (r: Option<String>)
    ensures
        r is Some <==> is_object_path(text@),
        r matches Some(path) ==> path@ == text@,
{
    mpris_server::TrackId::try_from(text).ok().map(|id| id.as_str().to_owned())
}

/// Calls `mpris_server::TrackId::default`, which is the root path.
#[verifier::external_body]
fn default_track_id_path() -> (r: String)
    ensures
        r@ == "/"@,
{
    mpris_server::TrackId::default().as_str().to_owned()
}

/// Calls `mpris_server::LoopStatus::try_from` on a text in a `zvariant::Value`. It knows the
/// three names and refuses every other text.
#[verifier::external_body]
fn loop_status_from(text: &str) -> (r: Option<LoopStatus>)
    ensures
        r == named_loop_status(text@),
{
    match mpris_server::LoopStatus::try_from(zvariant::Value::from(text)) {
        Ok(mpris_server::LoopStatus::None) => Some(LoopStatus::Off),
        Ok(mpris_server::LoopStatus::Track) => Some(LoopStatus::Track),
        Ok(mpris_server::LoopStatus::Playlist) => Some(LoopStatus::Playlist),
        Err(_) => None,
    }
}

impl Time {
    /// The time of `millis` milliseconds.
    pub fn from_millis(millis: i64) -> (r: Time)
        requires
            millis_in_range(millis),
        ensures
            r.micros == millis * 1000,
    {
        Time { micros: micros_from_millis(millis) }
    }

    /// The number of microseconds.
    pub fn as_micros(&self) -> (r: i64)
        ensures
            r == self.micros,
    {
        self.micros
    }
}

/// Whether `millis` milliseconds fit into a [`Time`].
pub fn millis_fit(millis: i64) -> (r: bool)
    ensures
        r == millis_in_range(millis),
        r <==> i64::MIN <= millis * 1000 <= i64::MAX,
{
    -9223372036854775 <= millis && millis <= 9223372036854775
}

impl TrackId {
    #[verifier::type_invariant]
    spec fn well_formed(self) -> bool {
        is_object_path(self.path@)
    }

    /// The track that a text names: the text itself where it is an object path, else the root.
    pub fn named(text: &str) -> (r: TrackId)
        ensures
            r@ == track_path(text@),
            is_object_path(text@) ==> r@ == text@,
            !is_object_path(text@) ==> r@ == "/"@,
    {
        proof {
            law_track_path_is_object_path(text@);
        }
        match track_id_path(text) {
            Some(path) => TrackId { path },
            None => TrackId { path: default_track_id_path() },
        }
    }

    /// The object path.
    pub fn as_str(&self) -> (r: &str)
        ensures
            r@ == self@,
            is_object_path(r@),
    {
        proof {
            use_type_invariant(self);
        }
        self.path.as_str()
    }

    /// Whether this is the identifier `other`.
    pub fn same_as(&self, other: &TrackId) -> (r: bool)
        ensures
            r == (self@ == other@),
    {
        self.path == other.path
    }

    /// A copy of this identifier.
    pub fn copy(&self) -> (r: TrackId)
        ensures
            r@ == self@,
    {
        proof {
            use_type_invariant(self);
        }
        TrackId { path: self.path.clone() }
    }
}

impl LoopStatus {
    /// The loop status that a text names, [`LoopStatus::Off`] where it names none.
    pub fn named(text: &str) -> (r: LoopStatus)
        ensures
            r == match named_loop_status(text@) {
                Some(status) => status,
                None => LoopStatus::Off,
            },
            r == LoopStatus::Track <==> text@ == "Track"@,
            r == LoopStatus::Playlist <==> text@ == "Playlist"@,
    {
        proof {
            law_loop_status_name_round_trip(LoopStatus::Off);
            law_loop_status_name_round_trip(LoopStatus::Track);
            law_loop_status_name_round_trip(LoopStatus::Playlist);
        }
        match loop_status_from(text) {
            Some(status) => status,
            None => LoopStatus::Off,
        }
    }

    /// The name of this loop status.
    pub fn as_str(&self) -> (r: &'static str)
        ensures
            r@ == loop_status_name(*self),
            r@ == if *self == LoopStatus::Off {
                "None"@
            } else if *self == LoopStatus::Track {
                "Track"@
            } else {
                "Playlist"@
            },
    {
        match self {
            LoopStatus::Off => "None",
            LoopStatus::Track => "Track",
            LoopStatus::Playlist => "Playlist",
        }
    }
}

/// Every track that a text names is identified by an object path.
pub proof fn law_track_path_is_object_path(s: Seq<char>)
    ensures
        is_object_path(track_path(s)),
{
    reveal_strlit("/");
}

/// The name of a loop status names that status.
pub proof fn law_loop_status_name_round_trip(status: LoopStatus)
    ensures
        named_loop_status(loop_status_name(status)) == Some(status),
{
    reveal_strlit("None");
    reveal_strlit("Track");
    reveal_strlit("Playlist");
    assert("None"@.len() == 4);
    assert("Track"@.len() == 5);
    assert("Playlist"@.len() == 8);
}

/// The object paths are the root, the slash in front of a name, and every other object path
/// followed by a slash and a name.
pub proof fn law_object_paths_are_made_of_names(path: Seq<char>, name: Seq<char>)
    requires
        name.len() > 0,
        forall|i: int|
            0 <= i < name.len() ==> 'A' <= #[trigger] name[i] <= 'Z' || 'a' <= name[i] <= 'z'
                || '0' <= name[i] <= '9' || name[i] == '_',
    ensures
        is_object_path(seq!['/']),
        is_object_path(seq!['/'] + name),
        is_object_path(path) && path.len() > 1 ==> is_object_path(path + seq!['/'] + name),
{
    let short = seq!['/'] + name;
    assert(short.last() == name.last());
    assert forall|i: int| 0 <= i < short.len() implies short[i] == '/' || is_name_char(
        #[trigger] short[i],
    ) by {
        assert(i > 0 ==> short[i] == name[i - 1]);
    }
    assert forall|i: int| 0 < i < short.len() && short[i - 1] == '/' implies #[trigger] short[i]
        != '/' by {
        assert(short[i] == name[i - 1]);
    }
    if is_object_path(path) && path.len() > 1 {
        let long = path + seq!['/'] + name;
        let n = path.len() as int;
        assert(long.last() == name.last());
        assert forall|i: int| 0 <= i < long.len() implies long[i] == '/' || is_name_char(
            #[trigger] long[i],
        ) by {
            assert(i < n ==> long[i] == path[i]);
            assert(i > n ==> long[i] == name[i - n - 1]);
        }
        assert forall|i: int| 0 < i < long.len() && long[i - 1] == '/' implies #[trigger] long[i]
            != '/' by {
            if i < n {
                assert(long[i] == path[i] && long[i - 1] == path[i - 1]);
            } else if i == n {
                assert(long[i - 1] == path.last());
            } else {
                assert(long[i] == name[i - n - 1]);
            }
        }
    }
}

/// An object path starts with a slash, ends with one only where it is the root, holds no two of
/// them in a row, and holds besides them only letters, digits and underscores.
pub proof fn law_object_paths_hold_nothing_else(path: Seq<char>, i: int)
    requires
        is_object_path(path),
        0 <= i < path.len(),
    ensures
        path[0] == '/',
        path.last() == '/' ==> path == seq!['/'],
        i > 0 && path[i] == '/' ==> path[i - 1] != '/',
        path[i] == '/' || 'A' <= path[i] <= 'Z' || 'a' <= path[i] <= 'z' || '0' <= path[i] <= '9'
            || path[i] == '_',
{
    assert(path.last() == '/' ==> path =~= seq!['/']);
}

/// The names of the three loop statuses are those that MPRIS gives them, and each names its
/// status. No other text names one.
pub proof fn law_loop_statuses_have_their_names(name: Seq<char>)
    ensures
        loop_status_name(LoopStatus::Off) == "None"@,
        loop_status_name(LoopStatus::Track) == "Track"@,
        loop_status_name(LoopStatus::Playlist) == "Playlist"@,
        named_loop_status(name) == Some(LoopStatus::Off) <==> name == "None"@,
        named_loop_status(name) == Some(LoopStatus::Track) <==> name == "Track"@,
        named_loop_status(name) == Some(LoopStatus::Playlist) <==> name == "Playlist"@,
{
    law_loop_status_name_round_trip(LoopStatus::Off);
    law_loop_status_name_round_trip(LoopStatus::Track);
    law_loop_status_name_round_trip(LoopStatus::Playlist);
}

} // verus!
