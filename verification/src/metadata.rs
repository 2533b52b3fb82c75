//! The metadata of a track: how it is read out of a JSON document.
use crate::json::{
    double_field, integer_field, law_strings_are_the_texts, law_strings_of_one, strings_field,
    text_field, Double, Json, JsonNumber, JsonView,
};
use crate::mpris::{
    is_object_path, law_track_path_is_object_path, millis_fit, millis_in_range, track_path, Time,
    TrackId,
};
use crate::text::{
    chars_of, law_replaced_adds_no_char, law_replaced_at_first_match, law_replaced_char_by_char,
    law_replaced_char_is_gone, law_replaced_keeps_unmatched, law_replaced_without_match, occurs,
    replace, replaced, text_of,
};
use vstd::prelude::*;

verus! {

/// The metadata of a track. An attribute that is not known is `None`.
#[derive(Debug)]
pub struct Metadata {
    pub trackid: Option<TrackId>,
    pub title: Option<String>,
    pub length: Option<Time>,
    pub artist: Option<Vec<String>>,
    pub album: Option<String>,
    pub url: Option<String>,
    pub art_url: Option<String>,
    pub disc_number: Option<i32>,
    pub track_number: Option<i32>,
    pub album_artist: Option<Vec<String>>,
    pub composer: Option<Vec<String>>,
    pub lyricist: Option<Vec<String>>,
    pub genre: Option<Vec<String>>,
    pub audio_bpm: Option<i32>,
    pub content_created: Option<String>,
    pub user_rating: Option<Double>,
    pub comment: Option<Vec<String>>,
}

/// What the metadata of a track say.
pub struct MetadataView {
    pub trackid: Option<Seq<char>>,
    pub title: Option<Seq<char>>,
    pub length: Option<Time>,
    pub artist: Option<Seq<Seq<char>>>,
    pub album: Option<Seq<char>>,
    pub url: Option<Seq<char>>,
    pub art_url: Option<Seq<char>>,
    pub disc_number: Option<i32>,
    pub track_number: Option<i32>,
    pub album_artist: Option<Seq<Seq<char>>>,
    pub composer: Option<Seq<Seq<char>>>,
    pub lyricist: Option<Seq<Seq<char>>>,
    pub genre: Option<Seq<Seq<char>>>,
    pub audio_bpm: Option<i32>,
    pub content_created: Option<Seq<char>>,
    pub user_rating: Option<Double>,
    pub comment: Option<Seq<Seq<char>>>,
}

impl View for Metadata {
    type V = MetadataView;

    open spec fn view(&self) -> MetadataView {
        MetadataView {
            trackid: self.trackid.deep_view(),
            title: self.title.deep_view(),
            length: self.length,
            artist: self.artist.deep_view(),
            album: self.album.deep_view(),
            url: self.url.deep_view(),
            art_url: self.art_url.deep_view(),
            disc_number: self.disc_number,
            track_number: self.track_number,
            album_artist: self.album_artist.deep_view(),
            composer: self.composer.deep_view(),
            lyricist: self.lyricist.deep_view(),
            genre: self.genre.deep_view(),
            audio_bpm: self.audio_bpm,
            content_created: self.content_created.deep_view(),
            user_rating: self.user_rating,
            comment: self.comment.deep_view(),
        }
    }
}

/// The metadata of no track.
pub open spec fn no_metadata() -> MetadataView {
    MetadataView {
        trackid: None,
        title: None,
        length: None,
        artist: None,
        album: None,
        url: None,
        art_url: None,
        disc_number: None,
        track_number: None,
        album_artist: None,
        composer: None,
        lyricist: None,
        genre: None,
        audio_bpm: None,
        content_created: None,
        user_rating: None,
        comment: None,
    }
}

/// The text in `o`, or else `default`.
pub open spec fn text_or(o: Option<Seq<char>>, default: Seq<char>) -> Seq<char> {
    match o {
        Some(text) => text,
        None => default,
    }
}

/// The URL of the file that has the Windows path `path` inside Wine. Drive C lies under the
/// Wine prefix, drive Z is the root of the file system.
pub open spec fn file_url(path: Seq<char>, wineprefix: Seq<char>) -> Seq<char> {
    let slashes = replaced(path, "\\"@, "/"@);
    let drive_c = replaced(slashes, "C:/"@, wineprefix + "drive_c/"@);
    let drive_z = replaced(drive_c, "Z:/"@, "/"@);
    "file://"@ + drive_z
}

/// `value` where it is in the range of `i32`.
pub open spec fn narrowed(value: Option<i64>) -> Option<i32> {
    match value {
        Some(x) => if i32::MIN <= x <= i32::MAX {
            Some(x as i32)
        } else {
            None
        },
        None => None,
    }
}

/// The track that the member `trackid` names.
pub open spec fn trackid_of(json: JsonView) -> Seq<char> {
    track_path(text_or(text_field(json, "trackid"@), "/org/musicbee/track/unknown"@))
}

/// The length of the track in milliseconds.
pub open spec fn length_millis(json: JsonView) -> i64 {
    match integer_field(json, "length"@) {
        Some(millis) => millis,
        None => 0,
    }
}

/// The artists: those that are listed, or else one that stands for the unknown.
pub open spec fn artists_of(json: JsonView) -> Seq<Seq<char>> {
    match strings_field(json, "artist"@) {
        Some(names) => if names.len() > 0 {
            names
        } else {
            seq!["Unknown Artist"@]
        },
        None => seq!["Unknown Artist"@],
    }
}

/// The URL of the file of the track.
pub open spec fn url_of(json: JsonView, wineprefix: Option<Seq<char>>) -> Seq<char> {
    match text_field(json, "file_url"@) {
        Some(path) => file_url(path, wineprefix->0),
        None => "Unknown File URL"@,
    }
}

/// What the metadata in a document say.
pub open spec fn metadata_of(json: JsonView, wineprefix: Option<Seq<char>>) -> MetadataView {
    MetadataView {
        trackid: Some(trackid_of(json)),
        title: Some(text_or(text_field(json, "title"@), "Unknown Title"@)),
        length: Some(Time { micros: (length_millis(json) * 1000) as i64 }),
        artist: Some(artists_of(json)),
        album: Some(text_or(text_field(json, "album"@), "Unknown Album"@)),
        url: Some(url_of(json, wineprefix)),
        art_url: None,
        disc_number: narrowed(integer_field(json, "disc_number"@)),
        track_number: narrowed(integer_field(json, "track_number"@)),
        album_artist: strings_field(json, "album_artist"@),
        composer: strings_field(json, "composer"@),
        lyricist: strings_field(json, "lyricist"@),
        genre: strings_field(json, "genre"@),
        audio_bpm: narrowed(integer_field(json, "bpm"@)),
        content_created: text_field(json, "content_created"@),
        user_rating: double_field(json, "rating"@),
        comment: strings_field(json, "comment"@),
    }
}

/// The text in `o`, or else `default`.
fn text_or_default(o: Option<&str>, default: &str) -> (r: String)
    ensures
        r@ == text_or(o.deep_view(), default@),
{
    match o {
        Some(text) => text.to_owned(),
        None => default.to_owned(),
    }
}

/// `value` where it is in the range of `i32`.
fn narrow(value: Option<i64>) -> (r: Option<i32>)
    ensures
        r == narrowed(value),
{
    match value {
        Some(x) => if -2147483648 <= x && x <= 2147483647 {
            Some(x as i32)
        } else {
            None
        },
        None => None,
    }
}

/// A copy of an optional text.
pub fn copy_text(o: &Option<String>) -> (r: Option<String>)
    ensures
        r.deep_view() == o.deep_view(),
{
    match o {
        Some(text) => Some(text.clone()),
        None => None,
    }
}

/// A copy of an optional list of texts.
pub fn copy_texts(o: &Option<Vec<String>>) -> (r: Option<Vec<String>>)
    ensures
        r.deep_view() == o.deep_view(),
{
    match o {
        Some(texts) => {
            let mut copies: Vec<String> = Vec::new();
            for i in 0..texts.len()
                invariant
                    copies.deep_view() == texts.deep_view().take(i as int),
            {
                let ghost before = copies.deep_view();
                copies.push(texts[i].clone());
                assert(copies.deep_view() == before.push(texts@[i as int]@));
                assert(texts.deep_view().take(i + 1) == texts.deep_view().take(i as int).push(
                    texts.deep_view()[i as int],
                ));
            }
            assert(texts.deep_view().take(texts@.len() as int) == texts.deep_view());
            Some(copies)
        },
        None => None,
    }
}

/// The URL of the file that has the Windows path `path` inside Wine.
pub fn to_file_url(path: &str, wineprefix: &str) -> (r: String)
    ensures
        r@ == file_url(path@, wineprefix@),
{
    proof {
        reveal_strlit("\\");
        reveal_strlit("C:/");
        reveal_strlit("Z:/");
    }
    let drive_c = wineprefix.to_owned().concat("drive_c/");
    let slash = chars_of("/");
    let slashes = replace(&chars_of(path), &chars_of("\\"), &slash);
    let on_c = replace(&slashes, &chars_of("C:/"), &chars_of(drive_c.as_str()));
    let on_z = replace(&on_c, &chars_of("Z:/"), &slash);
    "file://".to_owned().concat(text_of(&on_z).as_str())
}

/// The track that the member `trackid` of a document names.
pub fn read_trackid(json: &Json) -> (r: TrackId)
    ensures
        r@ == trackid_of(json@),
{
    TrackId::named(
        text_or_default(json.text_field("trackid"), "/org/musicbee/track/unknown").as_str(),
    )
}

/// The length of the track in milliseconds.
fn read_length(json: &Json) -> (r: i64)
    ensures
        r == length_millis(json@),
{
    match json.integer_field("length") {
        Some(millis) => millis,
        None => 0,
    }
}

/// The artists.
fn read_artists(json: &Json) -> (r: Vec<String>)
    ensures
        r.deep_view() == artists_of(json@),
{
    match json.strings_field("artist") {
        Some(names) => {
            assert(names.deep_view().len() == names@.len());
            if names.len() > 0 {
                return names;
            }
        },
        None => {},
    }
    let mut unknown: Vec<String> = Vec::new();
    unknown.push("Unknown Artist".to_owned());
    assert(unknown.deep_view() == seq!["Unknown Artist"@]);
    unknown
}

/// Whether the length of the track in a document fits into a [`Time`].
pub fn length_fits(json: &Json) -> (r: bool)
    ensures
        r == millis_in_range(length_millis(json@)),
{
    millis_fit(read_length(json))
}

impl Metadata {
    /// The metadata of no track.
    pub fn new() -> (r: Metadata)
        ensures
            r@ == no_metadata(),
    {
        Metadata {
            trackid: None,
            title: None,
            length: None,
            artist: None,
            album: None,
            url: None,
            art_url: None,
            disc_number: None,
            track_number: None,
            album_artist: None,
            composer: None,
            lyricist: None,
            genre: None,
            audio_bpm: None,
            content_created: None,
            user_rating: None,
            comment: None,
        }
    }

    /// Reads the metadata in a document. The Wine prefix has to be known where the document
    /// gives the path of the file.
    pub fn from_json(json: &Json, wineprefix: &Option<String>) -> (r: Metadata)
        requires
            millis_in_range(length_millis(json@)),
            text_field(json@, "file_url"@) is Some ==> wineprefix is Some,
        ensures
            r@ == metadata_of(json@, wineprefix.deep_view()),
    {
        let url = match json.text_field("file_url") {
            Some(path) => match wineprefix {
                Some(prefix) => to_file_url(path, prefix.as_str()),
                None => String::new(),
            },
            None => "Unknown File URL".to_owned(),
        };
        Metadata {
            trackid: Some(read_trackid(json)),
            title: Some(text_or_default(json.text_field("title"), "Unknown Title")),
            length: Some(Time::from_millis(read_length(json))),
            artist: Some(read_artists(json)),
            album: Some(text_or_default(json.text_field("album"), "Unknown Album")),
            url: Some(url),
            art_url: None,
            disc_number: narrow(json.integer_field("disc_number")),
            track_number: narrow(json.integer_field("track_number")),
            album_artist: json.strings_field("album_artist"),
            composer: json.strings_field("composer"),
            lyricist: json.strings_field("lyricist"),
            genre: json.strings_field("genre"),
            audio_bpm: narrow(json.integer_field("bpm")),
            content_created: match json.text_field("content_created") {
                Some(date) => Some(date.to_owned()),
                None => None,
            },
            user_rating: json.double_field("rating"),
            comment: json.strings_field("comment"),
        }
    }

    /// A copy of these metadata.
    pub fn copy(&self) -> (r: Metadata)
        ensures
            r@ == self@,
    {
        Metadata {
            trackid: match &self.trackid {
                Some(id) => Some(id.copy()),
                None => None,
            },
            title: copy_text(&self.title),
            length: self.length,
            artist: copy_texts(&self.artist),
            album: copy_text(&self.album),
            url: copy_text(&self.url),
            art_url: copy_text(&self.art_url),
            disc_number: self.disc_number,
            track_number: self.track_number,
            album_artist: copy_texts(&self.album_artist),
            composer: copy_texts(&self.composer),
            lyricist: copy_texts(&self.lyricist),
            genre: copy_texts(&self.genre),
            audio_bpm: self.audio_bpm,
            content_created: copy_text(&self.content_created),
            user_rating: self.user_rating,
            comment: copy_texts(&self.comment),
        }
    }
}

/// Metadata that were read say which track they are about, by an object path, and give its
/// title, length, album, file and at least one artist. They give no cover.
pub proof fn law_metadata_are_complete(json: JsonView, wineprefix: Option<Seq<char>>)
    ensures
        metadata_of(json, wineprefix).trackid matches Some(path) && is_object_path(path),
        metadata_of(json, wineprefix).title is Some,
        metadata_of(json, wineprefix).length is Some,
        metadata_of(json, wineprefix).album is Some,
        metadata_of(json, wineprefix).url is Some,
        metadata_of(json, wineprefix).artist matches Some(names) && names.len() > 0,
        metadata_of(json, wineprefix).art_url is None,
{
    law_track_path_is_object_path(
        text_or(text_field(json, "trackid"@), "/org/musicbee/track/unknown"@),
    );
}

/// A file URL has no backslash in it, unless the Wine prefix has one.
pub proof fn law_file_url_has_no_backslash(path: Seq<char>, wineprefix: Seq<char>)
    requires
        !wineprefix.contains('\\'),
    ensures
        !file_url(path, wineprefix).contains('\\'),
{
    reveal_strlit("\\");
    reveal_strlit("/");
    reveal_strlit("C:/");
    reveal_strlit("Z:/");
    reveal_strlit("drive_c/");
    reveal_strlit("file://");
    let slashes = replaced(path, "\\"@, "/"@);
    let to = wineprefix + "drive_c/"@;
    let drive_c = replaced(slashes, "C:/"@, to);
    assert("\\"@ == seq!['\\']);
    law_replaced_char_is_gone(path, '\\', "/"@);
    assert(!to.contains('\\'));
    law_replaced_adds_no_char(slashes, "C:/"@, to, '\\');
    law_replaced_adds_no_char(drive_c, "Z:/"@, "/"@, '\\');
}

/// A path in the notation of the host is left as it is.
pub proof fn law_host_path_is_kept(path: Seq<char>, wineprefix: Seq<char>)
    requires
        !path.contains('\\'),
        !occurs(path, "C:/"@),
        !occurs(path, "Z:/"@),
    ensures
        file_url(path, wineprefix) == "file://"@ + path,
{
    reveal_strlit("\\");
    assert("\\"@ == seq!['\\']);
    if occurs(path, "\\"@) {
        let i = choose|i: int| 0 <= i <= path.len() && "\\"@.is_prefix_of(#[trigger] path.skip(i));
        assert(path.skip(i).subrange(0, 1)[0] == '\\');
        assert(path[i] == '\\');
    }
    law_replaced_without_match(path, "\\"@, "/"@);
    law_replaced_without_match(path, "C:/"@, wineprefix + "drive_c/"@);
    law_replaced_without_match(path, "Z:/"@, "/"@);
}

/// What metadata say is what they hold, attribute by attribute.
pub proof fn law_view_of_metadata(metadata: Metadata)
    ensures
        metadata@.trackid == metadata.trackid.deep_view(),
        metadata@.title == metadata.title.deep_view(),
        metadata@.artist == metadata.artist.deep_view(),
        metadata@.album == metadata.album.deep_view(),
        metadata@.url == metadata.url.deep_view(),
        metadata@.art_url == metadata.art_url.deep_view(),
        metadata@.album_artist == metadata.album_artist.deep_view(),
        metadata@.composer == metadata.composer.deep_view(),
        metadata@.lyricist == metadata.lyricist.deep_view(),
        metadata@.genre == metadata.genre.deep_view(),
        metadata@.content_created == metadata.content_created.deep_view(),
        metadata@.comment == metadata.comment.deep_view(),
        metadata@.length == metadata.length,
        metadata@.disc_number == metadata.disc_number,
        metadata@.track_number == metadata.track_number,
        metadata@.audio_bpm == metadata.audio_bpm,
        metadata@.user_rating == metadata.user_rating,
{
}

/// A text member becomes the attribute that it stands for, as it is.
pub proof fn law_text_members_are_kept(
    members: Map<Seq<char>, JsonView>,
    wineprefix: Option<Seq<char>>,
    t: Seq<char>,
)
    ensures
        ({
            let metadata = metadata_of(JsonView::Object(members), wineprefix);
            &&& members.contains_key("title"@) && members["title"@] == JsonView::Text(t)
                ==> metadata.title == Some(t)
            &&& members.contains_key("album"@) && members["album"@] == JsonView::Text(t)
                ==> metadata.album == Some(t)
            &&& members.contains_key("content_created"@) && members["content_created"@]
                == JsonView::Text(t)
                ==> metadata.content_created == Some(t)
            &&& members.contains_key("trackid"@) && members["trackid"@] == JsonView::Text(t)
                ==> metadata.trackid == Some(
                if is_object_path(t) {
                    t
                } else {
                    "/"@
                },
            )
        }),
{
}

/// Where a text member is missing or no text, its default stands in.
pub proof fn law_other_text_members_have_defaults(
    members: Map<Seq<char>, JsonView>,
    wineprefix: Option<Seq<char>>,
)
    ensures
        ({
            let metadata = metadata_of(JsonView::Object(members), wineprefix);
            &&& !(members.contains_key("title"@) && members["title"@] is Text) ==> metadata.title
                == Some("Unknown Title"@)
            &&& !(members.contains_key("album"@) && members["album"@] is Text) ==> metadata.album
                == Some("Unknown Album"@)
            &&& !(members.contains_key("content_created"@)
                && members["content_created"@] is Text) ==> metadata.content_created
                == None::<Seq<char>>
            &&& !(members.contains_key("trackid"@) && members["trackid"@] is Text)
                ==> metadata.trackid
                == Some("/org/musicbee/track/unknown"@)
            &&& !(members.contains_key("file_url"@) && members["file_url"@] is Text)
                ==> metadata.url
                == Some("Unknown File URL"@)
        }),
{
    reveal_strlit("/org/musicbee/track/unknown");
    let unknown = "/org/musicbee/track/unknown"@;
    assert(unknown =~= seq![
        '/', 'o', 'r', 'g', '/', 'm', 'u', 's', 'i', 'c', 'b', 'e', 'e', '/', 't', 'r', 'a', 'c',
        'k', '/', 'u', 'n', 'k', 'n', 'o', 'w', 'n',
    ]);
    assert(is_object_path(unknown));
}

/// A number member becomes the attribute that it stands for where it is an integer in the range
/// of the attribute, and is else left out.
pub proof fn law_integer_members_are_kept(
    members: Map<Seq<char>, JsonView>,
    wineprefix: Option<Seq<char>>,
    number: JsonNumber,
    x: i64,
)
    ensures
        ({
            let metadata = metadata_of(JsonView::Object(members), wineprefix);
            &&& members.contains_key("disc_number"@) && members["disc_number"@]
                == JsonView::Number(number)
                && number.integer == Some(x) && i32::MIN <= x <= i32::MAX
                ==> metadata.disc_number is Some
                && metadata.disc_number->0 == x
            &&& members.contains_key("disc_number"@) && members["disc_number"@]
                == JsonView::Number(number)
                && (number.integer is None || (number.integer == Some(x) && !(i32::MIN <= x
                <= i32::MAX))) ==> metadata.disc_number is None
            &&& !(members.contains_key("disc_number"@) && members["disc_number"@] is Number)
                ==> metadata.disc_number is None
            &&& members.contains_key("track_number"@) && members["track_number"@]
                == JsonView::Number(number)
                && number.integer == Some(x) && i32::MIN <= x <= i32::MAX
                ==> metadata.track_number is Some
                && metadata.track_number->0 == x
            &&& members.contains_key("track_number"@) && members["track_number"@]
                == JsonView::Number(number)
                && (number.integer is None || (number.integer == Some(x) && !(i32::MIN <= x
                <= i32::MAX))) ==> metadata.track_number is None
            &&& !(members.contains_key("track_number"@) && members["track_number"@] is Number)
                ==> metadata.track_number is None
            &&& members.contains_key("bpm"@) && members["bpm"@] == JsonView::Number(number)
                && number.integer == Some(x) && i32::MIN <= x <= i32::MAX
                ==> metadata.audio_bpm is Some
                && metadata.audio_bpm->0 == x
            &&& members.contains_key("bpm"@) && members["bpm"@] == JsonView::Number(number)
                && (number.integer is None || (number.integer == Some(x) && !(i32::MIN <= x
                <= i32::MAX))) ==> metadata.audio_bpm is None
            &&& !(members.contains_key("bpm"@) && members["bpm"@] is Number)
                ==> metadata.audio_bpm is None
        }),
{
}

/// The length is given in milliseconds and kept in microseconds. It is nothing where no integer
/// is given.
pub proof fn law_length_is_kept(
    members: Map<Seq<char>, JsonView>,
    wineprefix: Option<Seq<char>>,
    number: JsonNumber,
    millis: i64,
)
    ensures
        ({
            let metadata = metadata_of(JsonView::Object(members), wineprefix);
            &&& metadata.length is Some
            &&& members.contains_key("length"@) && members["length"@] == JsonView::Number(number)
                && number.integer == Some(millis) && i64::MIN <= millis * 1000 <= i64::MAX
                ==> metadata.length->0.micros == millis * 1000
            &&& members.contains_key("length"@) && members["length"@] == JsonView::Number(number)
                && number.integer is None ==> metadata.length->0.micros == 0
            &&& !(members.contains_key("length"@) && members["length"@] is Number)
                ==> metadata.length->0.micros == 0
        }),
{
}

/// The rating is the number that is given, as a double-precision number.
pub proof fn law_rating_is_kept(
    members: Map<Seq<char>, JsonView>,
    wineprefix: Option<Seq<char>>,
    number: JsonNumber,
)
    ensures
        ({
            let metadata = metadata_of(JsonView::Object(members), wineprefix);
            &&& members.contains_key("rating"@) && members["rating"@] == JsonView::Number(number)
                ==> metadata.user_rating == number.double
            &&& !(members.contains_key("rating"@) && members["rating"@] is Number)
                ==> metadata.user_rating is None
        }),
{
}

/// A list member becomes the attribute that it stands for: the strings in it, in their order,
/// all of them. What is no list is left out.
pub proof fn law_list_members_are_kept(
    members: Map<Seq<char>, JsonView>,
    wineprefix: Option<Seq<char>>,
    items: Seq<JsonView>,
)
    ensures
        ({
            let metadata = metadata_of(JsonView::Object(members), wineprefix);
            let texts = items.filter(|item: JsonView| item is Text).map_values(
                |item: JsonView| item->Text_0,
            );
            &&& members.contains_key("album_artist"@) && members["album_artist"@]
                == JsonView::List(items)
                ==> metadata.album_artist == Some(texts)
            &&& !(members.contains_key("album_artist"@) && members["album_artist"@] is List)
                ==> metadata.album_artist is None
            &&& members.contains_key("composer"@) && members["composer"@] == JsonView::List(items)
                ==> metadata.composer == Some(texts)
            &&& !(members.contains_key("composer"@) && members["composer"@] is List)
                ==> metadata.composer is None
            &&& members.contains_key("lyricist"@) && members["lyricist"@] == JsonView::List(items)
                ==> metadata.lyricist == Some(texts)
            &&& !(members.contains_key("lyricist"@) && members["lyricist"@] is List)
                ==> metadata.lyricist is None
            &&& members.contains_key("genre"@) && members["genre"@] == JsonView::List(items)
                ==> metadata.genre == Some(texts)
            &&& !(members.contains_key("genre"@) && members["genre"@] is List)
                ==> metadata.genre is None
            &&& members.contains_key("comment"@) && members["comment"@] == JsonView::List(items)
                ==> metadata.comment == Some(texts)
            &&& !(members.contains_key("comment"@) && members["comment"@] is List)
                ==> metadata.comment is None
        }),
{
    law_strings_are_the_texts(items);
}

/// The artists are the strings in the list that is given, in their order, all of them. One that
/// stands for the unknown is given only where there is no list or no string in it.
pub proof fn law_artists_are_kept(
    members: Map<Seq<char>, JsonView>,
    wineprefix: Option<Seq<char>>,
    items: Seq<JsonView>,
)
    ensures
        ({
            let metadata = metadata_of(JsonView::Object(members), wineprefix);
            let listed = members.contains_key("artist"@) && members["artist"@] == JsonView::List(
                items,
            );
            let texts = items.filter(|item: JsonView| item is Text).map_values(
                |item: JsonView| item->Text_0,
            );
            &&& metadata.artist is Some
            &&& listed && (exists|i: int| 0 <= i < items.len() && #[trigger] items[i] is Text)
                ==> metadata.artist->0 == texts
            &&& listed && (forall|i: int| 0 <= i < items.len() ==> !(#[trigger] items[i] is Text))
                ==> metadata.artist->0 == seq!["Unknown Artist"@]
            &&& !(members.contains_key("artist"@) && members["artist"@] is List)
                ==> metadata.artist->0 == seq!["Unknown Artist"@]
        }),
{
    let is_text = |item: JsonView| item is Text;
    law_strings_are_the_texts(items);
    if exists|i: int| 0 <= i < items.len() && #[trigger] items[i] is Text {
        let i = choose|i: int| 0 <= i < items.len() && #[trigger] items[i] is Text;
        items.lemma_filter_contains(is_text, i);
    } else {
        let found = items.filter(is_text);
        if found.len() > 0 {
            lemma_filtered_comes_from(items, is_text);
            assert(items.contains(found[0]));
            items.lemma_filter_pred(is_text, 0);
        }
        assert(found.len() == 0);
    }
}

/// What a filter lets through was there before.
proof fn lemma_filtered_comes_from(items: Seq<JsonView>, keep: spec_fn(JsonView) -> bool)
    ensures
        forall|i: int|
            0 <= i < items.filter(keep).len() ==> items.contains(#[trigger] items.filter(keep)[i]),
    decreases items.len(),
{
    reveal(Seq::filter);
    if items.len() > 0 {
        let before = items.drop_last();
        lemma_filtered_comes_from(before, keep);
        assert forall|i: int| 0 <= i < items.filter(keep).len() implies items.contains(
            #[trigger] items.filter(keep)[i],
        ) by {
            let found = items.filter(keep)[i];
            if i < before.filter(keep).len() {
                assert(before.contains(before.filter(keep)[i]));
                let j = choose|j: int| 0 <= j < before.len() && before[j] == found;
                assert(items[j] == found);
            } else {
                assert(items[items.len() - 1] == found);
            }
        }
    }
}

/// A track by one artist has that artist.
pub proof fn law_one_artist_is_kept(
    members: Map<Seq<char>, JsonView>,
    wineprefix: Option<Seq<char>>,
    name: Seq<char>,
)
    requires
        members.contains_key("artist"@),
        members["artist"@] == JsonView::List(seq![JsonView::Text(name)]),
    ensures
        metadata_of(JsonView::Object(members), wineprefix).artist == Some(seq![name]),
{
    law_strings_of_one(JsonView::Text(name), name);
}

/// The file is the one whose path is given.
pub proof fn law_file_is_kept(
    members: Map<Seq<char>, JsonView>,
    wineprefix: Seq<char>,
    path: Seq<char>,
)
    requires
        members.contains_key("file_url"@),
        members["file_url"@] == JsonView::Text(path),
    ensures
        metadata_of(JsonView::Object(members), Some(wineprefix)).url == Some(
            file_url(path, wineprefix),
        ),
{
}

/// Metadata that are no object have defaults throughout, like an object without members.
pub proof fn law_metadata_of_another_kind(json: JsonView, wineprefix: Option<Seq<char>>)
    requires
        !(json is Object),
    ensures
        metadata_of(json, wineprefix) == metadata_of(JsonView::Object(Map::empty()), wineprefix),
{
}

/// The URL of a file on drive C is made of the Wine prefix, the directory of the drive and the
/// rest of the path. In the rest each backslash becomes a slash; every other character stays.
pub proof fn law_file_url_on_drive_c(path: Seq<char>, wineprefix: Seq<char>, rest: Seq<char>)
    requires
        path.len() >= 3,
        path[0] == 'C' && path[1] == ':' && (path[2] == '\\' || path[2] == '/'),
        forall|i: int|
            3 < i < path.len() && #[trigger] path[i] == ':' ==> path[i - 1] != 'C' && path[i - 1]
                != 'Z',
        forall|i: int|
            0 < i < wineprefix.len() && #[trigger] wineprefix[i] == ':' ==> wineprefix[i - 1]
                != 'Z',
        rest.len() == path.len() - 3,
        forall|i: int|
            0 <= i < rest.len() ==> #[trigger] rest[i] == if path[i + 3] == '\\' {
                '/'
            } else {
                path[i + 3]
            },
    ensures
        file_url(path, wineprefix) == "file://"@ + wineprefix + "drive_c/"@ + rest,
{
    reveal_strlit("C:/");
    reveal_strlit("Z:/");
    reveal_strlit("drive_c/");
    let slashed = "C:/"@ + rest;
    let to = wineprefix + "drive_c/"@;
    assert("C:/"@ =~= seq!['C', ':', '/']);
    assert("Z:/"@ =~= seq!['Z', ':', '/']);
    assert forall|i: int| 0 <= i < path.len() implies #[trigger] slashed[i] == if path[i] == '\\' {
        '/'
    } else {
        path[i]
    } by {
        assert(i >= 3 ==> slashed[i] == rest[i - 3]);
    }
    law_file_url_on_any_path(path, wineprefix, slashed);
    assert(slashed.subrange(0, 3) == "C:/"@);
    law_replaced_at_first_match(slashed, "C:/"@, to, 0);
    assert(slashed.skip(3) == rest);
    lemma_no_drive(rest, 'C', "C:/"@, to);
    assert(slashed.take(0) + to + rest == to + rest);
    let whole = to + rest;
    let n = wineprefix.len() as int;
    assert("drive_c/"@.len() == 8);
    assert forall|i: int| 0 < i < whole.len() && #[trigger] whole[i] == ':' implies whole[i - 1]
        != 'Z' by {
        if i < n {
            assert(whole[i] == wineprefix[i] && whole[i - 1] == wineprefix[i - 1]);
        } else if i < n + 8 {
            assert(whole[i] == "drive_c/"@[i - n]);
        } else if i == n + 8 {
            assert(whole[i - 1] == "drive_c/"@[7]);
        } else {
            assert(whole[i] == rest[i - n - 8] && whole[i - 1] == rest[i - n - 9]);
            assert(path[i - n - 5] == ':');
        }
    }
    lemma_no_drive(whole, 'Z', "Z:/"@, "/"@);
    assert("file://"@ + whole == "file://"@ + wineprefix + "drive_c/"@ + rest);
}

/// The URL of a file on drive Z is made of the root and the rest of the path. In the rest each
/// backslash becomes a slash; every other character stays.
pub proof fn law_file_url_on_drive_z(path: Seq<char>, wineprefix: Seq<char>, rest: Seq<char>)
    requires
        path.len() >= 3,
        path[0] == 'Z' && path[1] == ':' && (path[2] == '\\' || path[2] == '/'),
        forall|i: int|
            3 < i < path.len() && #[trigger] path[i] == ':' ==> path[i - 1] != 'C' && path[i - 1]
                != 'Z',
        rest.len() == path.len() - 3,
        forall|i: int|
            0 <= i < rest.len() ==> #[trigger] rest[i] == if path[i + 3] == '\\' {
                '/'
            } else {
                path[i + 3]
            },
    ensures
        file_url(path, wineprefix) == "file:///"@ + rest,
{
    reveal_strlit("C:/");
    reveal_strlit("Z:/");
    reveal_strlit("/");
    reveal_strlit("file://");
    reveal_strlit("file:///");
    let slashed = "Z:/"@ + rest;
    assert("C:/"@ =~= seq!['C', ':', '/']);
    assert("Z:/"@ =~= seq!['Z', ':', '/']);
    assert("/"@ =~= seq!['/']);
    assert("file:///"@ =~= "file://"@ + "/"@);
    assert forall|i: int| 0 <= i < path.len() implies #[trigger] slashed[i] == if path[i] == '\\' {
        '/'
    } else {
        path[i]
    } by {
        assert(i >= 3 ==> slashed[i] == rest[i - 3]);
    }
    law_file_url_on_any_path(path, wineprefix, slashed);
    assert forall|i: int| 0 < i < slashed.len() && #[trigger] slashed[i] == ':' implies slashed[i
        - 1] != 'C' by {
        assert(path[i] == ':');
        if i > 3 {
            assert(slashed[i - 1] == rest[i - 4]);
        }
    }
    lemma_no_drive(slashed, 'C', "C:/"@, wineprefix + "drive_c/"@);
    assert(slashed.subrange(0, 3) == "Z:/"@);
    law_replaced_at_first_match(slashed, "Z:/"@, "/"@, 0);
    assert(slashed.skip(3) == rest);
    lemma_no_drive(rest, 'Z', "Z:/"@, "/"@);
    assert("file://"@ + (slashed.take(0) + "/"@ + rest) == "file:///"@ + rest);
}

/// The URL of a file on no drive is made of its path. Each backslash becomes a slash; every
/// other character stays.
pub proof fn law_file_url_on_no_drive(path: Seq<char>, wineprefix: Seq<char>, rest: Seq<char>)
    requires
        forall|i: int|
            0 < i < path.len() && #[trigger] path[i] == ':' ==> path[i - 1] != 'C' && path[i - 1]
                != 'Z',
        rest.len() == path.len(),
        forall|i: int|
            0 <= i < rest.len() ==> #[trigger] rest[i] == if path[i] == '\\' {
                '/'
            } else {
                path[i]
            },
    ensures
        file_url(path, wineprefix) == "file://"@ + rest,
{
    reveal_strlit("C:/");
    reveal_strlit("Z:/");
    assert("C:/"@ =~= seq!['C', ':', '/']);
    assert("Z:/"@ =~= seq!['Z', ':', '/']);
    law_file_url_on_any_path(path, wineprefix, rest);
    lemma_no_drive(rest, 'C', "C:/"@, wineprefix + "drive_c/"@);
    lemma_no_drive(rest, 'Z', "Z:/"@, "/"@);
}

/// The URL of any file is made of its path with slashes for the backslashes, in which first the
/// root of drive C gives way to its directory under the Wine prefix, and then the root of drive
/// Z to the root of the host.
pub proof fn law_file_url_on_any_path(path: Seq<char>, wineprefix: Seq<char>, slashed: Seq<char>)
    requires
        slashed.len() == path.len(),
        forall|i: int|
            0 <= i < path.len() ==> #[trigger] slashed[i] == if path[i] == '\\' {
                '/'
            } else {
                path[i]
            },
    ensures
        file_url(path, wineprefix) == "file://"@ + replaced(
            replaced(slashed, "C:/"@, wineprefix + "drive_c/"@),
            "Z:/"@,
            "/"@,
        ),
{
    reveal_strlit("\\");
    reveal_strlit("/");
    assert("\\"@ =~= seq!['\\']);
    assert("/"@ =~= seq!['/']);
    law_replaced_char_by_char(path, '\\', '/');
    assert(replaced(path, "\\"@, "/"@) =~= slashed);
}

/// Where no colon follows the letter of a drive, the root of the drive is not replaced.
proof fn lemma_no_drive(s: Seq<char>, letter: char, root: Seq<char>, to: Seq<char>)
    requires
        root == seq![letter, ':', '/'],
        forall|i: int| 0 < i < s.len() && #[trigger] s[i] == ':' ==> s[i - 1] != letter,
    ensures
        replaced(s, root, to) == s,
{
    assert forall|j: int| 0 <= j <= s.len() - root.len() implies #[trigger] s.subrange(
        j,
        j + root.len(),
    ) != root by {
        let piece = s.subrange(j, j + root.len());
        if piece == root {
            assert(piece[0] == s[j] && piece[1] == s[j + 1]);
            assert(s[j + 1] == ':');
        }
    }
    law_replaced_keeps_unmatched(s, root, to);
}

} // verus!
