//! The track record: the data the player reports for one track, decoded
//! from the interpreter's JSON output, plus the lazily cached enrichment
//! outcome.

use vstd::prelude::*;

use crate::artwork::Artwork;
use crate::enrichment::EnrichmentState;
use crate::enrichment::EnrichmentUrls;
use crate::json::JsonModel;
use crate::json::JsonRecord;
use crate::json::JsonValue;
use crate::json::bool_field;
use crate::json::bool_field_ok;
use crate::json::get_bool;
use crate::json::get_bool_opt;
use crate::json::get_i64;
use crate::json::get_i64_opt;
use crate::json::get_numtext;
use crate::json::get_rec_opt;
use crate::json::get_string;
use crate::json::get_string_opt;
use crate::json::int_field;
use crate::json::int_field_ok;
use crate::json::model_fields;
use crate::json::numtext_field;
use crate::json::numtext_field_ok;
use crate::json::opt_bool_field;
use crate::json::opt_bool_field_ok;
use crate::json::opt_int_field;
use crate::json::opt_int_field_ok;
use crate::json::opt_rec_matches;
use crate::json::opt_rec_ok;
use crate::json::opt_str_field;
use crate::json::opt_str_field_ok;
use crate::json::opt_str_matches;
use crate::json::str_field;
use crate::json::str_field_ok;
use crate::text::str_eq;

verus! {

/// Type of rating: user-made or computed.
#[derive(Clone, Copy, Debug, PartialEq, Eq, Structural)]
pub enum Kind {
    User,
    Computed,
}

/// The `Kind` value a tag string denotes, if any.
pub open spec fn kind_of(sx: Seq<char>) -> Option<Kind> {
    if sx == "user"@ {
        Some(Kind::User)
    } else if sx == "computed"@ {
        Some(Kind::Computed)
    } else {
        None
    }
}

/// Reads a `Kind` from its tag string; the executable mirror of
/// [`kind_of`].
pub fn kind_from(s: &str) -> (r: Option<Kind>)
    ensures
        r == kind_of(s@),
{
    if str_eq(s, "user") {
        Some(Kind::User)
    } else if str_eq(s, "computed") {
        Some(Kind::Computed)
    } else {
        None
    }
}

/// Cloud status for a track.
#[derive(Clone, Copy, Debug, PartialEq, Eq, Structural)]
pub enum CloudStatus {
    Unknown,
    Purchased,
    Matched,
    Uploaded,
    Ineligible,
    Removed,
    Error,
    Duplicate,
    Subscription,
    Prerelease,
    NoLongerAvailable,
    NotUploaded,
}

/// The `CloudStatus` value a tag string denotes, if any.
pub open spec fn cloud_status_of(sx: Seq<char>) -> Option<CloudStatus> {
    if sx == "unknown"@ {
        Some(CloudStatus::Unknown)
    } else if sx == "purchased"@ {
        Some(CloudStatus::Purchased)
    } else if sx == "matched"@ {
        Some(CloudStatus::Matched)
    } else if sx == "uploaded"@ {
        Some(CloudStatus::Uploaded)
    } else if sx == "ineligible"@ {
        Some(CloudStatus::Ineligible)
    } else if sx == "removed"@ {
        Some(CloudStatus::Removed)
    } else if sx == "error"@ {
        Some(CloudStatus::Error)
    } else if sx == "duplicate"@ {
        Some(CloudStatus::Duplicate)
    } else if sx == "subscription"@ {
        Some(CloudStatus::Subscription)
    } else if sx == "prerelease"@ {
        Some(CloudStatus::Prerelease)
    } else if sx == "no longer available"@ {
        Some(CloudStatus::NoLongerAvailable)
    } else if sx == "notuploaded"@ {
        Some(CloudStatus::NotUploaded)
    } else {
        None
    }
}

/// Reads a `CloudStatus` from its tag string; the executable mirror of
/// [`cloud_status_of`].
pub fn cloud_status_from(s: &str) -> (r: Option<CloudStatus>)
    ensures
        r == cloud_status_of(s@),
{
    if str_eq(s, "unknown") {
        Some(CloudStatus::Unknown)
    } else if str_eq(s, "purchased") {
        Some(CloudStatus::Purchased)
    } else if str_eq(s, "matched") {
        Some(CloudStatus::Matched)
    } else if str_eq(s, "uploaded") {
        Some(CloudStatus::Uploaded)
    } else if str_eq(s, "ineligible") {
        Some(CloudStatus::Ineligible)
    } else if str_eq(s, "removed") {
        Some(CloudStatus::Removed)
    } else if str_eq(s, "error") {
        Some(CloudStatus::Error)
    } else if str_eq(s, "duplicate") {
        Some(CloudStatus::Duplicate)
    } else if str_eq(s, "subscription") {
        Some(CloudStatus::Subscription)
    } else if str_eq(s, "prerelease") {
        Some(CloudStatus::Prerelease)
    } else if str_eq(s, "no longer available") {
        Some(CloudStatus::NoLongerAvailable)
    } else if str_eq(s, "notuploaded") {
        Some(CloudStatus::NotUploaded)
    } else {
        None
    }
}

/// Type of media: a song, a music video, or unknown.
#[derive(Clone, Copy, Debug, PartialEq, Eq, Structural)]
pub enum MediaKind {
    Song,
    MusicVideo,
    Unknown,
}

/// The `MediaKind` value a tag string denotes, if any.
pub open spec fn media_kind_of(sx: Seq<char>) -> Option<MediaKind> {
    if sx == "song"@ {
        Some(MediaKind::Song)
    } else if sx == "musicVideo"@ {
        Some(MediaKind::MusicVideo)
    } else if sx == "unknown"@ {
        Some(MediaKind::Unknown)
    } else {
        None
    }
}

/// Reads a `MediaKind` from its tag string; the executable mirror of
/// [`media_kind_of`].
pub fn media_kind_from(s: &str) -> (r: Option<MediaKind>)
    ensures
        r == media_kind_of(s@),
{
    if str_eq(s, "song") {
        Some(MediaKind::Song)
    } else if str_eq(s, "musicVideo") {
        Some(MediaKind::MusicVideo)
    } else if str_eq(s, "unknown") {
        Some(MediaKind::Unknown)
    } else {
        None
    }
}

/// Type of track: shared, from a file, or from a URL.
#[derive(Clone, Copy, Debug, PartialEq, Eq, Structural)]
pub enum TrackKind {
    SharedTrack,
    FileTrack,
    UrlTrack,
}

/// The `TrackKind` value a tag string denotes, if any.
pub open spec fn track_kind_of(sx: Seq<char>) -> Option<TrackKind> {
    if sx == "sharedTrack"@ {
        Some(TrackKind::SharedTrack)
    } else if sx == "fileTrack"@ {
        Some(TrackKind::FileTrack)
    } else if sx == "urlTrack"@ {
        Some(TrackKind::UrlTrack)
    } else {
        None
    }
}

/// Reads a `TrackKind` from its tag string; the executable mirror of
/// [`track_kind_of`].
pub fn track_kind_from(s: &str) -> (r: Option<TrackKind>)
    ensures
        r == track_kind_of(s@),
{
    if str_eq(s, "sharedTrack") {
        Some(TrackKind::SharedTrack)
    } else if str_eq(s, "fileTrack") {
        Some(TrackKind::FileTrack)
    } else if str_eq(s, "urlTrack") {
        Some(TrackKind::UrlTrack)
    } else {
        None
    }
}

/// The data the player reports for one track, together with the track's
/// artworks and the cached enrichment outcome.
///
/// Times and durations the player reports as non-integral numbers are
/// carried as their raw decimal tokens, unparsed.
pub struct Track {
    /// The class of the track.
    pub class: TrackKind,
    /// The id of the item.
    pub id: i32,
    /// The index of the item in internal application order.
    pub index: i32,
    /// The name of the item.
    pub name: String,
    /// The id of the item as a hexadecimal string; it does not change over time.
    pub persistent_id: String,
    /// The album name of the track.
    pub album: String,
    /// The album artist of the track.
    pub album_artist: String,
    /// Is the album for this track disliked?
    pub album_disliked: bool,
    /// Is the album for this track loved?
    pub album_loved: bool,
    /// The rating of the album for this track (0 to 100).
    pub album_rating: Option<i16>,
    /// The rating kind of the album rating for this track.
    pub album_rating_kind: Option<Kind>,
    /// The artworks of the track.
    pub artworks: Option<Vec<Artwork>>,
    /// The bit rate of the track (in kbps).
    pub bit_rate: Option<i16>,
    /// The bookmark time of the track in seconds.
    pub bookmark: i8,
    /// Is the playback position for this track remembered?
    pub bookmarkable: bool,
    /// The tempo of this track in beats per minute.
    pub bpm: i16,
    /// The category of the track.
    pub category: String,
    /// The cloud status of the track.
    pub cloud_status: Option<CloudStatus>,
    /// Freeform notes about the track.
    pub comment: String,
    /// Is this track from a compilation album?
    pub compilation: bool,
    /// The composer of the track.
    pub composer: String,
    /// The common, unique ID for this track; two tracks with the same database ID share their data.
    pub database_id: i32,
    /// The date the track was added to the playlist.
    pub date_added: String,
    /// The description of the track.
    pub description: String,
    /// Is this track disliked?
    pub disliked: bool,
    /// The account id of the person who downloaded this track.
    pub downloader_apple_id: Option<String>,
    /// The name of the person who downloaded this track.
    pub downloader_name: Option<String>,
    /// The length of the track in seconds, as the raw decimal token.
    pub duration: String,
    /// Is this track checked for playback?
    pub enabled: bool,
    /// The episode ID of the track.
    pub episode_id: Option<String>,
    /// The episode number of the track.
    pub episode_number: i16,
    /// The name of the EQ preset of the track.
    pub eq: String,
    /// The stop time of the track in seconds, as the raw decimal token.
    pub finish: String,
    /// Is this track from a gapless album?
    pub gapless: Option<bool>,
    /// The music/audio genre (category) of the track.
    pub genre: String,
    /// The grouping (piece) of the track; generally a movement within a classical work.
    pub grouping: String,
    /// A text description of the track.
    pub kind: Option<String>,
    /// The long description of the track.
    pub long_description: Option<String>,
    /// Is this track loved?
    pub loved: bool,
    /// The lyrics of the track.
    pub lyrics: Option<String>,
    /// The media kind of the track.
    pub media_kind: MediaKind,
    /// The modification date of the content of this track.
    pub modification_date: Option<String>,
    /// The movement name of the track.
    pub movement: Option<String>,
    /// The total number of movements in the work.
    pub movement_count: i16,
    /// The index of the movement in the work.
    pub movement_number: i16,
    /// Number of times this track has been played.
    pub played_count: i16,
    /// The date and time this track was last played.
    pub played_date: Option<String>,
    /// The account id of the person who purchased this track.
    pub purchaser_apple_id: Option<String>,
    /// The name of the person who purchased this track.
    pub purchaser_name: Option<String>,
    /// The rating of this track (0 to 100).
    pub rating: i16,
    /// The rating kind of this track.
    pub rating_kind: Option<Kind>,
    /// The release date of this track.
    pub release_date: String,
    /// The sample rate of the track (in Hz).
    pub sample_rate: Option<i32>,
    /// The season number of the track.
    pub season_number: Option<i16>,
    /// Is this track included when shuffling?
    pub shufflable: bool,
    /// Number of times this track has been skipped.
    pub skipped_count: i16,
    /// The date and time this track was last skipped.
    pub skipped_date: Option<String>,
    /// The show name of the track.
    pub show: Option<String>,
    /// Override string to use for the track when sorting by album.
    pub sort_album: Option<String>,
    /// Override string to use for the track when sorting by artist.
    pub sort_artist: Option<String>,
    /// Override string to use for the track when sorting by album artist.
    pub sort_album_artist: Option<String>,
    /// Override string to use for the track when sorting by name.
    pub sort_name: Option<String>,
    /// Override string to use for the track when sorting by composer.
    pub sort_composer: Option<String>,
    /// Override string to use for the track when sorting by show name.
    pub sort_show: Option<String>,
    /// The size of the track (in bytes).
    pub size: Option<i64>,
    /// The start time of the track in seconds, as the raw decimal token.
    pub start: String,
    /// The length of the track in MM:SS format.
    pub time: String,
    /// The total number of tracks on the source album.
    pub track_count: i16,
    /// The index of the track on the source album.
    pub track_number: i16,
    /// Is this track unplayed?
    pub unplayed: bool,
    /// Relative volume adjustment of the track (-100% to 100%).
    pub volume_adjustment: i16,
    /// The work name of the track.
    pub work: Option<String>,
    /// The year the track was recorded or released.
    pub year: i16,
    /// The cached enrichment outcome; `Unresolved` on a freshly decoded
    /// record.
    pub enrichment: EnrichmentState,
}

impl JsonRecord for Track {
    open spec fn json_ok(v: JsonModel) -> bool {
        &&& v matches JsonModel::Obj(o)
        &&& str_field_ok(o, "class"@) && track_kind_of(str_field(o, "class"@)) is Some
        &&& int_field_ok(o, "id"@, -2147483648, 2147483647)
        &&& int_field_ok(o, "index"@, -2147483648, 2147483647)
        &&& str_field_ok(o, "name"@)
        &&& str_field_ok(o, "persistentID"@)
        &&& str_field_ok(o, "album"@)
        &&& str_field_ok(o, "albumArtist"@)
        &&& bool_field_ok(o, "albumDisliked"@)
        &&& bool_field_ok(o, "albumLoved"@)
        &&& opt_int_field_ok(o, "albumRating"@, -32768, 32767)
        &&& opt_str_field_ok(o, "albumRatingKind"@) && (opt_str_field(o, "albumRatingKind"@) matches Some(sx) ==> kind_of(sx) is Some)
        &&& opt_rec_ok::<Vec<Artwork>>(o, "artworks"@)
        &&& opt_int_field_ok(o, "bitRate"@, -32768, 32767)
        &&& int_field_ok(o, "bookmark"@, -128, 127)
        &&& bool_field_ok(o, "bookmarkable"@)
        &&& int_field_ok(o, "bpm"@, -32768, 32767)
        &&& str_field_ok(o, "category"@)
        &&& opt_str_field_ok(o, "cloudStatus"@) && (opt_str_field(o, "cloudStatus"@) matches Some(sx) ==> cloud_status_of(sx) is Some)
        &&& str_field_ok(o, "comment"@)
        &&& bool_field_ok(o, "compilation"@)
        &&& str_field_ok(o, "composer"@)
        &&& int_field_ok(o, "databaseID"@, -2147483648, 2147483647)
        &&& str_field_ok(o, "dateAdded"@)
        &&& str_field_ok(o, "description"@)
        &&& bool_field_ok(o, "disliked"@)
        &&& opt_str_field_ok(o, "downloaderAppleID"@)
        &&& opt_str_field_ok(o, "downloaderName"@)
        &&& numtext_field_ok(o, "duration"@)
        &&& bool_field_ok(o, "enabled"@)
        &&& opt_str_field_ok(o, "episodeID"@)
        &&& int_field_ok(o, "episodeNumber"@, -32768, 32767)
        &&& str_field_ok(o, "eq"@)
        &&& numtext_field_ok(o, "finish"@)
        &&& opt_bool_field_ok(o, "gapless"@)
        &&& str_field_ok(o, "genre"@)
        &&& str_field_ok(o, "grouping"@)
        &&& opt_str_field_ok(o, "kind"@)
        &&& opt_str_field_ok(o, "longDescription"@)
        &&& bool_field_ok(o, "loved"@)
        &&& opt_str_field_ok(o, "lyrics"@)
        &&& str_field_ok(o, "mediaKind"@) && media_kind_of(str_field(o, "mediaKind"@)) is Some
        &&& opt_str_field_ok(o, "modificationDate"@)
        &&& opt_str_field_ok(o, "movement"@)
        &&& int_field_ok(o, "movementCount"@, -32768, 32767)
        &&& int_field_ok(o, "movementNumber"@, -32768, 32767)
        &&& int_field_ok(o, "playedCount"@, -32768, 32767)
        &&& opt_str_field_ok(o, "playedDate"@)
        &&& opt_str_field_ok(o, "purchaserAppleID"@)
        &&& opt_str_field_ok(o, "purchaserName"@)
        &&& int_field_ok(o, "rating"@, -32768, 32767)
        &&& opt_str_field_ok(o, "ratingKind"@) && (opt_str_field(o, "ratingKind"@) matches Some(sx) ==> kind_of(sx) is Some)
        &&& str_field_ok(o, "releaseDate"@)
        &&& opt_int_field_ok(o, "sampleRate"@, -2147483648, 2147483647)
        &&& opt_int_field_ok(o, "seasonNumber"@, -32768, 32767)
        &&& bool_field_ok(o, "shufflable"@)
        &&& int_field_ok(o, "skippedCount"@, -32768, 32767)
        &&& opt_str_field_ok(o, "skippedDate"@)
        &&& opt_str_field_ok(o, "show"@)
        &&& opt_str_field_ok(o, "sortAlbum"@)
        &&& opt_str_field_ok(o, "sortArtist"@)
        &&& opt_str_field_ok(o, "sortAlbumArtist"@)
        &&& opt_str_field_ok(o, "sortName"@)
        &&& opt_str_field_ok(o, "sortComposer"@)
        &&& opt_str_field_ok(o, "sortShow"@)
        &&& opt_int_field_ok(o, "size"@, i64::MIN as int, i64::MAX as int)
        &&& numtext_field_ok(o, "start"@)
        &&& str_field_ok(o, "time"@)
        &&& int_field_ok(o, "trackCount"@, -32768, 32767)
        &&& int_field_ok(o, "trackNumber"@, -32768, 32767)
        &&& bool_field_ok(o, "unplayed"@)
        &&& int_field_ok(o, "volumeAdjustment"@, -32768, 32767)
        &&& opt_str_field_ok(o, "work"@)
        &&& int_field_ok(o, "year"@, -32768, 32767)
    }

    open spec fn matches_json(self, v: JsonModel) -> bool {
        &&& v matches JsonModel::Obj(o)
        &&& Some(self.class) == track_kind_of(str_field(o, "class"@))
        &&& self.id as int == int_field(o, "id"@)
        &&& self.index as int == int_field(o, "index"@)
        &&& self.name@ == str_field(o, "name"@)
        &&& self.persistent_id@ == str_field(o, "persistentID"@)
        &&& self.album@ == str_field(o, "album"@)
        &&& self.album_artist@ == str_field(o, "albumArtist"@)
        &&& self.album_disliked == bool_field(o, "albumDisliked"@)
        &&& self.album_loved == bool_field(o, "albumLoved"@)
        &&& (match self.album_rating { Some(n) => opt_int_field(o, "albumRating"@) == Some(n as int), None => opt_int_field(o, "albumRating"@) is None })
        &&& (match opt_str_field(o, "albumRatingKind"@) { None => self.album_rating_kind is None, Some(sx) => self.album_rating_kind matches Some(e) && kind_of(sx) == Some(e) })
        &&& opt_rec_matches(self.artworks, o, "artworks"@)
        &&& (match self.bit_rate { Some(n) => opt_int_field(o, "bitRate"@) == Some(n as int), None => opt_int_field(o, "bitRate"@) is None })
        &&& self.bookmark as int == int_field(o, "bookmark"@)
        &&& self.bookmarkable == bool_field(o, "bookmarkable"@)
        &&& self.bpm as int == int_field(o, "bpm"@)
        &&& self.category@ == str_field(o, "category"@)
        &&& (match opt_str_field(o, "cloudStatus"@) { None => self.cloud_status is None, Some(sx) => self.cloud_status matches Some(e) && cloud_status_of(sx) == Some(e) })
        &&& self.comment@ == str_field(o, "comment"@)
        &&& self.compilation == bool_field(o, "compilation"@)
        &&& self.composer@ == str_field(o, "composer"@)
        &&& self.database_id as int == int_field(o, "databaseID"@)
        &&& self.date_added@ == str_field(o, "dateAdded"@)
        &&& self.description@ == str_field(o, "description"@)
        &&& self.disliked == bool_field(o, "disliked"@)
        &&& opt_str_matches(self.downloader_apple_id, opt_str_field(o, "downloaderAppleID"@))
        &&& opt_str_matches(self.downloader_name, opt_str_field(o, "downloaderName"@))
        &&& self.duration@ == numtext_field(o, "duration"@)
        &&& self.enabled == bool_field(o, "enabled"@)
        &&& opt_str_matches(self.episode_id, opt_str_field(o, "episodeID"@))
        &&& self.episode_number as int == int_field(o, "episodeNumber"@)
        &&& self.eq@ == str_field(o, "eq"@)
        &&& self.finish@ == numtext_field(o, "finish"@)
        &&& (match self.gapless { Some(b) => opt_bool_field(o, "gapless"@) == Some(b), None => opt_bool_field(o, "gapless"@) is None })
        &&& self.genre@ == str_field(o, "genre"@)
        &&& self.grouping@ == str_field(o, "grouping"@)
        &&& opt_str_matches(self.kind, opt_str_field(o, "kind"@))
        &&& opt_str_matches(self.long_description, opt_str_field(o, "longDescription"@))
        &&& self.loved == bool_field(o, "loved"@)
        &&& opt_str_matches(self.lyrics, opt_str_field(o, "lyrics"@))
        &&& Some(self.media_kind) == media_kind_of(str_field(o, "mediaKind"@))
        &&& opt_str_matches(self.modification_date, opt_str_field(o, "modificationDate"@))
        &&& opt_str_matches(self.movement, opt_str_field(o, "movement"@))
        &&& self.movement_count as int == int_field(o, "movementCount"@)
        &&& self.movement_number as int == int_field(o, "movementNumber"@)
        &&& self.played_count as int == int_field(o, "playedCount"@)
        &&& opt_str_matches(self.played_date, opt_str_field(o, "playedDate"@))
        &&& opt_str_matches(self.purchaser_apple_id, opt_str_field(o, "purchaserAppleID"@))
        &&& opt_str_matches(self.purchaser_name, opt_str_field(o, "purchaserName"@))
        &&& self.rating as int == int_field(o, "rating"@)
        &&& (match opt_str_field(o, "ratingKind"@) { None => self.rating_kind is None, Some(sx) => self.rating_kind matches Some(e) && kind_of(sx) == Some(e) })
        &&& self.release_date@ == str_field(o, "releaseDate"@)
        &&& (match self.sample_rate { Some(n) => opt_int_field(o, "sampleRate"@) == Some(n as int), None => opt_int_field(o, "sampleRate"@) is None })
        &&& (match self.season_number { Some(n) => opt_int_field(o, "seasonNumber"@) == Some(n as int), None => opt_int_field(o, "seasonNumber"@) is None })
        &&& self.shufflable == bool_field(o, "shufflable"@)
        &&& self.skipped_count as int == int_field(o, "skippedCount"@)
        &&& opt_str_matches(self.skipped_date, opt_str_field(o, "skippedDate"@))
        &&& opt_str_matches(self.show, opt_str_field(o, "show"@))
        &&& opt_str_matches(self.sort_album, opt_str_field(o, "sortAlbum"@))
        &&& opt_str_matches(self.sort_artist, opt_str_field(o, "sortArtist"@))
        &&& opt_str_matches(self.sort_album_artist, opt_str_field(o, "sortAlbumArtist"@))
        &&& opt_str_matches(self.sort_name, opt_str_field(o, "sortName"@))
        &&& opt_str_matches(self.sort_composer, opt_str_field(o, "sortComposer"@))
        &&& opt_str_matches(self.sort_show, opt_str_field(o, "sortShow"@))
        &&& (match self.size { Some(n) => opt_int_field(o, "size"@) == Some(n as int), None => opt_int_field(o, "size"@) is None })
        &&& self.start@ == numtext_field(o, "start"@)
        &&& self.time@ == str_field(o, "time"@)
        &&& self.track_count as int == int_field(o, "trackCount"@)
        &&& self.track_number as int == int_field(o, "trackNumber"@)
        &&& self.unplayed == bool_field(o, "unplayed"@)
        &&& self.volume_adjustment as int == int_field(o, "volumeAdjustment"@)
        &&& opt_str_matches(self.work, opt_str_field(o, "work"@))
        &&& self.year as int == int_field(o, "year"@)
        &&& self.enrichment is Unresolved
    }

    #[verifier::rlimit(100)]
    #[verifier::spinoff_prover]
    fn from_json(v: &JsonValue) -> (r: Option<Track>) {
        let fields = match v {
            JsonValue::Obj(fields) => fields,
            _ => {
                return None;
            },
        };
        proof {
            assert(v@->Obj_0 =~~= model_fields(fields@));
        }
        let class = match get_string(fields, "class") {
            Some(sx) => match track_kind_from(sx.as_str()) { Some(e) => e, None => { return None; } },
            None => { return None; },
        };
        let id = match get_i64(fields, "id", -2147483648i64, 2147483647i64) { Some(x) => x as i32, None => { return None; } };
        let index = match get_i64(fields, "index", -2147483648i64, 2147483647i64) { Some(x) => x as i32, None => { return None; } };
        let name = match get_string(fields, "name") { Some(x) => x, None => { return None; } };
        let persistent_id = match get_string(fields, "persistentID") { Some(x) => x, None => { return None; } };
        let album = match get_string(fields, "album") { Some(x) => x, None => { return None; } };
        let album_artist = match get_string(fields, "albumArtist") { Some(x) => x, None => { return None; } };
        let album_disliked = match get_bool(fields, "albumDisliked") { Some(x) => x, None => { return None; } };
        let album_loved = match get_bool(fields, "albumLoved") { Some(x) => x, None => { return None; } };
        let album_rating = match get_i64_opt(fields, "albumRating", -32768i64, 32767i64) { Some(Some(x)) => Some(x as i16), Some(None) => None, None => { return None; } };
        let album_rating_kind = match get_string_opt(fields, "albumRatingKind") {
            Some(Some(sx)) => match kind_from(sx.as_str()) { Some(e) => Some(e), None => { return None; } },
            Some(None) => None,
            None => { return None; },
        };
        let artworks = match get_rec_opt::<Vec<Artwork>>(fields, "artworks") { Some(x) => x, None => { return None; } };
        let bit_rate = match get_i64_opt(fields, "bitRate", -32768i64, 32767i64) { Some(Some(x)) => Some(x as i16), Some(None) => None, None => { return None; } };
        let bookmark = match get_i64(fields, "bookmark", -128i64, 127i64) { Some(x) => x as i8, None => { return None; } };
        let bookmarkable = match get_bool(fields, "bookmarkable") { Some(x) => x, None => { return None; } };
        let bpm = match get_i64(fields, "bpm", -32768i64, 32767i64) { Some(x) => x as i16, None => { return None; } };
        let category = match get_string(fields, "category") { Some(x) => x, None => { return None; } };
        let cloud_status = match get_string_opt(fields, "cloudStatus") {
            Some(Some(sx)) => match cloud_status_from(sx.as_str()) { Some(e) => Some(e), None => { return None; } },
            Some(None) => None,
            None => { return None; },
        };
        let comment = match get_string(fields, "comment") { Some(x) => x, None => { return None; } };
        let compilation = match get_bool(fields, "compilation") { Some(x) => x, None => { return None; } };
        let composer = match get_string(fields, "composer") { Some(x) => x, None => { return None; } };
        let database_id = match get_i64(fields, "databaseID", -2147483648i64, 2147483647i64) { Some(x) => x as i32, None => { return None; } };
        let date_added = match get_string(fields, "dateAdded") { Some(x) => x, None => { return None; } };
        let description = match get_string(fields, "description") { Some(x) => x, None => { return None; } };
        let disliked = match get_bool(fields, "disliked") { Some(x) => x, None => { return None; } };
        let downloader_apple_id = match get_string_opt(fields, "downloaderAppleID") { Some(x) => x, None => { return None; } };
        let downloader_name = match get_string_opt(fields, "downloaderName") { Some(x) => x, None => { return None; } };
        let duration = match get_numtext(fields, "duration") { Some(x) => x, None => { return None; } };
        let enabled = match get_bool(fields, "enabled") { Some(x) => x, None => { return None; } };
        let episode_id = match get_string_opt(fields, "episodeID") { Some(x) => x, None => { return None; } };
        let episode_number = match get_i64(fields, "episodeNumber", -32768i64, 32767i64) { Some(x) => x as i16, None => { return None; } };
        let eq = match get_string(fields, "eq") { Some(x) => x, None => { return None; } };
        let finish = match get_numtext(fields, "finish") { Some(x) => x, None => { return None; } };
        let gapless = match get_bool_opt(fields, "gapless") { Some(x) => x, None => { return None; } };
        let genre = match get_string(fields, "genre") { Some(x) => x, None => { return None; } };
        let grouping = match get_string(fields, "grouping") { Some(x) => x, None => { return None; } };
        let kind = match get_string_opt(fields, "kind") { Some(x) => x, None => { return None; } };
        let long_description = match get_string_opt(fields, "longDescription") { Some(x) => x, None => { return None; } };
        let loved = match get_bool(fields, "loved") { Some(x) => x, None => { return None; } };
        let lyrics = match get_string_opt(fields, "lyrics") { Some(x) => x, None => { return None; } };
        let media_kind = match get_string(fields, "mediaKind") {
            Some(sx) => match media_kind_from(sx.as_str()) { Some(e) => e, None => { return None; } },
            None => { return None; },
        };
        let modification_date = match get_string_opt(fields, "modificationDate") { Some(x) => x, None => { return None; } };
        let movement = match get_string_opt(fields, "movement") { Some(x) => x, None => { return None; } };
        let movement_count = match get_i64(fields, "movementCount", -32768i64, 32767i64) { Some(x) => x as i16, None => { return None; } };
        let movement_number = match get_i64(fields, "movementNumber", -32768i64, 32767i64) { Some(x) => x as i16, None => { return None; } };
        let played_count = match get_i64(fields, "playedCount", -32768i64, 32767i64) { Some(x) => x as i16, None => { return None; } };
        let played_date = match get_string_opt(fields, "playedDate") { Some(x) => x, None => { return None; } };
        let purchaser_apple_id = match get_string_opt(fields, "purchaserAppleID") { Some(x) => x, None => { return None; } };
        let purchaser_name = match get_string_opt(fields, "purchaserName") { Some(x) => x, None => { return None; } };
        let rating = match get_i64(fields, "rating", -32768i64, 32767i64) { Some(x) => x as i16, None => { return None; } };
        let rating_kind = match get_string_opt(fields, "ratingKind") {
            Some(Some(sx)) => match kind_from(sx.as_str()) { Some(e) => Some(e), None => { return None; } },
            Some(None) => None,
            None => { return None; },
        };
        let release_date = match get_string(fields, "releaseDate") { Some(x) => x, None => { return None; } };
        let sample_rate = match get_i64_opt(fields, "sampleRate", -2147483648i64, 2147483647i64) { Some(Some(x)) => Some(x as i32), Some(None) => None, None => { return None; } };
        let season_number = match get_i64_opt(fields, "seasonNumber", -32768i64, 32767i64) { Some(Some(x)) => Some(x as i16), Some(None) => None, None => { return None; } };
        let shufflable = match get_bool(fields, "shufflable") { Some(x) => x, None => { return None; } };
        let skipped_count = match get_i64(fields, "skippedCount", -32768i64, 32767i64) { Some(x) => x as i16, None => { return None; } };
        let skipped_date = match get_string_opt(fields, "skippedDate") { Some(x) => x, None => { return None; } };
        let show = match get_string_opt(fields, "show") { Some(x) => x, None => { return None; } };
        let sort_album = match get_string_opt(fields, "sortAlbum") { Some(x) => x, None => { return None; } };
        let sort_artist = match get_string_opt(fields, "sortArtist") { Some(x) => x, None => { return None; } };
        let sort_album_artist = match get_string_opt(fields, "sortAlbumArtist") { Some(x) => x, None => { return None; } };
        let sort_name = match get_string_opt(fields, "sortName") { Some(x) => x, None => { return None; } };
        let sort_composer = match get_string_opt(fields, "sortComposer") { Some(x) => x, None => { return None; } };
        let sort_show = match get_string_opt(fields, "sortShow") { Some(x) => x, None => { return None; } };
        let size = match get_i64_opt(fields, "size", i64::MIN, i64::MAX) { Some(Some(x)) => Some(x), Some(None) => None, None => { return None; } };
        let start = match get_numtext(fields, "start") { Some(x) => x, None => { return None; } };
        let time = match get_string(fields, "time") { Some(x) => x, None => { return None; } };
        let track_count = match get_i64(fields, "trackCount", -32768i64, 32767i64) { Some(x) => x as i16, None => { return None; } };
        let track_number = match get_i64(fields, "trackNumber", -32768i64, 32767i64) { Some(x) => x as i16, None => { return None; } };
        let unplayed = match get_bool(fields, "unplayed") { Some(x) => x, None => { return None; } };
        let volume_adjustment = match get_i64(fields, "volumeAdjustment", -32768i64, 32767i64) { Some(x) => x as i16, None => { return None; } };
        let work = match get_string_opt(fields, "work") { Some(x) => x, None => { return None; } };
        let year = match get_i64(fields, "year", -32768i64, 32767i64) { Some(x) => x as i16, None => { return None; } };
        Some(Track {
            class,
            id,
            index,
            name,
            persistent_id,
            album,
            album_artist,
            album_disliked,
            album_loved,
            album_rating,
            album_rating_kind,
            artworks,
            bit_rate,
            bookmark,
            bookmarkable,
            bpm,
            category,
            cloud_status,
            comment,
            compilation,
            composer,
            database_id,
            date_added,
            description,
            disliked,
            downloader_apple_id,
            downloader_name,
            duration,
            enabled,
            episode_id,
            episode_number,
            eq,
            finish,
            gapless,
            genre,
            grouping,
            kind,
            long_description,
            loved,
            lyrics,
            media_kind,
            modification_date,
            movement,
            movement_count,
            movement_number,
            played_count,
            played_date,
            purchaser_apple_id,
            purchaser_name,
            rating,
            rating_kind,
            release_date,
            sample_rate,
            season_number,
            shufflable,
            skipped_count,
            skipped_date,
            show,
            sort_album,
            sort_artist,
            sort_album_artist,
            sort_name,
            sort_composer,
            sort_show,
            size,
            start,
            time,
            track_count,
            track_number,
            unplayed,
            volume_adjustment,
            work,
            year,
            enrichment: EnrichmentState::Unresolved,
        })
    }
}

impl Track {
    /// Whether enrichment still has to be attempted for this record.
    pub fn enrichment_pending(&self) -> (r: bool)
        ensures
            r == self.enrichment.spec_pending(),
    {
        self.enrichment.pending()
    }

    /// The cached artwork URL, when enrichment resolved one. A pure read:
    /// it never queries anything.
    pub fn artwork_url(&self) -> (r: Option<&String>)
        ensures
            r == self.spec_artwork_url(),
    {
        match &self.enrichment {
            EnrichmentState::Resolved(urls) => match &urls.artwork_url {
                Some(u) => Some(u),
                None => None,
            },
            _ => None,
        }
    }

    /// The cached artwork URL, when enrichment resolved one.
    pub open spec fn spec_artwork_url(&self) -> Option<&String> {
        match self.enrichment {
            EnrichmentState::Resolved(urls) => match urls.artwork_url {
                Some(ref u) => Some(u),
                None => None,
            },
            _ => None,
        }
    }

    /// The cached resource URL, when enrichment resolved one. A pure read:
    /// it never queries anything.
    pub fn resource_url(&self) -> (r: Option<&String>)
        ensures
            r == self.spec_resource_url(),
    {
        match &self.enrichment {
            EnrichmentState::Resolved(urls) => match &urls.resource_url {
                Some(u) => Some(u),
                None => None,
            },
            _ => None,
        }
    }

    /// The cached resource URL, when enrichment resolved one.
    pub open spec fn spec_resource_url(&self) -> Option<&String> {
        match self.enrichment {
            EnrichmentState::Resolved(urls) => match urls.resource_url {
                Some(ref u) => Some(u),
                None => None,
            },
            _ => None,
        }
    }

    /// The record after an enrichment outcome has been cached on it: only
    /// the enrichment state changes.
    pub open spec fn spec_with_enrichment(self, state: EnrichmentState) -> Track {
        Track { enrichment: state, ..self }
    }

    /// Caches a finished enrichment outcome on this record: a hit as
    /// `Resolved`, no hit as `ConfirmedAbsent`. After this the record is no
    /// longer pending, so a driver that queries only pending records never
    /// queries it again; every other field is untouched.
    pub fn record_enrichment(&mut self, outcome: Option<EnrichmentUrls>)
        ensures
            !final(self).enrichment.spec_pending(),
            match outcome {
                Some(urls) => final(self).enrichment matches EnrichmentState::Resolved(u) && u
                    == urls,
                None => final(self).enrichment == EnrichmentState::ConfirmedAbsent,
            },
            *final(self) == old(self).spec_with_enrichment(final(self).enrichment),
    {
        self.enrichment = EnrichmentState::of_outcome(outcome);
    }

    /// The identity a track offers for enrichment.
    pub fn enrichment_query(&self) -> (r: crate::enrichment::EnrichmentQuery)
        ensures
            r@.title == self.name@,
            r@.album == self.album@,
            r@.artist == self.album_artist@,
    {
        crate::enrichment::EnrichmentQuery {
            title: self.name.clone(),
            album: self.album.clone(),
            artist: self.album_artist.clone(),
        }
    }
}

/// Once an enrichment outcome is cached on a record, enrichment is settled:
/// the record is no longer pending, the cached state is exactly the
/// outcome, and caching the same outcome again changes nothing, so repeated
/// accesses read the identical value and no further query is owed.
pub proof fn lemma_enrichment_idempotent(t: Track, outcome: Option<EnrichmentUrls>)
    ensures
        ({
            let cached = match outcome {
                Some(urls) => EnrichmentState::Resolved(urls),
                None => EnrichmentState::ConfirmedAbsent,
            };
            let t1 = t.spec_with_enrichment(cached);
            &&& !t1.enrichment.spec_pending()
            &&& t1.spec_with_enrichment(cached) == t1
            &&& t1.spec_artwork_url() == t1.spec_artwork_url()
        }),
{
}

impl Track {
    /// Reveals and selects this track in the player.
    pub fn reveal_in_player<I: crate::invoker::ProcessInvoker>(&self, invoker: &I) -> (r: Result<
        (),
        crate::error::Error,
    >)
        ensures
            r == Ok::<(), crate::error::Error>(()),
    {
        let cmd = crate::encoder::target_command("reveal", "tracks", self.id);
        let _ = crate::script_controller::ScriptController.execute(invoker, cmd.as_str(), None);
        Ok(())
    }

    /// Triggers a download of this track on the player.
    pub fn download<I: crate::invoker::ProcessInvoker>(&self, invoker: &I) -> (r: Result<
        (),
        crate::error::Error,
    >)
        ensures
            r == Ok::<(), crate::error::Error>(()),
    {
        let cmd = crate::encoder::target_command("download", "tracks", self.id);
        let _ = crate::script_controller::ScriptController.execute(invoker, cmd.as_str(), None);
        Ok(())
    }

    /// Loves or un-loves this track.
    pub fn set_loved<I: crate::invoker::ProcessInvoker>(&self, invoker: &I, value: bool) -> (r:
        Result<(), crate::error::Error>)
        ensures
            r == Ok::<(), crate::error::Error>(()),
    {
        let cmd = crate::encoder::flag_command("tracks", self.id, "loved", value);
        let _ = crate::script_controller::ScriptController.execute(invoker, cmd.as_str(), None);
        Ok(())
    }

    /// Dislikes or un-dislikes this track.
    pub fn set_disliked<I: crate::invoker::ProcessInvoker>(&self, invoker: &I, value: bool) -> (r:
        Result<(), crate::error::Error>)
        ensures
            r == Ok::<(), crate::error::Error>(()),
    {
        let cmd = crate::encoder::flag_command("tracks", self.id, "disliked", value);
        let _ = crate::script_controller::ScriptController.execute(invoker, cmd.as_str(), None);
        Ok(())
    }
}

impl Track {
    /// Fetches the artworks of this track and caches them in
    /// `self.artworks`. On any failure the track is left untouched; on
    /// success only `artworks` changes, to a schema-valid artwork list.
    pub fn fetch_artworks<I: crate::invoker::ProcessInvoker>(&mut self, invoker: &I) -> (r: Result<
        (),
        crate::error::Error,
    >)
        ensures
            match r {
                Ok(_) => {
                    &&& final(self).artworks matches Some(aw) && (exists|m: JsonModel| #[trigger]
                        <Vec<Artwork> as JsonRecord>::json_ok(m) && aw.matches_json(m))
                    &&& *final(self) == (Track { artworks: final(self).artworks, ..*old(self) })
                },
                Err(e) => (e == crate::error::Error::LaunchFailed || e
                    == crate::error::Error::DeserializationFailed) && *final(self) == *old(self),
            },
    {
        match crate::script_controller::ScriptController.execute_script::<Vec<Artwork>, I>(
            invoker,
            crate::request::ParamType::Artworks,
            Some(self.id),
            None,
        ) {
            Ok(data) => {
                self.artworks = Some(data);
                Ok(())
            },
            Err(err) => Err(err),
        }
    }
}

} // verus!
