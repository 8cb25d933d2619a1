//! The playlist record, its decoding, and the operations a playlist
//! offers. A playlist may sit inside a folder playlist, so the record and
//! its schema are recursive through the `parent` member.

use vstd::prelude::*;

use crate::error::Error;
use crate::invoker::ProcessInvoker;
use crate::json::JsonModel;
use crate::json::JsonRecord;
use crate::json::JsonValue;
use crate::json::bool_field;
use crate::json::bool_field_ok;
use crate::json::get_bool;
use crate::json::get_bool_opt;
use crate::json::get_i64;
use crate::json::get_i64_opt;
use crate::json::get_numtext_opt;
use crate::json::get_rec_opt;
use crate::json::get_string;
use crate::json::get_string_opt;
use crate::json::int_field;
use crate::json::int_field_ok;
use crate::json::lemma_obj_lookup_decreases;
use crate::json::model_fields;
use crate::json::obj_get_idx;
use crate::json::obj_lookup;
use crate::json::opt_bool_field;
use crate::json::opt_bool_field_ok;
use crate::json::opt_int_field;
use crate::json::opt_int_field_ok;
use crate::json::opt_numtext_field;
use crate::json::opt_numtext_field_ok;
use crate::json::opt_rec_matches;
use crate::json::opt_rec_ok;
use crate::json::opt_str_field;
use crate::json::opt_str_field_ok;
use crate::json::opt_str_matches;
use crate::json::str_field;
use crate::json::str_field_ok;
use crate::text::str_eq;
use crate::track::Track;

verus! {

broadcast use vstd::std_specs::vec::axiom_vec_index_decreases;

/// Kind of special playlist (genius, library, purchases and the like).
#[derive(Clone, Copy, Debug, PartialEq, Eq, Structural)]
pub enum SpecialKind {
    NoSpecial,
    Folder,
    Genius,
    Library,
    Music,
    PurchasedMusic,
}

/// The `SpecialKind` value a tag string denotes, if any.
pub open spec fn special_kind_of(sx: Seq<char>) -> Option<SpecialKind> {
    if sx == "none"@ {
        Some(SpecialKind::NoSpecial)
    } else if sx == "folder"@ {
        Some(SpecialKind::Folder)
    } else if sx == "Genius"@ {
        Some(SpecialKind::Genius)
    } else if sx == "Library"@ {
        Some(SpecialKind::Library)
    } else if sx == "Music"@ {
        Some(SpecialKind::Music)
    } else if sx == "PurchasedMusic"@ {
        Some(SpecialKind::PurchasedMusic)
    } else {
        None
    }
}

/// Reads a `SpecialKind` from its tag string; the executable mirror of
/// [`special_kind_of`].
pub fn special_kind_from(s: &str) -> (r: Option<SpecialKind>)
    ensures
        r == special_kind_of(s@),
{
    if str_eq(s, "none") {
        Some(SpecialKind::NoSpecial)
    } else if str_eq(s, "folder") {
        Some(SpecialKind::Folder)
    } else if str_eq(s, "Genius") {
        Some(SpecialKind::Genius)
    } else if str_eq(s, "Library") {
        Some(SpecialKind::Library)
    } else if str_eq(s, "Music") {
        Some(SpecialKind::Music)
    } else if str_eq(s, "PurchasedMusic") {
        Some(SpecialKind::PurchasedMusic)
    } else {
        None
    }
}

/// Type of playlist (user, subscription, folder or library).
#[derive(Clone, Copy, Debug, PartialEq, Eq, Structural)]
pub enum PlaylistClass {
    LibraryPlaylist,
    UserPlaylist,
    SubscriptionPlaylist,
    FolderPlaylist,
}

/// The `PlaylistClass` value a tag string denotes, if any.
pub open spec fn playlist_class_of(sx: Seq<char>) -> Option<PlaylistClass> {
    if sx == "libraryPlaylist"@ {
        Some(PlaylistClass::LibraryPlaylist)
    } else if sx == "userPlaylist"@ {
        Some(PlaylistClass::UserPlaylist)
    } else if sx == "subscriptionPlaylist"@ {
        Some(PlaylistClass::SubscriptionPlaylist)
    } else if sx == "folderPlaylist"@ {
        Some(PlaylistClass::FolderPlaylist)
    } else {
        None
    }
}

/// Reads a `PlaylistClass` from its tag string; the executable mirror of
/// [`playlist_class_of`].
pub fn playlist_class_from(s: &str) -> (r: Option<PlaylistClass>)
    ensures
        r == playlist_class_of(s@),
{
    if str_eq(s, "libraryPlaylist") {
        Some(PlaylistClass::LibraryPlaylist)
    } else if str_eq(s, "userPlaylist") {
        Some(PlaylistClass::UserPlaylist)
    } else if str_eq(s, "subscriptionPlaylist") {
        Some(PlaylistClass::SubscriptionPlaylist)
    } else if str_eq(s, "folderPlaylist") {
        Some(PlaylistClass::FolderPlaylist)
    } else {
        None
    }
}

/// The data the player reports for one playlist, together with its tracks
/// once they have been fetched.
///
/// The total duration the player reports as a non-integral number is
/// carried as its raw decimal token, unparsed.
pub struct Playlist {
    /// The class of the playlist.
    pub class: PlaylistClass,
    /// The id of the item.
    pub id: i32,
    /// The index of the item in internal application order.
    pub index: i32,
    /// The name of the item.
    pub name: String,
    /// The id of the item as a hexadecimal string; it does not change over
    /// time.
    pub persistent_id: String,
    /// The description of the playlist.
    pub description: Option<String>,
    /// Is this playlist disliked?
    pub disliked: bool,
    /// The total length of all tracks in seconds, as the raw decimal token.
    pub duration: Option<String>,
    /// Is this playlist favorited?
    pub favorited: bool,
    /// The folder which contains this playlist, if any.
    pub parent: Option<Box<Playlist>>,
    /// The total size of all tracks (in bytes).
    pub size: Option<i64>,
    /// Special playlist kind.
    pub special_kind: Option<SpecialKind>,
    /// The length of all tracks in MM:SS format.
    pub time: Option<String>,
    /// The playlist's tracks, once fetched.
    pub tracks: Option<Vec<Track>>,
    /// Is this playlist visible in the source list?
    pub visible: Option<bool>,
}

/// The JSON values that decode into a [`Playlist`]; recursive through the
/// `parent` member.
pub open spec fn playlist_json_ok(v: JsonModel) -> bool
    decreases v,
    via playlist_json_ok_dec
{
    &&& v matches JsonModel::Obj(o)
    &&& str_field_ok(o, "class"@) && playlist_class_of(str_field(o, "class"@)) is Some
    &&& int_field_ok(o, "id"@, -2147483648, 2147483647)
    &&& int_field_ok(o, "index"@, -2147483648, 2147483647)
    &&& str_field_ok(o, "name"@)
    &&& str_field_ok(o, "persistentID"@)
    &&& opt_str_field_ok(o, "description"@)
    &&& bool_field_ok(o, "disliked"@)
    &&& opt_numtext_field_ok(o, "duration"@)
    &&& bool_field_ok(o, "favorited"@)
    &&& (match obj_lookup(o, "parent"@) {
        None => true,
        Some(JsonModel::Null) => true,
        Some(pm) => playlist_json_ok(pm),
    })
    &&& opt_int_field_ok(o, "size"@, i64::MIN as int, i64::MAX as int)
    &&& opt_str_field_ok(o, "specialKind"@) && (opt_str_field(o, "specialKind"@) matches Some(sx)
        ==> special_kind_of(sx) is Some)
    &&& opt_str_field_ok(o, "time"@)
    &&& opt_rec_ok::<Vec<Track>>(o, "tracks"@)
    &&& opt_bool_field_ok(o, "visible"@)
}

#[via_fn]
proof fn playlist_json_ok_dec(v: JsonModel) {
    if v is Obj {
        let o = v->Obj_0;
        if obj_lookup(o, "parent"@) is Some {
            lemma_obj_lookup_decreases(o, "parent"@);
        }
    }
}

/// The playlist holds exactly the data of the JSON value; recursive
/// through the `parent` member.
pub open spec fn playlist_matches_json(p: Playlist, v: JsonModel) -> bool
    decreases v,
    via playlist_matches_json_dec
{
    &&& v matches JsonModel::Obj(o)
    &&& Some(p.class) == playlist_class_of(str_field(o, "class"@))
    &&& p.id as int == int_field(o, "id"@)
    &&& p.index as int == int_field(o, "index"@)
    &&& p.name@ == str_field(o, "name"@)
    &&& p.persistent_id@ == str_field(o, "persistentID"@)
    &&& opt_str_matches(p.description, opt_str_field(o, "description"@))
    &&& p.disliked == bool_field(o, "disliked"@)
    &&& (match p.duration {
        Some(t) => opt_numtext_field(o, "duration"@) == Some(t@),
        None => opt_numtext_field(o, "duration"@) is None,
    })
    &&& p.favorited == bool_field(o, "favorited"@)
    &&& (match obj_lookup(o, "parent"@) {
        None => p.parent is None,
        Some(JsonModel::Null) => p.parent is None,
        Some(pm) => p.parent matches Some(bp) && playlist_matches_json(*bp, pm),
    })
    &&& (match p.size {
        Some(n) => opt_int_field(o, "size"@) == Some(n as int),
        None => opt_int_field(o, "size"@) is None,
    })
    &&& (match opt_str_field(o, "specialKind"@) {
        None => p.special_kind is None,
        Some(sx) => p.special_kind matches Some(e) && special_kind_of(sx) == Some(e),
    })
    &&& opt_str_matches(p.time, opt_str_field(o, "time"@))
    &&& opt_rec_matches(p.tracks, o, "tracks"@)
    &&& (match p.visible {
        Some(b) => opt_bool_field(o, "visible"@) == Some(b),
        None => opt_bool_field(o, "visible"@) is None,
    })
}

#[via_fn]
proof fn playlist_matches_json_dec(p: Playlist, v: JsonModel) {
    if v is Obj {
        let o = v->Obj_0;
        if obj_lookup(o, "parent"@) is Some {
            lemma_obj_lookup_decreases(o, "parent"@);
        }
    }
}

/// Decodes a playlist; succeeds exactly on the values
/// [`playlist_json_ok`] admits, recursing into the `parent` member.
#[verifier::rlimit(60)]
pub fn playlist_from_json(v: &JsonValue) -> (r: Option<Playlist>)
    ensures
        match r {
            Some(p) => playlist_json_ok(v@) && playlist_matches_json(p, v@),
            None => !playlist_json_ok(v@),
        },
    decreases v,
{
    let fields = match v {
        JsonValue::Obj(fields) => fields,
        _ => {
            return None;
        },
    };
    proof {
        assert(v@->Obj_0 =~~= model_fields(fields@));
    }
    let class = match get_string(fields, "class") {
        Some(sx) => match playlist_class_from(sx.as_str()) {
            Some(e) => e,
            None => {
                return None;
            },
        },
        None => {
            return None;
        },
    };
    let id = match get_i64(fields, "id", -2147483648i64, 2147483647i64) {
        Some(x) => x as i32,
        None => {
            return None;
        },
    };
    let index = match get_i64(fields, "index", -2147483648i64, 2147483647i64) {
        Some(x) => x as i32,
        None => {
            return None;
        },
    };
    let name = match get_string(fields, "name") {
        Some(x) => x,
        None => {
            return None;
        },
    };
    let persistent_id = match get_string(fields, "persistentID") {
        Some(x) => x,
        None => {
            return None;
        },
    };
    let description = match get_string_opt(fields, "description") {
        Some(x) => x,
        None => {
            return None;
        },
    };
    let disliked = match get_bool(fields, "disliked") {
        Some(x) => x,
        None => {
            return None;
        },
    };
    let duration = match get_numtext_opt(fields, "duration") {
        Some(x) => x,
        None => {
            return None;
        },
    };
    let favorited = match get_bool(fields, "favorited") {
        Some(x) => x,
        None => {
            return None;
        },
    };
    let parent: Option<Box<Playlist>> = match obj_get_idx(fields, "parent") {
        None => None,
        Some(i) => {
            let pv = &fields[i].1;
            match pv {
                JsonValue::Null => None,
                _ => {
                    proof {
                        assert(decreases_to!(fields => fields[i as int]));
                        assert(decreases_to!(fields[i as int] => fields[i as int].1));
                    }
                    match playlist_from_json(pv) {
                        Some(p) => Some(Box::new(p)),
                        None => {
                            return None;
                        },
                    }
                },
            }
        },
    };
    let size = match get_i64_opt(fields, "size", i64::MIN, i64::MAX) {
        Some(Some(x)) => Some(x),
        Some(None) => None,
        None => {
            return None;
        },
    };
    let special_kind = match get_string_opt(fields, "specialKind") {
        Some(Some(sx)) => match special_kind_from(sx.as_str()) {
            Some(e) => Some(e),
            None => {
                return None;
            },
        },
        Some(None) => None,
        None => {
            return None;
        },
    };
    let time = match get_string_opt(fields, "time") {
        Some(x) => x,
        None => {
            return None;
        },
    };
    let tracks = match get_rec_opt::<Vec<Track>>(fields, "tracks") {
        Some(x) => x,
        None => {
            return None;
        },
    };
    let visible = match get_bool_opt(fields, "visible") {
        Some(x) => x,
        None => {
            return None;
        },
    };
    Some(
        Playlist {
            class,
            id,
            index,
            name,
            persistent_id,
            description,
            disliked,
            duration,
            favorited,
            parent,
            size,
            special_kind,
            time,
            tracks,
            visible,
        },
    )
}

impl JsonRecord for Playlist {
    open spec fn json_ok(v: JsonModel) -> bool {
        playlist_json_ok(v)
    }

    open spec fn matches_json(self, v: JsonModel) -> bool {
        playlist_matches_json(self, v)
    }

    fn from_json(v: &JsonValue) -> (r: Option<Playlist>) {
        playlist_from_json(v)
    }
}

impl Playlist {
    /// Fetches the tracks of this playlist and caches them in
    /// `self.tracks`. On any failure the playlist is left untouched; on
    /// success only `tracks` changes, to a schema-valid track list.
    pub fn fetch_playlist_tracks<I: ProcessInvoker>(&mut self, invoker: &I) -> (r: Result<
        (),
        Error,
    >)
        ensures
            match r {
                Ok(_) => {
                    &&& final(self).tracks matches Some(ts) && (exists|m: JsonModel| #[trigger]
                        <Vec<Track> as JsonRecord>::json_ok(m) && ts.matches_json(m))
                    &&& *final(self) == (Playlist { tracks: final(self).tracks, ..*old(self) })
                },
                Err(e) => (e == Error::LaunchFailed || e == Error::DeserializationFailed)
                    && *final(self) == *old(self),
            },
    {
        match crate::script_controller::ScriptController.execute_script::<Vec<Track>, I>(
            invoker,
            crate::request::ParamType::PlaylistTracks,
            Some(self.id),
            None,
        ) {
            Ok(data) => {
                self.tracks = Some(data);
                Ok(())
            },
            Err(err) => Err(err),
        }
    }

    /// Searches inside this playlist for tracks matching the provided
    /// query and returns them. A success is always a present, schema-valid
    /// track list.
    pub fn search_for_tracks<I: ProcessInvoker>(&self, invoker: &I, query: &str) -> (r: Result<
        Option<Vec<Track>>,
        Error,
    >)
        ensures
            match r {
                Ok(found) => found matches Some(ts) && (exists|m: JsonModel| #[trigger]
                    <Vec<Track> as JsonRecord>::json_ok(m) && ts.matches_json(m)),
                Err(e) => e == Error::LaunchFailed || e == Error::DeserializationFailed,
            },
    {
        match crate::script_controller::ScriptController.execute_script::<Vec<Track>, I>(
            invoker,
            crate::request::ParamType::SearchInPlaylist,
            Some(self.id),
            Some(query),
        ) {
            Ok(data) => Ok(Some(data)),
            Err(err) => Err(err),
        }
    }

    /// Reveals and selects this playlist in the player.
    pub fn reveal_in_player<I: ProcessInvoker>(&self, invoker: &I) -> (r: Result<(), Error>)
        ensures
            r == Ok::<(), Error>(()),
    {
        let cmd = crate::encoder::target_command("reveal", "playlists", self.id);
        let _ = crate::script_controller::ScriptController.execute(invoker, cmd.as_str(), None);
        Ok(())
    }

    /// Triggers a download of this playlist on the player.
    pub fn download<I: ProcessInvoker>(&self, invoker: &I) -> (r: Result<(), Error>)
        ensures
            r == Ok::<(), Error>(()),
    {
        let cmd = crate::encoder::target_command("download", "playlists", self.id);
        let _ = crate::script_controller::ScriptController.execute(invoker, cmd.as_str(), None);
        Ok(())
    }
}

} // verus!
