//! The application-state record and its companions, decoded from the
//! interpreter's JSON output.

use vstd::prelude::*;

use crate::json::JsonModel;
use crate::json::JsonRecord;
use crate::json::JsonValue;
use crate::json::bool_field;
use crate::json::bool_field_ok;
use crate::json::get_bool;
use crate::json::get_bool_opt;
use crate::json::get_i64;
use crate::json::get_i64_opt;
use crate::json::get_numtext;
use crate::json::get_numtext_opt;
use crate::json::get_rec;
use crate::json::get_rec_opt;
use crate::json::get_string;
use crate::json::get_string_opt;
use crate::json::int_field;
use crate::json::int_field_ok;
use crate::json::model_fields;
use crate::json::numtext_field;
use crate::json::numtext_field_ok;
use crate::json::opt_bool_field;
use crate::json::opt_bool_field_ok;
use crate::json::opt_int_field;
use crate::json::opt_int_field_ok;
use crate::json::opt_numtext_field;
use crate::json::opt_numtext_field_ok;
use crate::json::opt_rec_matches;
use crate::json::opt_rec_ok;
use crate::json::opt_str_field;
use crate::json::opt_str_field_ok;
use crate::json::opt_str_matches;
use crate::json::rec_field_matches;
use crate::json::rec_field_ok;
use crate::json::str_field;
use crate::json::str_field_ok;
use crate::playlist::Playlist;
use crate::text::str_eq;
use crate::track::Track;

verus! {

/// Current state of the player.
#[derive(Clone, Copy, Debug, PartialEq, Eq, Structural)]
pub enum PlayerState {
    Stopped,
    Playing,
    Paused,
    FastForwarding,
    Rewinding,
}

/// The `PlayerState` value a tag string denotes, if any.
pub open spec fn player_state_of(sx: Seq<char>) -> Option<PlayerState> {
    if sx == "stopped"@ {
        Some(PlayerState::Stopped)
    } else if sx == "playing"@ {
        Some(PlayerState::Playing)
    } else if sx == "paused"@ {
        Some(PlayerState::Paused)
    } else if sx == "fastforwarding"@ {
        Some(PlayerState::FastForwarding)
    } else if sx == "rewinding"@ {
        Some(PlayerState::Rewinding)
    } else {
        None
    }
}

/// Reads a `PlayerState` from its tag string; the executable mirror of
/// [`player_state_of`].
pub fn player_state_from(s: &str) -> (r: Option<PlayerState>)
    ensures
        r == player_state_of(s@),
{
    if str_eq(s, "stopped") {
        Some(PlayerState::Stopped)
    } else if str_eq(s, "playing") {
        Some(PlayerState::Playing)
    } else if str_eq(s, "paused") {
        Some(PlayerState::Paused)
    } else if str_eq(s, "fastforwarding") {
        Some(PlayerState::FastForwarding)
    } else if str_eq(s, "rewinding") {
        Some(PlayerState::Rewinding)
    } else {
        None
    }
}

/// Type of shuffle (songs, albums or groupings).
#[derive(Clone, Copy, Debug, PartialEq, Eq, Structural)]
pub enum ShuffleMode {
    Songs,
    Albums,
    Groupings,
}

/// The `ShuffleMode` value a tag string denotes, if any.
pub open spec fn shuffle_mode_of(sx: Seq<char>) -> Option<ShuffleMode> {
    if sx == "songs"@ {
        Some(ShuffleMode::Songs)
    } else if sx == "albums"@ {
        Some(ShuffleMode::Albums)
    } else if sx == "groupings"@ {
        Some(ShuffleMode::Groupings)
    } else {
        None
    }
}

/// Reads a `ShuffleMode` from its tag string; the executable mirror of
/// [`shuffle_mode_of`].
pub fn shuffle_mode_from(s: &str) -> (r: Option<ShuffleMode>)
    ensures
        r == shuffle_mode_of(s@),
{
    if str_eq(s, "songs") {
        Some(ShuffleMode::Songs)
    } else if str_eq(s, "albums") {
        Some(ShuffleMode::Albums)
    } else if str_eq(s, "groupings") {
        Some(ShuffleMode::Groupings)
    } else {
        None
    }
}

/// Type of song repeat (off, one or all).
#[derive(Clone, Copy, Debug, PartialEq, Eq, Structural)]
pub enum SongRepeat {
    Off,
    One,
    All,
}

/// The `SongRepeat` value a tag string denotes, if any.
pub open spec fn song_repeat_of(sx: Seq<char>) -> Option<SongRepeat> {
    if sx == "off"@ {
        Some(SongRepeat::Off)
    } else if sx == "one"@ {
        Some(SongRepeat::One)
    } else if sx == "all"@ {
        Some(SongRepeat::All)
    } else {
        None
    }
}

/// Reads a `SongRepeat` from its tag string; the executable mirror of
/// [`song_repeat_of`].
pub fn song_repeat_from(s: &str) -> (r: Option<SongRepeat>)
    ensures
        r == song_repeat_of(s@),
{
    if str_eq(s, "off") {
        Some(SongRepeat::Off)
    } else if str_eq(s, "one") {
        Some(SongRepeat::One)
    } else if str_eq(s, "all") {
        Some(SongRepeat::All)
    } else {
        None
    }
}

/// Type of AirPlay device (a computer, an Apple TV, a HomePod and the like).
#[derive(Clone, Copy, Debug, PartialEq, Eq, Structural)]
pub enum AirplayDeviceKind {
    Computer,
    AirportExpress,
    AppleTV,
    AirplayDevice,
    BluetoothDevice,
    HomePod,
    Unknown,
}

/// The `AirplayDeviceKind` value a tag string denotes, if any.
pub open spec fn airplay_device_kind_of(sx: Seq<char>) -> Option<AirplayDeviceKind> {
    if sx == "computer"@ {
        Some(AirplayDeviceKind::Computer)
    } else if sx == "airportexpress"@ {
        Some(AirplayDeviceKind::AirportExpress)
    } else if sx == "appletv"@ {
        Some(AirplayDeviceKind::AppleTV)
    } else if sx == "airplaydevice"@ {
        Some(AirplayDeviceKind::AirplayDevice)
    } else if sx == "bluetoothdevice"@ {
        Some(AirplayDeviceKind::BluetoothDevice)
    } else if sx == "homepod"@ {
        Some(AirplayDeviceKind::HomePod)
    } else if sx == "unknown"@ {
        Some(AirplayDeviceKind::Unknown)
    } else {
        None
    }
}

/// Reads a `AirplayDeviceKind` from its tag string; the executable mirror of
/// [`airplay_device_kind_of`].
pub fn airplay_device_kind_from(s: &str) -> (r: Option<AirplayDeviceKind>)
    ensures
        r == airplay_device_kind_of(s@),
{
    if str_eq(s, "computer") {
        Some(AirplayDeviceKind::Computer)
    } else if str_eq(s, "airportexpress") {
        Some(AirplayDeviceKind::AirportExpress)
    } else if str_eq(s, "appletv") {
        Some(AirplayDeviceKind::AppleTV)
    } else if str_eq(s, "airplaydevice") {
        Some(AirplayDeviceKind::AirplayDevice)
    } else if str_eq(s, "bluetoothdevice") {
        Some(AirplayDeviceKind::BluetoothDevice)
    } else if str_eq(s, "homepod") {
        Some(AirplayDeviceKind::HomePod)
    } else if str_eq(s, "unknown") {
        Some(AirplayDeviceKind::Unknown)
    } else {
        None
    }
}

/// Information about one device connected over AirPlay.
pub struct AirplayDevice {
    /// The class of the item.
    pub class: String,
    /// The id of the item.
    pub id: i32,
    /// The index of the item in internal application order.
    pub index: i32,
    /// The name of the item.
    pub name: String,
    /// The id of the item as a hexadecimal string; it does not change over time.
    pub persistent_id: String,
    /// Is the device currently being played to?
    pub active: Option<bool>,
    /// Is the device currently available?
    pub available: Option<bool>,
    /// The kind of the device.
    pub kind: AirplayDeviceKind,
    /// The network (MAC) address of the device.
    pub network_address: Option<String>,
    /// Is the device password- or passcode-protected?
    pub protected: Option<bool>,
    /// Is the device currently selected?
    pub selected: bool,
    /// Does the device support audio playback?
    pub supports_audio: Option<bool>,
    /// Does the device support video playback?
    pub supports_video: Option<bool>,
    /// The output volume for the device (0 minimum, 100 maximum).
    pub sound_volume: i8,
}

impl JsonRecord for AirplayDevice {
    open spec fn json_ok(v: JsonModel) -> bool {
        &&& v matches JsonModel::Obj(o)
        &&& str_field_ok(o, "class"@)
        &&& int_field_ok(o, "id"@, -2147483648, 2147483647)
        &&& int_field_ok(o, "index"@, -2147483648, 2147483647)
        &&& str_field_ok(o, "name"@)
        &&& str_field_ok(o, "persistentID"@)
        &&& opt_bool_field_ok(o, "active"@)
        &&& opt_bool_field_ok(o, "available"@)
        &&& str_field_ok(o, "kind"@) && airplay_device_kind_of(str_field(o, "kind"@)) is Some
        &&& opt_str_field_ok(o, "networkAddress"@)
        &&& opt_bool_field_ok(o, "protected"@)
        &&& bool_field_ok(o, "selected"@)
        &&& opt_bool_field_ok(o, "supportsAudio"@)
        &&& opt_bool_field_ok(o, "supportsVideo"@)
        &&& int_field_ok(o, "soundVolume"@, -128, 127)
    }

    open spec fn matches_json(self, v: JsonModel) -> bool {
        &&& v matches JsonModel::Obj(o)
        &&& self.class@ == str_field(o, "class"@)
        &&& self.id as int == int_field(o, "id"@)
        &&& self.index as int == int_field(o, "index"@)
        &&& self.name@ == str_field(o, "name"@)
        &&& self.persistent_id@ == str_field(o, "persistentID"@)
        &&& (match self.active { Some(b) => opt_bool_field(o, "active"@) == Some(b), None => opt_bool_field(o, "active"@) is None })
        &&& (match self.available { Some(b) => opt_bool_field(o, "available"@) == Some(b), None => opt_bool_field(o, "available"@) is None })
        &&& Some(self.kind) == airplay_device_kind_of(str_field(o, "kind"@))
        &&& opt_str_matches(self.network_address, opt_str_field(o, "networkAddress"@))
        &&& (match self.protected { Some(b) => opt_bool_field(o, "protected"@) == Some(b), None => opt_bool_field(o, "protected"@) is None })
        &&& self.selected == bool_field(o, "selected"@)
        &&& (match self.supports_audio { Some(b) => opt_bool_field(o, "supportsAudio"@) == Some(b), None => opt_bool_field(o, "supportsAudio"@) is None })
        &&& (match self.supports_video { Some(b) => opt_bool_field(o, "supportsVideo"@) == Some(b), None => opt_bool_field(o, "supportsVideo"@) is None })
        &&& self.sound_volume as int == int_field(o, "soundVolume"@)
    }

    #[verifier::rlimit(100)]
    #[verifier::spinoff_prover]
    fn from_json(v: &JsonValue) -> (r: Option<AirplayDevice>) {
        let fields = match v {
            JsonValue::Obj(fields) => fields,
            _ => {
                return None;
            },
        };
        proof {
            assert(v@->Obj_0 =~~= model_fields(fields@));
        }
        let class = match get_string(fields, "class") { Some(x) => x, None => { return None; } };
        let id = match get_i64(fields, "id", -2147483648i64, 2147483647i64) { Some(x) => x as i32, None => { return None; } };
        let index = match get_i64(fields, "index", -2147483648i64, 2147483647i64) { Some(x) => x as i32, None => { return None; } };
        let name = match get_string(fields, "name") { Some(x) => x, None => { return None; } };
        let persistent_id = match get_string(fields, "persistentID") { Some(x) => x, None => { return None; } };
        let active = match get_bool_opt(fields, "active") { Some(x) => x, None => { return None; } };
        let available = match get_bool_opt(fields, "available") { Some(x) => x, None => { return None; } };
        let kind = match get_string(fields, "kind") {
            Some(sx) => match airplay_device_kind_from(sx.as_str()) { Some(e) => e, None => { return None; } },
            None => { return None; },
        };
        let network_address = match get_string_opt(fields, "networkAddress") { Some(x) => x, None => { return None; } };
        let protected = match get_bool_opt(fields, "protected") { Some(x) => x, None => { return None; } };
        let selected = match get_bool(fields, "selected") { Some(x) => x, None => { return None; } };
        let supports_audio = match get_bool_opt(fields, "supportsAudio") { Some(x) => x, None => { return None; } };
        let supports_video = match get_bool_opt(fields, "supportsVideo") { Some(x) => x, None => { return None; } };
        let sound_volume = match get_i64(fields, "soundVolume", -128i64, 127i64) { Some(x) => x as i8, None => { return None; } };
        Some(AirplayDevice {
            class,
            id,
            index,
            name,
            persistent_id,
            active,
            available,
            kind,
            network_address,
            protected,
            selected,
            supports_audio,
            supports_video,
            sound_volume,
        })
    }
}

/// Information about one encoder.
pub struct Encoder {
    /// The class of the item.
    pub class: String,
    /// The id of the item.
    pub id: i32,
    /// The index of the item in internal application order.
    pub index: i32,
    /// The name of the item.
    pub name: String,
    /// The data format created by the encoder.
    pub format: Option<String>,
}

impl JsonRecord for Encoder {
    open spec fn json_ok(v: JsonModel) -> bool {
        &&& v matches JsonModel::Obj(o)
        &&& str_field_ok(o, "class"@)
        &&& int_field_ok(o, "id"@, -2147483648, 2147483647)
        &&& int_field_ok(o, "index"@, -2147483648, 2147483647)
        &&& str_field_ok(o, "name"@)
        &&& opt_str_field_ok(o, "format"@)
    }

    open spec fn matches_json(self, v: JsonModel) -> bool {
        &&& v matches JsonModel::Obj(o)
        &&& self.class@ == str_field(o, "class"@)
        &&& self.id as int == int_field(o, "id"@)
        &&& self.index as int == int_field(o, "index"@)
        &&& self.name@ == str_field(o, "name"@)
        &&& opt_str_matches(self.format, opt_str_field(o, "format"@))
    }

    #[verifier::rlimit(100)]
    #[verifier::spinoff_prover]
    fn from_json(v: &JsonValue) -> (r: Option<Encoder>) {
        let fields = match v {
            JsonValue::Obj(fields) => fields,
            _ => {
                return None;
            },
        };
        proof {
            assert(v@->Obj_0 =~~= model_fields(fields@));
        }
        let class = match get_string(fields, "class") { Some(x) => x, None => { return None; } };
        let id = match get_i64(fields, "id", -2147483648i64, 2147483647i64) { Some(x) => x as i32, None => { return None; } };
        let index = match get_i64(fields, "index", -2147483648i64, 2147483647i64) { Some(x) => x as i32, None => { return None; } };
        let name = match get_string(fields, "name") { Some(x) => x, None => { return None; } };
        let format = match get_string_opt(fields, "format") { Some(x) => x, None => { return None; } };
        Some(Encoder {
            class,
            id,
            index,
            name,
            format,
        })
    }
}

/// Information about one equalizer preset. The band levels the player
/// reports as non-integral numbers are carried as their raw decimal
/// tokens, unparsed.
pub struct EqPreset {
    /// The class of the item.
    pub class: String,
    /// The id of the item.
    pub id: i32,
    /// The index of the item in internal application order.
    pub index: i32,
    /// The name of the item.
    pub name: String,
    /// The equalizer band level, as the raw decimal token.
    pub band1: String,
    /// The equalizer band level, as the raw decimal token.
    pub band2: String,
    /// The equalizer band level, as the raw decimal token.
    pub band3: String,
    /// The equalizer band level, as the raw decimal token.
    pub band4: String,
    /// The equalizer band level, as the raw decimal token.
    pub band5: String,
    /// The equalizer band level, as the raw decimal token.
    pub band6: String,
    /// The equalizer band level, as the raw decimal token.
    pub band7: String,
    /// The equalizer band level, as the raw decimal token.
    pub band8: String,
    /// The equalizer band level, as the raw decimal token.
    pub band9: String,
    /// The equalizer band level, as the raw decimal token.
    pub band10: String,
    /// Can this preset be modified?
    pub modifiable: Option<bool>,
    /// The equalizer preamp level, as the raw decimal token.
    pub preamp: String,
    /// Should tracks which refer to this preset be updated when the preset is renamed or deleted?
    pub update_tracks: bool,
}

impl JsonRecord for EqPreset {
    open spec fn json_ok(v: JsonModel) -> bool {
        &&& v matches JsonModel::Obj(o)
        &&& str_field_ok(o, "class"@)
        &&& int_field_ok(o, "id"@, -2147483648, 2147483647)
        &&& int_field_ok(o, "index"@, -2147483648, 2147483647)
        &&& str_field_ok(o, "name"@)
        &&& numtext_field_ok(o, "band1"@)
        &&& numtext_field_ok(o, "band2"@)
        &&& numtext_field_ok(o, "band3"@)
        &&& numtext_field_ok(o, "band4"@)
        &&& numtext_field_ok(o, "band5"@)
        &&& numtext_field_ok(o, "band6"@)
        &&& numtext_field_ok(o, "band7"@)
        &&& numtext_field_ok(o, "band8"@)
        &&& numtext_field_ok(o, "band9"@)
        &&& numtext_field_ok(o, "band10"@)
        &&& opt_bool_field_ok(o, "modifiable"@)
        &&& numtext_field_ok(o, "preamp"@)
        &&& bool_field_ok(o, "update_tracks"@)
    }

    open spec fn matches_json(self, v: JsonModel) -> bool {
        &&& v matches JsonModel::Obj(o)
        &&& self.class@ == str_field(o, "class"@)
        &&& self.id as int == int_field(o, "id"@)
        &&& self.index as int == int_field(o, "index"@)
        &&& self.name@ == str_field(o, "name"@)
        &&& self.band1@ == numtext_field(o, "band1"@)
        &&& self.band2@ == numtext_field(o, "band2"@)
        &&& self.band3@ == numtext_field(o, "band3"@)
        &&& self.band4@ == numtext_field(o, "band4"@)
        &&& self.band5@ == numtext_field(o, "band5"@)
        &&& self.band6@ == numtext_field(o, "band6"@)
        &&& self.band7@ == numtext_field(o, "band7"@)
        &&& self.band8@ == numtext_field(o, "band8"@)
        &&& self.band9@ == numtext_field(o, "band9"@)
        &&& self.band10@ == numtext_field(o, "band10"@)
        &&& (match self.modifiable { Some(b) => opt_bool_field(o, "modifiable"@) == Some(b), None => opt_bool_field(o, "modifiable"@) is None })
        &&& self.preamp@ == numtext_field(o, "preamp"@)
        &&& self.update_tracks == bool_field(o, "update_tracks"@)
    }

    #[verifier::rlimit(100)]
    #[verifier::spinoff_prover]
    fn from_json(v: &JsonValue) -> (r: Option<EqPreset>) {
        let fields = match v {
            JsonValue::Obj(fields) => fields,
            _ => {
                return None;
            },
        };
        proof {
            assert(v@->Obj_0 =~~= model_fields(fields@));
        }
        let class = match get_string(fields, "class") { Some(x) => x, None => { return None; } };
        let id = match get_i64(fields, "id", -2147483648i64, 2147483647i64) { Some(x) => x as i32, None => { return None; } };
        let index = match get_i64(fields, "index", -2147483648i64, 2147483647i64) { Some(x) => x as i32, None => { return None; } };
        let name = match get_string(fields, "name") { Some(x) => x, None => { return None; } };
        let band1 = match get_numtext(fields, "band1") { Some(x) => x, None => { return None; } };
        let band2 = match get_numtext(fields, "band2") { Some(x) => x, None => { return None; } };
        let band3 = match get_numtext(fields, "band3") { Some(x) => x, None => { return None; } };
        let band4 = match get_numtext(fields, "band4") { Some(x) => x, None => { return None; } };
        let band5 = match get_numtext(fields, "band5") { Some(x) => x, None => { return None; } };
        let band6 = match get_numtext(fields, "band6") { Some(x) => x, None => { return None; } };
        let band7 = match get_numtext(fields, "band7") { Some(x) => x, None => { return None; } };
        let band8 = match get_numtext(fields, "band8") { Some(x) => x, None => { return None; } };
        let band9 = match get_numtext(fields, "band9") { Some(x) => x, None => { return None; } };
        let band10 = match get_numtext(fields, "band10") { Some(x) => x, None => { return None; } };
        let modifiable = match get_bool_opt(fields, "modifiable") { Some(x) => x, None => { return None; } };
        let preamp = match get_numtext(fields, "preamp") { Some(x) => x, None => { return None; } };
        let update_tracks = match get_bool(fields, "update_tracks") { Some(x) => x, None => { return None; } };
        Some(EqPreset {
            class,
            id,
            index,
            name,
            band1,
            band2,
            band3,
            band4,
            band5,
            band6,
            band7,
            band8,
            band9,
            band10,
            modifiable,
            preamp,
            update_tracks,
        })
    }
}

/// Information about one visual plug-in.
pub struct Visual {
    /// The class of the item.
    pub class: String,
    /// The id of the item.
    pub id: i32,
    /// The index of the item in internal application order.
    pub index: i32,
    /// The name of the item.
    pub name: String,
}

impl JsonRecord for Visual {
    open spec fn json_ok(v: JsonModel) -> bool {
        &&& v matches JsonModel::Obj(o)
        &&& str_field_ok(o, "class"@)
        &&& int_field_ok(o, "id"@, -2147483648, 2147483647)
        &&& int_field_ok(o, "index"@, -2147483648, 2147483647)
        &&& str_field_ok(o, "name"@)
    }

    open spec fn matches_json(self, v: JsonModel) -> bool {
        &&& v matches JsonModel::Obj(o)
        &&& self.class@ == str_field(o, "class"@)
        &&& self.id as int == int_field(o, "id"@)
        &&& self.index as int == int_field(o, "index"@)
        &&& self.name@ == str_field(o, "name"@)
    }

    #[verifier::rlimit(100)]
    #[verifier::spinoff_prover]
    fn from_json(v: &JsonValue) -> (r: Option<Visual>) {
        let fields = match v {
            JsonValue::Obj(fields) => fields,
            _ => {
                return None;
            },
        };
        proof {
            assert(v@->Obj_0 =~~= model_fields(fields@));
        }
        let class = match get_string(fields, "class") { Some(x) => x, None => { return None; } };
        let id = match get_i64(fields, "id", -2147483648i64, 2147483647i64) { Some(x) => x as i32, None => { return None; } };
        let index = match get_i64(fields, "index", -2147483648i64, 2147483647i64) { Some(x) => x as i32, None => { return None; } };
        let name = match get_string(fields, "name") { Some(x) => x, None => { return None; } };
        Some(Visual {
            class,
            id,
            index,
            name,
        })
    }
}

/// The state of the player application, together with the user's
/// playlists. The player position the player reports as a non-integral
/// number is carried as its raw decimal token, unparsed.
pub struct ApplicationData {
    /// Is AirPlay currently enabled?
    pub airplay_enabled: Option<bool>,
    /// Is a track currently being converted?
    pub converting: Option<bool>,
    /// The currently selected AirPlay devices.
    pub current_airplay_devices: Vec<AirplayDevice>,
    /// The currently selected encoder.
    pub current_encoder: Encoder,
    /// The playlist containing the currently targeted track.
    pub current_playlist: Option<Playlist>,
    /// The name of the current track in the playing stream, as the streaming server provides it.
    pub current_stream_title: Option<String>,
    /// The URL of the playing stream or streaming web site, as the streaming server provides it.
    pub current_stream_url: Option<String>,
    /// The currently selected visual plug-in.
    pub current_visual: Visual,
    /// Is the equalizer enabled?
    pub eq_enabled: bool,
    /// True if all track indices should be independent of the play order of the owning playlist.
    pub fixed_indexing: bool,
    /// Is this the active application?
    pub frontmost: bool,
    /// Is the application using the entire screen?
    pub full_screen: bool,
    /// The name of the application.
    pub name: Option<String>,
    /// Has the sound output been muted?
    pub mute: bool,
    /// The player's position within the currently playing track in seconds, as the raw decimal token.
    pub player_position: Option<String>,
    /// Is the player stopped, paused, or playing?
    pub player_state: Option<PlayerState>,
    /// The user's playlists.
    pub playlists: Option<Vec<Playlist>>,
    /// The tracks selected in the application by the user.
    pub selection: Option<Vec<Track>>,
    /// Are songs played in random order?
    pub shuffle_enabled: bool,
    /// The playback shuffle mode.
    pub shuffle_mode: ShuffleMode,
    /// The playback repeat mode.
    pub song_repeat: SongRepeat,
    /// The sound output volume (0 minimum, 100 maximum).
    pub sound_volume: i8,
    /// The version of the application.
    pub version: Option<String>,
    /// The visual plug-ins the application offers.
    pub visuals: Vec<Visual>,
    /// Are visuals currently being displayed?
    pub visuals_enabled: bool,
}

impl JsonRecord for ApplicationData {
    open spec fn json_ok(v: JsonModel) -> bool {
        &&& v matches JsonModel::Obj(o)
        &&& opt_bool_field_ok(o, "airplayEnabled"@)
        &&& opt_bool_field_ok(o, "converting"@)
        &&& rec_field_ok::<Vec<AirplayDevice>>(o, "currentAirplayDevices"@)
        &&& rec_field_ok::<Encoder>(o, "currentEncoder"@)
        &&& opt_rec_ok::<Playlist>(o, "currentPlaylist"@)
        &&& opt_str_field_ok(o, "currentStreamTitle"@)
        &&& opt_str_field_ok(o, "currentStreamUrl"@)
        &&& rec_field_ok::<Visual>(o, "currentVisual"@)
        &&& bool_field_ok(o, "eqEnabled"@)
        &&& bool_field_ok(o, "fixedIndexing"@)
        &&& bool_field_ok(o, "frontmost"@)
        &&& bool_field_ok(o, "fullScreen"@)
        &&& opt_str_field_ok(o, "name"@)
        &&& bool_field_ok(o, "mute"@)
        &&& opt_numtext_field_ok(o, "playerPosition"@)
        &&& opt_str_field_ok(o, "playerState"@) && (opt_str_field(o, "playerState"@) matches Some(sx) ==> player_state_of(sx) is Some)
        &&& opt_rec_ok::<Vec<Playlist>>(o, "playlists"@)
        &&& opt_rec_ok::<Vec<Track>>(o, "selection"@)
        &&& bool_field_ok(o, "shuffleEnabled"@)
        &&& str_field_ok(o, "shuffleMode"@) && shuffle_mode_of(str_field(o, "shuffleMode"@)) is Some
        &&& str_field_ok(o, "songRepeat"@) && song_repeat_of(str_field(o, "songRepeat"@)) is Some
        &&& int_field_ok(o, "soundVolume"@, -128, 127)
        &&& opt_str_field_ok(o, "version"@)
        &&& rec_field_ok::<Vec<Visual>>(o, "visuals"@)
        &&& bool_field_ok(o, "visualsEnabled"@)
    }

    open spec fn matches_json(self, v: JsonModel) -> bool {
        &&& v matches JsonModel::Obj(o)
        &&& (match self.airplay_enabled { Some(b) => opt_bool_field(o, "airplayEnabled"@) == Some(b), None => opt_bool_field(o, "airplayEnabled"@) is None })
        &&& (match self.converting { Some(b) => opt_bool_field(o, "converting"@) == Some(b), None => opt_bool_field(o, "converting"@) is None })
        &&& rec_field_matches(self.current_airplay_devices, o, "currentAirplayDevices"@)
        &&& rec_field_matches(self.current_encoder, o, "currentEncoder"@)
        &&& opt_rec_matches(self.current_playlist, o, "currentPlaylist"@)
        &&& opt_str_matches(self.current_stream_title, opt_str_field(o, "currentStreamTitle"@))
        &&& opt_str_matches(self.current_stream_url, opt_str_field(o, "currentStreamUrl"@))
        &&& rec_field_matches(self.current_visual, o, "currentVisual"@)
        &&& self.eq_enabled == bool_field(o, "eqEnabled"@)
        &&& self.fixed_indexing == bool_field(o, "fixedIndexing"@)
        &&& self.frontmost == bool_field(o, "frontmost"@)
        &&& self.full_screen == bool_field(o, "fullScreen"@)
        &&& opt_str_matches(self.name, opt_str_field(o, "name"@))
        &&& self.mute == bool_field(o, "mute"@)
        &&& (match self.player_position { Some(t) => opt_numtext_field(o, "playerPosition"@) == Some(t@), None => opt_numtext_field(o, "playerPosition"@) is None })
        &&& (match opt_str_field(o, "playerState"@) { None => self.player_state is None, Some(sx) => self.player_state matches Some(e) && player_state_of(sx) == Some(e) })
        &&& opt_rec_matches(self.playlists, o, "playlists"@)
        &&& opt_rec_matches(self.selection, o, "selection"@)
        &&& self.shuffle_enabled == bool_field(o, "shuffleEnabled"@)
        &&& Some(self.shuffle_mode) == shuffle_mode_of(str_field(o, "shuffleMode"@))
        &&& Some(self.song_repeat) == song_repeat_of(str_field(o, "songRepeat"@))
        &&& self.sound_volume as int == int_field(o, "soundVolume"@)
        &&& opt_str_matches(self.version, opt_str_field(o, "version"@))
        &&& rec_field_matches(self.visuals, o, "visuals"@)
        &&& self.visuals_enabled == bool_field(o, "visualsEnabled"@)
    }

    #[verifier::rlimit(100)]
    #[verifier::spinoff_prover]
    fn from_json(v: &JsonValue) -> (r: Option<ApplicationData>) {
        let fields = match v {
            JsonValue::Obj(fields) => fields,
            _ => {
                return None;
            },
        };
        proof {
            assert(v@->Obj_0 =~~= model_fields(fields@));
        }
        let airplay_enabled = match get_bool_opt(fields, "airplayEnabled") { Some(x) => x, None => { return None; } };
        let converting = match get_bool_opt(fields, "converting") { Some(x) => x, None => { return None; } };
        let current_airplay_devices = match get_rec::<Vec<AirplayDevice>>(fields, "currentAirplayDevices") { Some(x) => x, None => { return None; } };
        let current_encoder = match get_rec::<Encoder>(fields, "currentEncoder") { Some(x) => x, None => { return None; } };
        let current_playlist = match get_rec_opt::<Playlist>(fields, "currentPlaylist") { Some(x) => x, None => { return None; } };
        let current_stream_title = match get_string_opt(fields, "currentStreamTitle") { Some(x) => x, None => { return None; } };
        let current_stream_url = match get_string_opt(fields, "currentStreamUrl") { Some(x) => x, None => { return None; } };
        let current_visual = match get_rec::<Visual>(fields, "currentVisual") { Some(x) => x, None => { return None; } };
        let eq_enabled = match get_bool(fields, "eqEnabled") { Some(x) => x, None => { return None; } };
        let fixed_indexing = match get_bool(fields, "fixedIndexing") { Some(x) => x, None => { return None; } };
        let frontmost = match get_bool(fields, "frontmost") { Some(x) => x, None => { return None; } };
        let full_screen = match get_bool(fields, "fullScreen") { Some(x) => x, None => { return None; } };
        let name = match get_string_opt(fields, "name") { Some(x) => x, None => { return None; } };
        let mute = match get_bool(fields, "mute") { Some(x) => x, None => { return None; } };
        let player_position = match get_numtext_opt(fields, "playerPosition") { Some(x) => x, None => { return None; } };
        let player_state = match get_string_opt(fields, "playerState") {
            Some(Some(sx)) => match player_state_from(sx.as_str()) { Some(e) => Some(e), None => { return None; } },
            Some(None) => None,
            None => { return None; },
        };
        let playlists = match get_rec_opt::<Vec<Playlist>>(fields, "playlists") { Some(x) => x, None => { return None; } };
        let selection = match get_rec_opt::<Vec<Track>>(fields, "selection") { Some(x) => x, None => { return None; } };
        let shuffle_enabled = match get_bool(fields, "shuffleEnabled") { Some(x) => x, None => { return None; } };
        let shuffle_mode = match get_string(fields, "shuffleMode") {
            Some(sx) => match shuffle_mode_from(sx.as_str()) { Some(e) => e, None => { return None; } },
            None => { return None; },
        };
        let song_repeat = match get_string(fields, "songRepeat") {
            Some(sx) => match song_repeat_from(sx.as_str()) { Some(e) => e, None => { return None; } },
            None => { return None; },
        };
        let sound_volume = match get_i64(fields, "soundVolume", -128i64, 127i64) { Some(x) => x as i8, None => { return None; } };
        let version = match get_string_opt(fields, "version") { Some(x) => x, None => { return None; } };
        let visuals = match get_rec::<Vec<Visual>>(fields, "visuals") { Some(x) => x, None => { return None; } };
        let visuals_enabled = match get_bool(fields, "visualsEnabled") { Some(x) => x, None => { return None; } };
        Some(ApplicationData {
            airplay_enabled,
            converting,
            current_airplay_devices,
            current_encoder,
            current_playlist,
            current_stream_title,
            current_stream_url,
            current_visual,
            eq_enabled,
            fixed_indexing,
            frontmost,
            full_screen,
            name,
            mute,
            player_position,
            player_state,
            playlists,
            selection,
            shuffle_enabled,
            shuffle_mode,
            song_repeat,
            sound_volume,
            version,
            visuals,
            visuals_enabled,
        })
    }
}

} // verus!
