//! Tests of the record schemas beyond tracks: the application state with
//! its nested records, and schema tolerance rules.

use apple_music::AppleMusic;
use apple_music::PlayerState;
use apple_music::ProcessError;
use apple_music::ProcessInvoker;
use apple_music::RawOutput;
use apple_music::ShuffleMode;
use apple_music::SongRepeat;

struct FixedInvoker {
    stdout: Vec<u8>,
}

impl ProcessInvoker for FixedInvoker {
    fn run(&self, _args: &Vec<String>) -> Result<RawOutput, ProcessError> {
        Ok(RawOutput { status: Some(0), stdout: self.stdout.clone(), stderr: Vec::new() })
    }
}

fn app_data_json() -> String {
    let playlist = "{\"class\":\"libraryPlaylist\",\"id\":99,\"index\":1,\"name\":\"Library\",\
        \"persistentID\":\"L1\",\"description\":null,\"disliked\":false,\"duration\":null,\
        \"favorited\":false,\"parent\":{\"class\":\"folderPlaylist\",\"id\":98,\"index\":0,\
        \"name\":\"Folder\",\"persistentID\":\"F1\",\"description\":null,\"disliked\":false,\
        \"duration\":null,\"favorited\":false,\"size\":null,\"specialKind\":\"folder\",\
        \"time\":null,\"visible\":false},\"size\":null,\"specialKind\":\"Library\",\
        \"time\":null,\"visible\":true}";
    format!(
        "{{\"airplayEnabled\":true,\"converting\":null,\
        \"currentAirplayDevices\":[{{\"class\":\"airplayDevice\",\"id\":3,\"index\":1,\
        \"name\":\"Speakers\",\"persistentID\":\"D1\",\"active\":true,\"available\":true,\
        \"kind\":\"homepod\",\"networkAddress\":null,\"protected\":false,\"selected\":true,\
        \"supportsAudio\":true,\"supportsVideo\":false,\"soundVolume\":80}}],\
        \"currentEncoder\":{{\"class\":\"encoder\",\"id\":5,\"index\":1,\"name\":\"MP3\",\
        \"format\":\"MP3\"}},\
        \"currentPlaylist\":{playlist},\
        \"currentStreamTitle\":null,\"currentStreamUrl\":null,\
        \"currentVisual\":{{\"class\":\"visual\",\"id\":6,\"index\":1,\"name\":\"Waves\"}},\
        \"eqEnabled\":false,\"fixedIndexing\":false,\"frontmost\":true,\"fullScreen\":false,\
        \"name\":\"Music\",\"mute\":false,\"playerPosition\":12.5,\"playerState\":\"playing\",\
        \"playlists\":[{playlist}],\"selection\":null,\"shuffleEnabled\":false,\
        \"shuffleMode\":\"songs\",\"songRepeat\":\"off\",\"soundVolume\":55,\
        \"version\":\"1.3.5\",\"visuals\":[],\"visualsEnabled\":false}}"
    )
}

#[test]
fn application_data_decodes_with_nested_records() {
    let invoker = FixedInvoker { stdout: app_data_json().into_bytes() };
    let data = AppleMusic::get_application_data(&invoker).expect("must decode");
    assert_eq!(data.airplay_enabled, Some(true));
    assert!(data.converting.is_none());
    assert_eq!(data.current_airplay_devices.len(), 1);
    assert_eq!(data.current_airplay_devices[0].name, "Speakers");
    assert_eq!(data.current_airplay_devices[0].sound_volume, 80);
    assert_eq!(data.current_encoder.name, "MP3");
    assert_eq!(data.current_visual.name, "Waves");
    assert!(matches!(data.player_state, Some(PlayerState::Playing)));
    assert!(matches!(data.shuffle_mode, ShuffleMode::Songs));
    assert!(matches!(data.song_repeat, SongRepeat::Off));
    assert_eq!(data.sound_volume, 55);
    assert_eq!(data.player_position.as_deref(), Some("12.5"));
    assert_eq!(data.version.as_deref(), Some("1.3.5"));
    let current = data.current_playlist.expect("a playlist is playing");
    assert_eq!(current.name, "Library");
    let parent = current.parent.expect("the playlist sits in a folder");
    assert_eq!(parent.name, "Folder");
    assert!(parent.parent.is_none());
    let playlists = data.playlists.expect("playlists are listed");
    assert_eq!(playlists.len(), 1);
    assert!(data.selection.is_none());
    assert_eq!(data.visuals.len(), 0);
}

#[test]
fn unrecognized_extra_members_are_tolerated() {
    let json = "{\"class\":\"encoder\",\"id\":5,\"index\":1,\"name\":\"MP3\",\
        \"format\":\"MP3\",\"someFutureMember\":{\"x\":[1,2,3]}}";
    let value = apple_music::parse_json(json).expect("valid JSON");
    let enc = <apple_music::Encoder as apple_music::JsonRecord>::from_json(&value)
        .expect("extra members are ignored");
    assert_eq!(enc.id, 5);
    assert_eq!(enc.format.as_deref(), Some("MP3"));
}

#[test]
fn a_missing_required_member_fails_the_schema() {
    let json = "{\"class\":\"encoder\",\"id\":5,\"index\":1,\"format\":\"MP3\"}";
    let value = apple_music::parse_json(json).expect("valid JSON");
    assert!(<apple_music::Encoder as apple_music::JsonRecord>::from_json(&value).is_none());
}

#[test]
fn an_out_of_range_integer_fails_the_schema() {
    let json = "{\"class\":\"encoder\",\"id\":99999999999999,\"index\":1,\"name\":\"MP3\",\
        \"format\":null}";
    let value = apple_music::parse_json(json).expect("valid JSON");
    assert!(<apple_music::Encoder as apple_music::JsonRecord>::from_json(&value).is_none());
}

#[test]
fn eq_preset_decodes_with_raw_band_tokens() {
    let json = "{\"class\":\"EQPreset\",\"id\":9,\"index\":1,\"name\":\"Flat\",\
        \"band1\":0,\"band2\":-1.5,\"band3\":0,\"band4\":0,\"band5\":0,\"band6\":0,\
        \"band7\":0,\"band8\":0,\"band9\":0,\"band10\":12.0,\"modifiable\":true,\
        \"preamp\":0.5,\"update_tracks\":false}";
    let value = apple_music::parse_json(json).expect("valid JSON");
    let preset = <apple_music::EqPreset as apple_music::JsonRecord>::from_json(&value)
        .expect("the preset fits its schema");
    assert_eq!(preset.name, "Flat");
    assert_eq!(preset.band2, "-1.5");
    assert_eq!(preset.band10, "12.0");
    assert_eq!(preset.preamp, "0.5");
    assert_eq!(preset.modifiable, Some(true));
    assert!(!preset.update_tracks);
}

#[test]
fn unknown_enum_tags_fail_the_schema() {
    assert!(apple_music::track_kind_from("cassette").is_none());
    assert!(apple_music::cloud_status_from("galaxy").is_none());
    assert!(apple_music::media_kind_from("hologram").is_none());
    assert!(apple_music::kind_from("guessed").is_none());
    assert!(apple_music::player_state_from("flying").is_none());
    assert!(apple_music::special_kind_from("Strange").is_none());
    assert!(apple_music::playlist_class_from("mixtape").is_none());
}

#[test]
fn known_enum_tags_decode() {
    assert!(matches!(
        apple_music::cloud_status_from("no longer available"),
        Some(apple_music::CloudStatus::NoLongerAvailable)
    ));
    assert!(matches!(apple_music::kind_from("computed"), Some(apple_music::Kind::Computed)));
    assert!(matches!(
        apple_music::special_kind_from("PurchasedMusic"),
        Some(apple_music::SpecialKind::PurchasedMusic)
    ));
    assert!(matches!(
        apple_music::airplay_device_kind_from("homepod"),
        Some(apple_music::AirplayDeviceKind::HomePod)
    ));
    assert!(matches!(
        apple_music::shuffle_mode_from("groupings"),
        Some(apple_music::ShuffleMode::Groupings)
    ));
    assert!(matches!(
        apple_music::song_repeat_from("one"),
        Some(apple_music::SongRepeat::One)
    ));
}

#[test]
fn command_vocabularies_expose_their_player_tags() {
    assert_eq!(apple_music::AppCommands::BACKTRACK.as_str(), "backTrack");
    assert_eq!(apple_music::AppCommands::FASTFORWARD.as_str(), "fastForward");
    assert_eq!(apple_music::AppCommands::PLAYPAUSE.as_str(), "playpause");
    assert_eq!(apple_music::AppCommands::QUIT.as_str(), "quit");
    assert_eq!(apple_music::SongRepeatMode::OFF.as_str(), "off");
    assert_eq!(apple_music::ParamType::SearchInPlaylist.as_str(), "searchInPlaylist");
    assert_eq!(apple_music::ParamType::Artworks.as_str(), "artworks");
}
