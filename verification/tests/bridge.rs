//! Tests of the scripting bridge and the typed mapper, driven through
//! stub process invokers.

use std::cell::RefCell;

use apple_music::AppleMusic;
use apple_music::Error;
use apple_music::ParamType;
use apple_music::ProcessError;
use apple_music::ProcessInvoker;
use apple_music::RawOutput;
use apple_music::ScriptController;
use apple_music::Track;

/// An invoker that always answers with the same stdout bytes, recording
/// every argument vector it was handed.
struct FixedInvoker {
    stdout: Vec<u8>,
    status: i32,
    calls: RefCell<Vec<Vec<String>>>,
}

impl FixedInvoker {
    fn new(stdout: &str) -> FixedInvoker {
        FixedInvoker {
            stdout: stdout.as_bytes().to_vec(),
            status: 0,
            calls: RefCell::new(Vec::new()),
        }
    }
}

impl ProcessInvoker for FixedInvoker {
    fn run(&self, args: &Vec<String>) -> Result<RawOutput, ProcessError> {
        self.calls.borrow_mut().push(args.clone());
        Ok(RawOutput { status: Some(self.status), stdout: self.stdout.clone(), stderr: Vec::new() })
    }
}

/// An invoker whose launch always fails, recording how often it was asked.
struct FailingInvoker {
    calls: RefCell<usize>,
}

impl ProcessInvoker for FailingInvoker {
    fn run(&self, _args: &Vec<String>) -> Result<RawOutput, ProcessError> {
        *self.calls.borrow_mut() += 1;
        Err(ProcessError::LaunchFailed)
    }
}

fn track_json() -> String {
    let mut s = String::new();
    s.push_str("{");
    s.push_str("\"class\":\"fileTrack\",\"id\":7010,\"index\":2,\"name\":\"An awesome song!\",");
    s.push_str("\"persistentID\":\"A1B2C3\",\"album\":\"An awesome album\",");
    s.push_str("\"albumArtist\":\"An awesome artist\",\"albumDisliked\":false,");
    s.push_str("\"albumLoved\":true,\"albumRating\":80,\"albumRatingKind\":\"user\",");
    s.push_str("\"artworks\":null,\"bitRate\":256,\"bookmark\":0,\"bookmarkable\":false,");
    s.push_str("\"bpm\":120,\"category\":\"\",\"cloudStatus\":\"subscription\",\"comment\":\"nice\",");
    s.push_str("\"compilation\":false,\"composer\":\"Someone\",\"databaseID\":4242,");
    s.push_str("\"dateAdded\":\"2023-07-01\",\"description\":\"\",\"disliked\":false,");
    s.push_str("\"downloaderAppleID\":null,\"downloaderName\":null,\"duration\":184.25,");
    s.push_str("\"enabled\":true,\"episodeID\":null,\"episodeNumber\":0,\"eq\":\"\",");
    s.push_str("\"finish\":184.25,\"gapless\":null,\"genre\":\"Pop\",\"grouping\":\"\",");
    s.push_str("\"kind\":null,\"longDescription\":null,\"loved\":true,\"lyrics\":null,");
    s.push_str("\"mediaKind\":\"song\",\"modificationDate\":null,\"movement\":null,");
    s.push_str("\"movementCount\":0,\"movementNumber\":0,\"playedCount\":12,");
    s.push_str("\"playedDate\":null,\"purchaserAppleID\":null,\"purchaserName\":null,");
    s.push_str("\"rating\":90,\"ratingKind\":\"computed\",\"releaseDate\":\"2020-01-01\",");
    s.push_str("\"sampleRate\":44100,\"seasonNumber\":null,\"shufflable\":true,");
    s.push_str("\"skippedCount\":1,\"skippedDate\":null,\"show\":null,\"sortAlbum\":null,");
    s.push_str("\"sortArtist\":null,\"sortAlbumArtist\":null,\"sortName\":null,");
    s.push_str("\"sortComposer\":null,\"sortShow\":null,\"size\":5000000,\"start\":0,");
    s.push_str("\"time\":\"3:04\",\"trackCount\":10,\"trackNumber\":3,\"unplayed\":false,");
    s.push_str("\"volumeAdjustment\":0,\"work\":null,\"year\":2020");
    s.push_str("}");
    s
}

#[test]
fn round_trip_track_through_stub_invoker() {
    let json = track_json();
    let invoker = FixedInvoker::new(&json);
    let track = AppleMusic::get_current_track(&invoker).expect("the stub output must decode");
    assert_eq!(track.id, 7010);
    assert_eq!(track.index, 2);
    assert_eq!(track.name, "An awesome song!");
    assert_eq!(track.persistent_id, "A1B2C3");
    assert_eq!(track.album, "An awesome album");
    assert_eq!(track.album_artist, "An awesome artist");
    assert!(!track.album_disliked);
    assert!(track.album_loved);
    assert_eq!(track.album_rating, Some(80));
    assert!(track.artworks.is_none());
    assert_eq!(track.bit_rate, Some(256));
    assert_eq!(track.bookmark, 0);
    assert_eq!(track.bpm, 120);
    assert_eq!(track.comment, "nice");
    assert_eq!(track.database_id, 4242);
    assert_eq!(track.date_added, "2023-07-01");
    assert_eq!(track.duration, "184.25");
    assert!(track.enabled);
    assert_eq!(track.episode_number, 0);
    assert_eq!(track.finish, "184.25");
    assert_eq!(track.genre, "Pop");
    assert!(track.loved);
    assert_eq!(track.movement_count, 0);
    assert_eq!(track.played_count, 12);
    assert_eq!(track.rating, 90);
    assert_eq!(track.release_date, "2020-01-01");
    assert_eq!(track.sample_rate, Some(44100));
    assert!(track.shufflable);
    assert_eq!(track.skipped_count, 1);
    assert_eq!(track.size, Some(5000000));
    assert_eq!(track.start, "0");
    assert_eq!(track.time, "3:04");
    assert_eq!(track.track_count, 10);
    assert_eq!(track.track_number, 3);
    assert!(!track.unplayed);
    assert_eq!(track.volume_adjustment, 0);
    assert_eq!(track.year, 2020);
    assert!(track.downloader_apple_id.is_none());
    assert!(track.gapless.is_none());
    assert!(matches!(track.class, apple_music::TrackKind::FileTrack));
    assert!(matches!(track.media_kind, apple_music::MediaKind::Song));
    assert!(matches!(track.album_rating_kind, Some(apple_music::Kind::User)));
    assert!(matches!(track.rating_kind, Some(apple_music::Kind::Computed)));
    assert!(matches!(track.cloud_status, Some(apple_music::CloudStatus::Subscription)));
    assert_eq!(track.category, "");
    assert!(!track.bookmarkable);
    assert!(!track.compilation);
    assert_eq!(track.composer, "Someone");
    assert_eq!(track.description, "");
    assert!(!track.disliked);
    assert_eq!(track.eq, "");
    assert_eq!(track.grouping, "");
    assert_eq!(track.movement_number, 0);
    assert!(track.kind.is_none());
    assert!(track.long_description.is_none());
    assert!(track.lyrics.is_none());
    assert!(track.modification_date.is_none());
    assert!(track.movement.is_none());
    assert!(track.played_date.is_none());
    assert!(track.purchaser_apple_id.is_none());
    assert!(track.purchaser_name.is_none());
    assert!(track.downloader_name.is_none());
    assert!(track.season_number.is_none());
    assert!(track.skipped_date.is_none());
    assert!(track.show.is_none());
    assert!(track.sort_album.is_none());
    assert!(track.sort_artist.is_none());
    assert!(track.sort_album_artist.is_none());
    assert!(track.sort_name.is_none());
    assert!(track.sort_composer.is_none());
    assert!(track.sort_show.is_none());
    assert!(track.work.is_none());
    assert!(track.episode_id.is_none());
    assert!(track.enrichment_pending());

    // The invoker was handed the fixed flag sequence and the payload as
    // one trailing argument.
    let calls = invoker.calls.borrow();
    assert_eq!(calls.len(), 1);
    let args = &calls[0];
    assert_eq!(args.len(), 5);
    assert_eq!(args[0], "-l");
    assert_eq!(args[1], "JavaScript");
    assert_eq!(args[2], "-e");
    assert_eq!(args[3], apple_music::SCRIPT_SOURCE);
    assert_eq!(args[4], "{\"param_type\":\"currentTrack\"}");
}

#[test]
fn launch_failure_is_reported_and_nothing_is_parsed() {
    let invoker = FailingInvoker { calls: RefCell::new(0) };
    let r = AppleMusic::get_current_track(&invoker);
    assert!(matches!(r, Err(Error::LaunchFailed)));
    assert_eq!(*invoker.calls.borrow(), 1);
}

#[test]
fn malformed_output_is_a_deserialization_failure() {
    let invoker = FixedInvoker::new("not json");
    let r = AppleMusic::get_current_track(&invoker);
    assert!(matches!(r, Err(Error::DeserializationFailed)));
}

#[test]
fn wrong_shape_output_is_a_deserialization_failure() {
    // Valid JSON, but not a track record.
    let invoker = FixedInvoker::new("{\"id\":3}");
    let r = AppleMusic::get_current_track(&invoker);
    assert!(matches!(r, Err(Error::DeserializationFailed)));
}

#[test]
fn nonzero_exit_status_is_not_a_failure() {
    let json = track_json();
    let mut invoker = FixedInvoker::new(&json);
    invoker.status = 1;
    let r = AppleMusic::get_current_track(&invoker);
    assert!(r.is_ok());
}

#[test]
fn payload_carries_id_exactly_for_kinds_that_require_one() {
    let c = ScriptController;
    assert_eq!(
        c.generate_json(ParamType::CurrentTrack, None, None),
        "{\"param_type\":\"currentTrack\"}"
    );
    assert_eq!(
        c.generate_json(ParamType::AllTracks, None, None),
        "{\"param_type\":\"allTracks\"}"
    );
    assert_eq!(
        c.generate_json(ParamType::ApplicationData, None, None),
        "{\"param_type\":\"applicationData\"}"
    );
    assert_eq!(
        c.generate_json(ParamType::PlaylistById, Some(1234), None),
        "{\"param_type\":\"playlistById\",\"id\":\"1234\"}"
    );
    assert_eq!(
        c.generate_json(ParamType::PlaylistTracks, Some(-7), None),
        "{\"param_type\":\"playlistTracks\",\"id\":\"-7\"}"
    );
    assert_eq!(
        c.generate_json(ParamType::Artworks, Some(9), None),
        "{\"param_type\":\"artworks\",\"id\":\"9\"}"
    );
    assert_eq!(
        c.generate_json(ParamType::SearchInPlaylist, Some(5), Some("hello")),
        "{\"param_type\":\"searchInPlaylist\",\"id\":\"5\",\"query\":\"hello\"}"
    );
}

#[test]
fn payload_escapes_query_text() {
    let c = ScriptController;
    assert_eq!(
        c.generate_json(ParamType::SearchInPlaylist, Some(1), Some("a\"b\\c\nd")),
        "{\"param_type\":\"searchInPlaylist\",\"id\":\"1\",\"query\":\"a\\\"b\\\\c\\u000ad\"}"
    );
}

#[test]
fn commands_are_synthesized_from_fixed_templates() {
    let invoker = FixedInvoker::new("");
    AppleMusic::set_sound_volume(&invoker, 50).expect("commands always succeed");
    AppleMusic::set_mute(&invoker, true).expect("commands always succeed");
    AppleMusic::set_shuffle(&invoker, false).expect("commands always succeed");
    AppleMusic::pause(&invoker).expect("commands always succeed");
    AppleMusic::set_song_repeat_mode(&invoker, apple_music::SongRepeatMode::ALL)
        .expect("commands always succeed");
    let calls = invoker.calls.borrow();
    assert_eq!(calls[0][3], "Application('Music').soundVolume = 50");
    assert_eq!(calls[1][3], "Application('Music').mute = true");
    assert_eq!(calls[2][3], "Application('Music').shuffleEnabled = false");
    assert_eq!(calls[3][3], "Application('Music').pause()");
    assert_eq!(calls[4][3], "Application('Music').songRepeat = \"all\"");
    // Commands carry no trailing payload argument.
    assert_eq!(calls[0].len(), 4);
}

#[test]
fn track_commands_address_the_track_by_id() {
    let json = track_json();
    let invoker = FixedInvoker::new(&json);
    let track = AppleMusic::get_current_track(&invoker).unwrap();
    track.set_loved(&invoker, true).expect("commands always succeed");
    track.reveal_in_player(&invoker).expect("commands always succeed");
    AppleMusic::play_track(&invoker, &track).expect("commands always succeed");
    let calls = invoker.calls.borrow();
    assert_eq!(calls[1][3], "Application('Music').tracks.byId(7010).loved = true");
    assert_eq!(
        calls[2][3],
        "Application('Music').reveal(Application('Music').tracks.byId(7010))"
    );
    assert_eq!(
        calls[3][3],
        "Application('Music').play(Application('Music').tracks.byId(7010))"
    );
}

#[test]
fn fetch_playlist_tracks_populates_the_playlist() {
    let playlist_json = "{\"class\":\"userPlaylist\",\"id\":41,\"index\":1,\"name\":\"Mix\",\
        \"persistentID\":\"F00\",\"description\":null,\"disliked\":false,\"duration\":903.1,\
        \"favorited\":true,\"size\":123456,\"specialKind\":\"none\",\"time\":\"15:03\",\
        \"visible\":true}";
    let invoker = FixedInvoker::new(playlist_json);
    let mut playlist = AppleMusic::get_playlist_by_id(&invoker, 41).expect("must decode");
    assert_eq!(playlist.name, "Mix");
    assert_eq!(playlist.duration.as_deref(), Some("903.1"));
    assert!(playlist.tracks.is_none());

    let tracks_json = format!("[{}]", track_json());
    let invoker2 = FixedInvoker::new(&tracks_json);
    playlist.fetch_playlist_tracks(&invoker2).expect("must decode");
    let tracks = playlist.tracks.as_ref().expect("tracks are cached");
    assert_eq!(tracks.len(), 1);
    assert_eq!(tracks[0].name, "An awesome song!");
    let calls = invoker2.calls.borrow();
    assert_eq!(calls[0][4], "{\"param_type\":\"playlistTracks\",\"id\":\"41\"}");
}

#[test]
fn search_for_tracks_passes_the_query() {
    let playlist_json = "{\"class\":\"userPlaylist\",\"id\":41,\"index\":1,\"name\":\"Mix\",\
        \"persistentID\":\"F00\",\"description\":null,\"disliked\":false,\"duration\":903.1,\
        \"favorited\":true,\"size\":123456,\"specialKind\":\"none\",\"time\":\"15:03\",\
        \"visible\":true}";
    let invoker = FixedInvoker::new(playlist_json);
    let playlist = AppleMusic::get_playlist_by_id(&invoker, 41).unwrap();
    let invoker2 = FixedInvoker::new("[]");
    let found = playlist.search_for_tracks(&invoker2, "awesome").expect("must decode");
    assert_eq!(found.expect("always present on success").len(), 0);
    let calls = invoker2.calls.borrow();
    assert_eq!(
        calls[0][4],
        "{\"param_type\":\"searchInPlaylist\",\"id\":\"41\",\"query\":\"awesome\"}"
    );
}

#[test]
fn execute_request_hands_the_encoded_request_to_the_invoker() {
    let invoker = FixedInvoker::new("null");
    let request = apple_music::LogicalRequest::playlist_tracks(12);
    let raw = ScriptController
        .execute_request(&invoker, &request)
        .expect("the stub invoker answers");
    assert_eq!(raw.stdout, b"null");
    let calls = invoker.calls.borrow();
    assert_eq!(calls[0][3], apple_music::SCRIPT_SOURCE);
    assert_eq!(calls[0][4], "{\"param_type\":\"playlistTracks\",\"id\":\"12\"}");
}

#[test]
fn encode_pairs_the_fixed_script_with_the_payload() {
    let request = apple_music::LogicalRequest::search_in_playlist(5, "hello".to_string());
    let (command, payload) = apple_music::encode(&request);
    assert_eq!(command, apple_music::SCRIPT_SOURCE);
    assert_eq!(payload, "{\"param_type\":\"searchInPlaylist\",\"id\":\"5\",\"query\":\"hello\"}");
    let plain = apple_music::LogicalRequest::all_tracks();
    let (command2, payload2) = apple_music::encode(&plain);
    assert_eq!(command2, apple_music::SCRIPT_SOURCE);
    assert_eq!(payload2, "{\"param_type\":\"allTracks\"}");
}

#[test]
fn error_messages_distinguish_the_failure_modes() {
    assert_ne!(Error::LaunchFailed.message(), Error::DeserializationFailed.message());
    assert_ne!(Error::NotPlaying.message(), Error::AppCommandFailed.message());
}

#[test]
fn fetch_artworks_populates_the_track() {
    let json = track_json();
    let invoker = FixedInvoker::new(&json);
    let mut track = AppleMusic::get_current_track(&invoker).unwrap();
    let artworks_json = "[{\"class\":\"artwork\",\"data\":null,\"description\":null,\
        \"downloaded\":true,\"format\":\"PNG\",\"kind\":1,\"raw_data\":\"abc\"}]";
    let invoker2 = FixedInvoker::new(artworks_json);
    track.fetch_artworks(&invoker2).expect("must decode");
    let artworks = track.artworks.as_ref().expect("artworks are cached");
    assert_eq!(artworks.len(), 1);
    assert_eq!(artworks[0].kind, 1);
    assert_eq!(artworks[0].format.as_deref(), Some("PNG"));
    assert_eq!(artworks[0].raw_data, "abc");
    assert!(artworks[0].downloaded);
    let calls = invoker2.calls.borrow();
    assert_eq!(calls[0][4], "{\"param_type\":\"artworks\",\"id\":\"7010\"}");
}
