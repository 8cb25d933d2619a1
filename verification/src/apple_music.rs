//! The entry point of the library: the player-control and data-retrieval
//! surface.
//!
//! Data retrievals go through the script dispatcher and the typed mapper,
//! so their successes are schema-valid records and their failures are the
//! two transport-and-schema errors. Player-state commands are
//! fire-and-forget: the interpreter gives no structured acknowledgment of
//! their semantic success, so only a launch failure would even be
//! observable, and none of it is reported to the caller.

use vstd::prelude::*;

use crate::application_data::ApplicationData;
use crate::encoder::flag_command;
use crate::encoder::property_command;
use crate::encoder::target_command;
use crate::encoder::verb_command;
use crate::error::Error;
use crate::invoker::ProcessInvoker;
use crate::json::JsonModel;
use crate::json::JsonRecord;
use crate::playlist::Playlist;
use crate::request::ParamType;
use crate::script_controller::ScriptController;
use crate::text::i64_to_string;
use crate::track::Track;

verus! {

/// Strict entry point of the crate, carrying the whole control surface.
pub struct AppleMusic;

impl AppleMusic {
    /// Returns an up-to-date [`ApplicationData`] record.
    pub fn get_application_data<I: ProcessInvoker>(invoker: &I) -> (r: Result<
        ApplicationData,
        Error,
    >)
        ensures
            r matches Err(e) ==> (e == Error::LaunchFailed || e == Error::DeserializationFailed),
            r matches Ok(d) ==> exists|m: JsonModel| #[trigger]
                ApplicationData::json_ok(m) && d.matches_json(m),
    {
        ScriptController.execute_script::<ApplicationData, I>(
            invoker,
            ParamType::ApplicationData,
            None,
            None,
        )
    }

    /// Looks for and returns the playlist with the provided id, if it
    /// exists.
    pub fn get_playlist_by_id<I: ProcessInvoker>(invoker: &I, id: i32) -> (r: Result<
        Playlist,
        Error,
    >)
        ensures
            r matches Err(e) ==> (e == Error::LaunchFailed || e == Error::DeserializationFailed),
            r matches Ok(p) ==> exists|m: JsonModel| #[trigger]
                Playlist::json_ok(m) && p.matches_json(m),
    {
        ScriptController.execute_script::<Playlist, I>(invoker, ParamType::PlaylistById, Some(id), None)
    }

    /// Returns the currently playing track, if any.
    pub fn get_current_track<I: ProcessInvoker>(invoker: &I) -> (r: Result<Track, Error>)
        ensures
            r matches Err(e) ==> (e == Error::LaunchFailed || e == Error::DeserializationFailed),
            r matches Ok(t) ==> exists|m: JsonModel| #[trigger]
                Track::json_ok(m) && t.matches_json(m),
    {
        ScriptController.execute_script::<Track, I>(invoker, ParamType::CurrentTrack, None, None)
    }

    /// Fetches and returns the list of all library tracks. The interpreter
    /// may fail on very large libraries; that surfaces as a
    /// deserialization failure, never as a panic.
    pub fn get_all_library_tracks<I: ProcessInvoker>(invoker: &I) -> (r: Result<Vec<Track>, Error>)
        ensures
            r matches Err(e) ==> (e == Error::LaunchFailed || e == Error::DeserializationFailed),
            r matches Ok(ts) ==> exists|m: JsonModel| #[trigger]
                Vec::<Track>::json_ok(m) && ts.matches_json(m),
    {
        ScriptController.execute_script::<Vec<Track>, I>(invoker, ParamType::AllTracks, None, None)
    }

    /// Plays the provided track on the player.
    pub fn play_track<I: ProcessInvoker>(invoker: &I, track: &Track) -> (r: Result<(), Error>)
        ensures
            r == Ok::<(), Error>(()),
    {
        let cmd = target_command("play", "tracks", track.id);
        let _ = ScriptController.execute(invoker, cmd.as_str(), None);
        Ok(())
    }

    /// Plays the provided playlist on the player.
    pub fn play_playlist<I: ProcessInvoker>(invoker: &I, playlist: &Playlist) -> (r: Result<
        (),
        Error,
    >)
        ensures
            r == Ok::<(), Error>(()),
    {
        let cmd = target_command("play", "playlists", playlist.id);
        let _ = ScriptController.execute(invoker, cmd.as_str(), None);
        Ok(())
    }

    /// Mutes or unmutes the player.
    pub fn set_mute<I: ProcessInvoker>(invoker: &I, value: bool) -> (r: Result<(), Error>)
        ensures
            r == Ok::<(), Error>(()),
    {
        let cmd = property_command("mute", crate::encoder::bool_text(value));
        let _ = ScriptController.execute(invoker, cmd.as_str(), None);
        Ok(())
    }

    /// Activates or deactivates shuffle mode on the player.
    pub fn set_shuffle<I: ProcessInvoker>(invoker: &I, value: bool) -> (r: Result<(), Error>)
        ensures
            r == Ok::<(), Error>(()),
    {
        let cmd = property_command("shuffleEnabled", crate::encoder::bool_text(value));
        let _ = ScriptController.execute(invoker, cmd.as_str(), None);
        Ok(())
    }

    /// Sets the song repeat mode to the provided value; the value is one
    /// of a closed vocabulary, never free text.
    pub fn set_song_repeat_mode<I: ProcessInvoker>(invoker: &I, value: SongRepeatMode) -> (r:
        Result<(), Error>)
        ensures
            r == Ok::<(), Error>(()),
    {
        let quoted: &'static str = match value {
            SongRepeatMode::OFF => "\"off\"",
            SongRepeatMode::ONE => "\"one\"",
            SongRepeatMode::ALL => "\"all\"",
        };
        let cmd = property_command("songRepeat", quoted);
        let _ = ScriptController.execute(invoker, cmd.as_str(), None);
        Ok(())
    }

    /// Sets the sound volume to the provided value, a bounded integer.
    pub fn set_sound_volume<I: ProcessInvoker>(invoker: &I, value: i8) -> (r: Result<(), Error>)
        requires
            0 <= value <= 100,
        ensures
            r == Ok::<(), Error>(()),
    {
        let text = i64_to_string(value as i64);
        let cmd = property_command("soundVolume", text.as_str());
        let _ = ScriptController.execute(invoker, cmd.as_str(), None);
        Ok(())
    }

    /// Tries to convert the provided track.
    pub fn convert_track<I: ProcessInvoker>(invoker: &I, track: &Track) -> (r: Result<(), Error>)
        ensures
            r == Ok::<(), Error>(()),
    {
        let cmd = target_command("convert", "tracks", track.id);
        let _ = ScriptController.execute(invoker, cmd.as_str(), None);
        Ok(())
    }

    /// Resumes the player if a track is paused, otherwise plays a track
    /// from the library.
    pub fn play<I: ProcessInvoker>(invoker: &I) -> (r: Result<(), Error>)
        ensures
            r == Ok::<(), Error>(()),
    {
        let cmd = verb_command("play");
        let _ = ScriptController.execute(invoker, cmd.as_str(), None);
        Ok(())
    }

    /// Pauses the player's currently playing track.
    pub fn pause<I: ProcessInvoker>(invoker: &I) -> (r: Result<(), Error>)
        ensures
            r == Ok::<(), Error>(()),
    {
        let cmd = verb_command("pause");
        let _ = ScriptController.execute(invoker, cmd.as_str(), None);
        Ok(())
    }

    /// Stops rewinding or fast-forwarding and plays the track at normal
    /// speed.
    pub fn resume<I: ProcessInvoker>(invoker: &I) -> (r: Result<(), Error>)
        ensures
            r == Ok::<(), Error>(()),
    {
        let cmd = verb_command("resume");
        let _ = ScriptController.execute(invoker, cmd.as_str(), None);
        Ok(())
    }

    /// Restarts the current track.
    pub fn back_track<I: ProcessInvoker>(invoker: &I) -> (r: Result<(), Error>)
        ensures
            r == Ok::<(), Error>(()),
    {
        let cmd = verb_command("backTrack");
        let _ = ScriptController.execute(invoker, cmd.as_str(), None);
        Ok(())
    }

    /// Fast-forwards the current track until resuming or its end.
    pub fn fast_forward<I: ProcessInvoker>(invoker: &I) -> (r: Result<(), Error>)
        ensures
            r == Ok::<(), Error>(()),
    {
        let cmd = verb_command("fastForward");
        let _ = ScriptController.execute(invoker, cmd.as_str(), None);
        Ok(())
    }

    /// Skips the current track and plays the next one.
    pub fn next_track<I: ProcessInvoker>(invoker: &I) -> (r: Result<(), Error>)
        ensures
            r == Ok::<(), Error>(()),
    {
        let cmd = verb_command("nextTrack");
        let _ = ScriptController.execute(invoker, cmd.as_str(), None);
        Ok(())
    }

    /// Plays if the player is paused, pauses if it is playing.
    pub fn playpause<I: ProcessInvoker>(invoker: &I) -> (r: Result<(), Error>)
        ensures
            r == Ok::<(), Error>(()),
    {
        let cmd = verb_command("playpause");
        let _ = ScriptController.execute(invoker, cmd.as_str(), None);
        Ok(())
    }

    /// Goes back to the previous track and plays it.
    pub fn previous_track<I: ProcessInvoker>(invoker: &I) -> (r: Result<(), Error>)
        ensures
            r == Ok::<(), Error>(()),
    {
        let cmd = verb_command("previousTrack");
        let _ = ScriptController.execute(invoker, cmd.as_str(), None);
        Ok(())
    }

    /// Rewinds the current track until resuming or its start.
    pub fn rewind<I: ProcessInvoker>(invoker: &I) -> (r: Result<(), Error>)
        ensures
            r == Ok::<(), Error>(()),
    {
        let cmd = verb_command("rewind");
        let _ = ScriptController.execute(invoker, cmd.as_str(), None);
        Ok(())
    }

    /// Stops the player, dropping the queued and current tracks.
    pub fn stop<I: ProcessInvoker>(invoker: &I) -> (r: Result<(), Error>)
        ensures
            r == Ok::<(), Error>(()),
    {
        let cmd = verb_command("stop");
        let _ = ScriptController.execute(invoker, cmd.as_str(), None);
        Ok(())
    }

    /// Fully quits the player application.
    pub fn quit<I: ProcessInvoker>(invoker: &I) -> (r: Result<(), Error>)
        ensures
            r == Ok::<(), Error>(()),
    {
        let cmd = verb_command("quit");
        let _ = ScriptController.execute(invoker, cmd.as_str(), None);
        Ok(())
    }

    /// Opens the player application.
    pub fn run<I: ProcessInvoker>(invoker: &I) -> (r: Result<(), Error>)
        ensures
            r == Ok::<(), Error>(()),
    {
        let cmd = verb_command("run");
        let _ = ScriptController.execute(invoker, cmd.as_str(), None);
        Ok(())
    }
}

/// The song repeat mode a caller may ask for.
#[derive(Clone, Copy, Debug, PartialEq, Eq, Structural)]
pub enum SongRepeatMode {
    OFF,
    ONE,
    ALL,
}

impl SongRepeatMode {
    /// The lowercase tag the player knows this mode by.
    pub open spec fn spec_name(self) -> Seq<char> {
        match self {
            SongRepeatMode::OFF => "off"@,
            SongRepeatMode::ONE => "one"@,
            SongRepeatMode::ALL => "all"@,
        }
    }

    /// The lowercase tag the player knows this mode by.
    pub fn as_str(&self) -> (r: &'static str)
        ensures
            r@ == self.spec_name(),
    {
        match self {
            SongRepeatMode::OFF => "off",
            SongRepeatMode::ONE => "one",
            SongRepeatMode::ALL => "all",
        }
    }
}

/// The closed vocabulary of argument-free player verbs.
#[derive(Clone, Copy, Debug, PartialEq, Eq, Structural)]
pub enum AppCommands {
    /// Quit the application.
    QUIT,
    /// Open the application.
    RUN,
    /// Play the current track.
    PLAY,
    /// Pause playback.
    PAUSE,
    /// Disable fast forward and rewind and resume playback.
    RESUME,
    /// Reposition to the beginning of the current track, or go to the
    /// previous track if already at its start.
    BACKTRACK,
    /// Skip forward in a playing track.
    FASTFORWARD,
    /// Advance to the next track in the current playlist.
    NEXTTRACK,
    /// Toggle between playing and paused.
    PLAYPAUSE,
    /// Return to the previous track in the current playlist.
    PREVIOUSTRACK,
    /// Skip backwards in a playing track.
    REWIND,
    /// Stop playback.
    STOP,
}

impl AppCommands {
    /// The verb the player knows this command by.
    pub open spec fn spec_name(self) -> Seq<char> {
        match self {
            AppCommands::QUIT => "quit"@,
            AppCommands::RUN => "run"@,
            AppCommands::PLAY => "play"@,
            AppCommands::PAUSE => "pause"@,
            AppCommands::RESUME => "resume"@,
            AppCommands::BACKTRACK => "backTrack"@,
            AppCommands::FASTFORWARD => "fastForward"@,
            AppCommands::NEXTTRACK => "nextTrack"@,
            AppCommands::PLAYPAUSE => "playpause"@,
            AppCommands::PREVIOUSTRACK => "previousTrack"@,
            AppCommands::REWIND => "rewind"@,
            AppCommands::STOP => "stop"@,
        }
    }

    /// The verb the player knows this command by.
    pub fn as_str(&self) -> (r: &'static str)
        ensures
            r@ == self.spec_name(),
    {
        match self {
            AppCommands::QUIT => "quit",
            AppCommands::RUN => "run",
            AppCommands::PLAY => "play",
            AppCommands::PAUSE => "pause",
            AppCommands::RESUME => "resume",
            AppCommands::BACKTRACK => "backTrack",
            AppCommands::FASTFORWARD => "fastForward",
            AppCommands::NEXTTRACK => "nextTrack",
            AppCommands::PLAYPAUSE => "playpause",
            AppCommands::PREVIOUSTRACK => "previousTrack",
            AppCommands::REWIND => "rewind",
            AppCommands::STOP => "stop",
        }
    }
}

} // verus!
