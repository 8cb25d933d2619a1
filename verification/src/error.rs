use vstd::prelude::*;
use vstd::string::StringExecFns;

verus! {

/// The failures a bridge operation can report.
///
/// The two transport-level cases are kept distinct on purpose: a caller must
/// be able to tell "the interpreter never ran" ([`Error::LaunchFailed`])
/// apart from "the interpreter answered, but the answer did not match the
/// expected shape" ([`Error::DeserializationFailed`]), since the former is
/// an environment problem and the latter usually a schema drift in the
/// player application.
#[derive(Clone, Copy, Debug, PartialEq, Eq, Structural)]
pub enum Error {
    /// The external interpreter process could not be started at all.
    LaunchFailed,
    /// The interpreter ran, but its output did not parse as the requested
    /// record type.
    DeserializationFailed,
    /// An operation that needs an active playback session found none.
    NotPlaying,
    /// A player command could not be carried out.
    AppCommandFailed,
}

impl Error {
    /// A human-readable description of the failure.
    pub fn message(&self) -> (r: String)
        ensures
            r@ == self.spec_message(),
    {
        match self {
            Error::LaunchFailed => String::from_str("failed to launch the scripting interpreter"),
            Error::DeserializationFailed => String::from_str(
                "failed to deserialize the interpreter's output",
            ),
            Error::NotPlaying => String::from_str("no track is currently playing"),
            Error::AppCommandFailed => String::from_str("failed to execute the player command"),
        }
    }

    /// The text that [`Error::message`] returns for each variant.
    pub open spec fn spec_message(self) -> Seq<char> {
        match self {
            Error::LaunchFailed => "failed to launch the scripting interpreter"@,
            Error::DeserializationFailed => "failed to deserialize the interpreter's output"@,
            Error::NotPlaying => "no track is currently playing"@,
            Error::AppCommandFailed => "failed to execute the player command"@,
        }
    }
}

} // verus!
