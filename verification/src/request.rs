use vstd::prelude::*;

verus! {

/// The closed set of data-request kinds the script dispatcher understands.
/// The kind's name is the `param_type` tag of the parameter payload.
#[derive(Clone, Copy, Debug, PartialEq, Eq, Structural)]
pub enum ParamType {
    AllTracks,
    CurrentTrack,
    PlaylistById,
    PlaylistTracks,
    ApplicationData,
    SearchInPlaylist,
    Artworks,
}

impl ParamType {
    /// The tag this kind carries in the parameter payload.
    pub open spec fn spec_name(self) -> Seq<char> {
        match self {
            ParamType::AllTracks => "allTracks"@,
            ParamType::CurrentTrack => "currentTrack"@,
            ParamType::PlaylistById => "playlistById"@,
            ParamType::PlaylistTracks => "playlistTracks"@,
            ParamType::ApplicationData => "applicationData"@,
            ParamType::SearchInPlaylist => "searchInPlaylist"@,
            ParamType::Artworks => "artworks"@,
        }
    }

    /// The tag this kind carries in the parameter payload.
    pub fn as_str(&self) -> (r: &'static str)
        ensures
            r@ == self.spec_name(),
    {
        match self {
            ParamType::AllTracks => "allTracks",
            ParamType::CurrentTrack => "currentTrack",
            ParamType::PlaylistById => "playlistById",
            ParamType::PlaylistTracks => "playlistTracks",
            ParamType::ApplicationData => "applicationData",
            ParamType::SearchInPlaylist => "searchInPlaylist",
            ParamType::Artworks => "artworks",
        }
    }

    /// Whether this kind semantically needs a target identifier.
    pub open spec fn requires_id(self) -> bool {
        match self {
            ParamType::PlaylistById => true,
            ParamType::PlaylistTracks => true,
            ParamType::Artworks => true,
            ParamType::SearchInPlaylist => true,
            _ => false,
        }
    }

    /// Whether this kind carries a free-text query.
    pub open spec fn takes_query(self) -> bool {
        self is SearchInPlaylist
    }
}

/// An abstract, kind-tagged description of what data is wanted, decoupled
/// from the literal script text. Immutable once constructed; the
/// constructors below are the only way to build one, and each establishes
/// [`LogicalRequest::wf`].
pub struct LogicalRequest {
    /// What is asked for.
    pub kind: ParamType,
    /// The target identifier, present exactly when the kind requires one.
    pub id: Option<i32>,
    /// The free-text query, present exactly when the kind takes one.
    pub query: Option<String>,
}

impl LogicalRequest {
    /// The identifier is present if and only if the kind requires one, and
    /// likewise for the query.
    pub open spec fn wf(self) -> bool {
        &&& self.id is Some <==> self.kind.requires_id()
        &&& self.query is Some <==> self.kind.takes_query()
    }

    /// A request for every track of the library.
    pub fn all_tracks() -> (r: LogicalRequest)
        ensures
            r.wf(),
            r.kind == ParamType::AllTracks,
    {
        LogicalRequest { kind: ParamType::AllTracks, id: None, query: None }
    }

    /// A request for the currently playing track.
    pub fn current_track() -> (r: LogicalRequest)
        ensures
            r.wf(),
            r.kind == ParamType::CurrentTrack,
    {
        LogicalRequest { kind: ParamType::CurrentTrack, id: None, query: None }
    }

    /// A request for the player application's state.
    pub fn application_data() -> (r: LogicalRequest)
        ensures
            r.wf(),
            r.kind == ParamType::ApplicationData,
    {
        LogicalRequest { kind: ParamType::ApplicationData, id: None, query: None }
    }

    /// A request for the playlist with the given id.
    pub fn playlist_by_id(id: i32) -> (r: LogicalRequest)
        ensures
            r.wf(),
            r.kind == ParamType::PlaylistById,
            r.id == Some(id),
    {
        LogicalRequest { kind: ParamType::PlaylistById, id: Some(id), query: None }
    }

    /// A request for the tracks of the playlist with the given id.
    pub fn playlist_tracks(id: i32) -> (r: LogicalRequest)
        ensures
            r.wf(),
            r.kind == ParamType::PlaylistTracks,
            r.id == Some(id),
    {
        LogicalRequest { kind: ParamType::PlaylistTracks, id: Some(id), query: None }
    }

    /// A request for the artworks of the track with the given id.
    pub fn artworks(id: i32) -> (r: LogicalRequest)
        ensures
            r.wf(),
            r.kind == ParamType::Artworks,
            r.id == Some(id),
    {
        LogicalRequest { kind: ParamType::Artworks, id: Some(id), query: None }
    }

    /// A request to search the playlist with the given id for tracks
    /// matching the query.
    pub fn search_in_playlist(id: i32, query: String) -> (r: LogicalRequest)
        ensures
            r.wf(),
            r.kind == ParamType::SearchInPlaylist,
            r.id == Some(id),
            r.query matches Some(q) && q@ == query@,
    {
        LogicalRequest { kind: ParamType::SearchInPlaylist, id: Some(id), query: Some(query) }
    }
}

} // verus!
