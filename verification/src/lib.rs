//! Host-side bridge for driving a local Apple Music player through the
//! system scripting interpreter, with typed decoding of the interpreter's
//! JSON output and best-effort metadata enrichment from a remote search
//! index.
//!
//! The crate is organised around two cores:
//!
//! * the scripting bridge: [`LogicalRequest`] values are encoded into a
//!   fixed script body plus a JSON parameter payload, handed to a
//!   [`ProcessInvoker`], and the captured output is decoded back into the
//!   typed records of this crate ([`Track`], [`Playlist`],
//!   [`ApplicationData`]);
//! * the enrichment resolver: a deterministic fallback chain that picks an
//!   artwork and resource URL for a track out of fuzzy search results.
//!
//! Process spawning and network transport are deliberately outside this
//! crate; callers supply them through the [`ProcessInvoker`] trait and by
//! driving the enrichment chain with [`stage_query_url`] and
//! [`resolve_step`].

mod apple_music;
mod application_data;
mod artwork;
mod encoder;
mod enrichment;
mod error;
mod invoker;
mod json;
mod playlist;
mod request;
mod script_controller;
mod text;
mod track;

pub use apple_music::AppCommands;
pub use apple_music::AppleMusic;
pub use apple_music::SongRepeatMode;
pub use application_data::AirplayDevice;
pub use application_data::AirplayDeviceKind;
pub use application_data::ApplicationData;
pub use application_data::Encoder;
pub use application_data::EqPreset;
pub use application_data::PlayerState;
pub use application_data::ShuffleMode;
pub use application_data::SongRepeat;
pub use application_data::Visual;
pub use application_data::airplay_device_kind_from;
pub use application_data::player_state_from;
pub use application_data::shuffle_mode_from;
pub use application_data::song_repeat_from;
pub use artwork::Artwork;
pub use encoder::PayloadModel;
pub use encoder::SCRIPT_SOURCE;
pub use encoder::encode;
pub use encoder::lemma_payload_id_iff_required;
pub use encoder::payload_text;
pub use enrichment::CandidateModel;
pub use enrichment::EnrichmentQuery;
pub use enrichment::EnrichmentStage;
pub use enrichment::EnrichmentState;
pub use enrichment::EnrichmentUrls;
pub use enrichment::QueryModel;
pub use enrichment::ResolveStep;
pub use enrichment::SearchCandidate;
pub use enrichment::SearchResponse;
pub use enrichment::StepModel;
pub use enrichment::UrlsModel;
pub use enrichment::accepts;
pub use enrichment::lemma_exhausted_chain_resolves_none;
pub use enrichment::lemma_first_acceptable_hit_selected;
pub use enrichment::lemma_single_hit_accepted;
pub use enrichment::lemma_failed_fetch_continues;
pub use enrichment::next_stage;
pub use enrichment::parse_search_response;
pub use enrichment::resolve_step;
pub use enrichment::select_index;
pub use enrichment::spec_first_match;
pub use enrichment::spec_next_stage;
pub use enrichment::spec_resolve_step;
pub use enrichment::spec_select;
pub use enrichment::spec_stage_url;
pub use enrichment::spec_step;
pub use enrichment::stage_query_url;
pub use enrichment::urls_of;
pub use error::Error;
pub use invoker::ProcessError;
pub use invoker::ProcessInvoker;
pub use invoker::RawOutput;
pub use json::JsonRecord;
pub use json::JsonValue;
pub use json::parse_json;
pub use playlist::Playlist;
pub use playlist::PlaylistClass;
pub use playlist::SpecialKind;
pub use playlist::playlist_class_from;
pub use playlist::playlist_from_json;
pub use playlist::playlist_json_ok;
pub use playlist::playlist_matches_json;
pub use playlist::special_kind_from;
pub use request::LogicalRequest;
pub use request::ParamType;
pub use script_controller::ScriptController;
pub use script_controller::decode_fails;
pub use script_controller::decodes_to;
pub use script_controller::spec_args;
pub use track::CloudStatus;
pub use track::Kind;
pub use track::MediaKind;
pub use track::Track;
pub use track::TrackKind;
pub use track::cloud_status_from;
pub use track::kind_from;
pub use track::lemma_enrichment_idempotent;
pub use track::media_kind_from;
pub use track::track_kind_from;
