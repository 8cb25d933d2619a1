//! The metadata enrichment resolver.
//!
//! Given the sparse identity of a track (title, album and artist strings),
//! the resolver queries a remote free-text search index and disambiguates
//! among fuzzy matches with a fixed fallback chain: query by title, then by
//! album, then by artist, accepting a single hit unconditionally and
//! otherwise the first hit whose names equal the source's up to ASCII
//! case. Enrichment is best-effort: every network or parse failure only
//! moves the chain forward, and an exhausted chain resolves to "no result"
//! rather than an error.
//!
//! This crate performs no network transport. The caller drives the chain:
//! [`stage_query_url`] says what to fetch for a stage, and [`resolve_step`]
//! decides, from the response bytes (or their absence), whether a stage
//! resolved the query or which stage to try next.

use vstd::prelude::*;

use crate::json::JsonModel;
use crate::json::JsonRecord;
use crate::json::JsonValue;
use crate::json::get_i64;
use crate::json::get_rec;
use crate::json::get_string_opt;
use crate::json::int_field;
use crate::json::int_field_ok;
use crate::json::model_fields;
use crate::json::obj_lookup;
use crate::json::opt_str_field;
use crate::json::opt_str_field_ok;
use crate::json::opt_str_matches;
use crate::json::rec_field_matches;
use crate::json::rec_field_ok;
use crate::text::eq_ignore_case;
use crate::text::str_eq_ignore_case;
use vstd::string::StrSliceExecFns;

verus! {

/// The sparse identity a record offers for enrichment: three free-text
/// names. Ephemeral; built only when enrichment is asked for.
pub struct EnrichmentQuery {
    /// The track title.
    pub title: String,
    /// The album name.
    pub album: String,
    /// The artist name.
    pub artist: String,
}

/// The mathematical content of an [`EnrichmentQuery`].
pub struct QueryModel {
    pub title: Seq<char>,
    pub album: Seq<char>,
    pub artist: Seq<char>,
}

impl View for EnrichmentQuery {
    type V = QueryModel;

    open spec fn view(&self) -> QueryModel {
        QueryModel { title: self.title@, album: self.album@, artist: self.artist@ }
    }
}

/// One entry of a search response: the names the accept gate reads, and
/// the two URLs a resolution yields. Every field is optional; the index
/// omits what it does not know.
pub struct SearchCandidate {
    /// The artist name of the hit.
    pub artist_name: Option<String>,
    /// The track name of the hit.
    pub track_name: Option<String>,
    /// The censored (alternate) track name of the hit.
    pub track_censored_name: Option<String>,
    /// The collection (album) name of the hit.
    pub collection_name: Option<String>,
    /// The artwork URL of the hit.
    pub artwork_url: Option<String>,
    /// The canonical resource URL of the hit.
    pub resource_url: Option<String>,
}

/// The mathematical content of a [`SearchCandidate`].
pub struct CandidateModel {
    pub artist_name: Option<Seq<char>>,
    pub track_name: Option<Seq<char>>,
    pub track_censored_name: Option<Seq<char>>,
    pub collection_name: Option<Seq<char>>,
    pub artwork_url: Option<Seq<char>>,
    pub resource_url: Option<Seq<char>>,
}

/// The view of an optional string.
pub open spec fn opt_view(s: Option<String>) -> Option<Seq<char>> {
    match s {
        Some(x) => Some(x@),
        None => None,
    }
}

impl View for SearchCandidate {
    type V = CandidateModel;

    open spec fn view(&self) -> CandidateModel {
        CandidateModel {
            artist_name: opt_view(self.artist_name),
            track_name: opt_view(self.track_name),
            track_censored_name: opt_view(self.track_censored_name),
            collection_name: opt_view(self.collection_name),
            artwork_url: opt_view(self.artwork_url),
            resource_url: opt_view(self.resource_url),
        }
    }
}

impl JsonRecord for SearchCandidate {
    open spec fn json_ok(v: JsonModel) -> bool {
        &&& v matches JsonModel::Obj(o)
        &&& opt_str_field_ok(o, "artistName"@)
        &&& opt_str_field_ok(o, "trackName"@)
        &&& opt_str_field_ok(o, "trackCensoredName"@)
        &&& opt_str_field_ok(o, "collectionName"@)
        &&& opt_str_field_ok(o, "artworkUrl100"@)
        &&& opt_str_field_ok(o, "trackViewUrl"@)
    }

    open spec fn matches_json(self, v: JsonModel) -> bool {
        &&& v matches JsonModel::Obj(o)
        &&& opt_str_matches(self.artist_name, opt_str_field(o, "artistName"@))
        &&& opt_str_matches(self.track_name, opt_str_field(o, "trackName"@))
        &&& opt_str_matches(self.track_censored_name, opt_str_field(o, "trackCensoredName"@))
        &&& opt_str_matches(self.collection_name, opt_str_field(o, "collectionName"@))
        &&& opt_str_matches(self.artwork_url, opt_str_field(o, "artworkUrl100"@))
        &&& opt_str_matches(self.resource_url, opt_str_field(o, "trackViewUrl"@))
    }

    fn from_json(v: &JsonValue) -> (r: Option<SearchCandidate>) {
        let fields = match v {
            JsonValue::Obj(fields) => fields,
            _ => {
                return None;
            },
        };
        proof {
            assert(v@->Obj_0 =~~= model_fields(fields@));
        }
        let artist_name = match get_string_opt(fields, "artistName") {
            Some(x) => x,
            None => {
                return None;
            },
        };
        let track_name = match get_string_opt(fields, "trackName") {
            Some(x) => x,
            None => {
                return None;
            },
        };
        let track_censored_name = match get_string_opt(fields, "trackCensoredName") {
            Some(x) => x,
            None => {
                return None;
            },
        };
        let collection_name = match get_string_opt(fields, "collectionName") {
            Some(x) => x,
            None => {
                return None;
            },
        };
        let artwork_url = match get_string_opt(fields, "artworkUrl100") {
            Some(x) => x,
            None => {
                return None;
            },
        };
        let resource_url = match get_string_opt(fields, "trackViewUrl") {
            Some(x) => x,
            None => {
                return None;
            },
        };
        Some(
            SearchCandidate {
                artist_name,
                track_name,
                track_censored_name,
                collection_name,
                artwork_url,
                resource_url,
            },
        )
    }
}

/// A whole search response: the hit count the index reports and the hits
/// themselves.
pub struct SearchResponse {
    /// The number of hits the index reports.
    pub result_count: i64,
    /// The hits, in the index's relevance order.
    pub results: Vec<SearchCandidate>,
}

impl JsonRecord for SearchResponse {
    open spec fn json_ok(v: JsonModel) -> bool {
        &&& v matches JsonModel::Obj(o)
        &&& int_field_ok(o, "resultCount"@, i64::MIN as int, i64::MAX as int)
        &&& rec_field_ok::<Vec<SearchCandidate>>(o, "results"@)
    }

    open spec fn matches_json(self, v: JsonModel) -> bool {
        &&& v matches JsonModel::Obj(o)
        &&& self.result_count as int == int_field(o, "resultCount"@)
        &&& rec_field_matches(self.results, o, "results"@)
    }

    fn from_json(v: &JsonValue) -> (r: Option<SearchResponse>) {
        let fields = match v {
            JsonValue::Obj(fields) => fields,
            _ => {
                return None;
            },
        };
        proof {
            assert(v@->Obj_0 =~~= model_fields(fields@));
        }
        let result_count = match get_i64(fields, "resultCount", i64::MIN, i64::MAX) {
            Some(x) => x,
            None => {
                return None;
            },
        };
        let results = match get_rec::<Vec<SearchCandidate>>(fields, "results") {
            Some(x) => x,
            None => {
                return None;
            },
        };
        Some(SearchResponse { result_count, results })
    }
}

/// The models of a sequence of candidates, element by element.
pub open spec fn candidates_model(rs: Seq<SearchCandidate>) -> Seq<CandidateModel> {
    rs.map_values(|c: SearchCandidate| c@)
}

/// The accept gate of the fallback chain: the candidate's track name (or
/// its censored name) equals the source title up to ASCII case, and its
/// artist name equals the source artist (or its collection name the source
/// album) up to ASCII case.
pub open spec fn accepts(q: QueryModel, c: CandidateModel) -> bool {
    &&& ((c.track_name matches Some(t) && eq_ignore_case(t, q.title)) || (c.track_censored_name
        matches Some(t) && eq_ignore_case(t, q.title)))
    &&& ((c.artist_name matches Some(a) && eq_ignore_case(a, q.artist)) || (c.collection_name
        matches Some(n) && eq_ignore_case(n, q.album)))
}

/// The first candidate, in listed order, that the accept gate passes.
pub open spec fn spec_first_match(q: QueryModel, rs: Seq<CandidateModel>) -> Option<CandidateModel>
    decreases rs.len(),
{
    if rs.len() == 0 {
        None
    } else if accepts(q, rs[0]) {
        Some(rs[0])
    } else {
        spec_first_match(q, rs.drop_first())
    }
}

/// What a result list resolves to: a single hit is accepted
/// unconditionally; several hits are scanned with the accept gate; none
/// resolves nothing.
pub open spec fn spec_select(q: QueryModel, rs: Seq<CandidateModel>) -> Option<CandidateModel> {
    if rs.len() == 1 {
        Some(rs[0])
    } else {
        spec_first_match(q, rs)
    }
}

fn accepts_exec(q: &EnrichmentQuery, c: &SearchCandidate) -> (r: bool)
    ensures
        r == accepts(q@, c@),
{
    let title_hit = match &c.track_name {
        Some(t) => str_eq_ignore_case(t.as_str(), q.title.as_str()),
        None => false,
    } || match &c.track_censored_name {
        Some(t) => str_eq_ignore_case(t.as_str(), q.title.as_str()),
        None => false,
    };
    let name_hit = match &c.artist_name {
        Some(a) => str_eq_ignore_case(a.as_str(), q.artist.as_str()),
        None => false,
    } || match &c.collection_name {
        Some(n) => str_eq_ignore_case(n.as_str(), q.album.as_str()),
        None => false,
    };
    title_hit && name_hit
}

/// Picks the candidate a result list resolves to, as an index into the
/// list; the executable mirror of [`spec_select`].
pub fn select_index(q: &EnrichmentQuery, results: &Vec<SearchCandidate>) -> (r: Option<usize>)
    ensures
        match r {
            Some(i) => i < results@.len() && spec_select(q@, candidates_model(results@)) == Some(
                results@[i as int]@,
            ),
            None => spec_select(q@, candidates_model(results@)) is None,
        },
{
    let ghost rs = candidates_model(results@);
    if results.len() == 1 {
        return Some(0);
    }
    proof {
        assert(rs.skip(0) =~= rs);
    }
    let mut i: usize = 0;
    while i < results.len()
        invariant
            i <= results.len(),
            rs == candidates_model(results@),
            spec_first_match(q@, rs) == spec_first_match(q@, rs.skip(i as int)),
        decreases results.len() - i,
    {
        proof {
            assert(rs.skip(i as int)[0] == rs[i as int]);
        }
        if accepts_exec(q, &results[i]) {
            return Some(i);
        }
        proof {
            assert(rs.skip(i as int).drop_first() =~= rs.skip(i + 1));
        }
        i += 1;
    }
    proof {
        assert(rs.skip(i as int).len() == 0);
    }
    None
}

/// The three stages of the fallback chain, in order: query by title, then
/// by album (with an album-scoped attribute filter), then by artist.
#[derive(Clone, Copy, Debug, PartialEq, Eq, Structural)]
pub enum EnrichmentStage {
    ByTitle,
    ByAlbum,
    ByArtist,
}

/// The stage after a stage that resolved nothing; `None` after the last.
pub open spec fn spec_next_stage(stage: EnrichmentStage) -> Option<EnrichmentStage> {
    match stage {
        EnrichmentStage::ByTitle => Some(EnrichmentStage::ByAlbum),
        EnrichmentStage::ByAlbum => Some(EnrichmentStage::ByArtist),
        EnrichmentStage::ByArtist => None,
    }
}

/// The two URLs a resolution yields; either may be missing on the
/// accepted hit.
pub struct EnrichmentUrls {
    /// The artwork URL of the accepted hit.
    pub artwork_url: Option<String>,
    /// The canonical resource URL of the accepted hit.
    pub resource_url: Option<String>,
}

/// The mathematical content of an [`EnrichmentUrls`].
pub struct UrlsModel {
    pub artwork_url: Option<Seq<char>>,
    pub resource_url: Option<Seq<char>>,
}

impl View for EnrichmentUrls {
    type V = UrlsModel;

    open spec fn view(&self) -> UrlsModel {
        UrlsModel { artwork_url: opt_view(self.artwork_url), resource_url: opt_view(self.resource_url) }
    }
}

/// The URLs of a candidate.
pub open spec fn urls_of(c: CandidateModel) -> UrlsModel {
    UrlsModel { artwork_url: c.artwork_url, resource_url: c.resource_url }
}

/// What one step of the chain decided: try the next stage, or stop with
/// the final outcome.
pub enum ResolveStep {
    /// No hit was accepted at this stage; fetch the given stage next.
    Continue(EnrichmentStage),
    /// The chain is finished, with the accepted hit's URLs or nothing.
    Finished(Option<EnrichmentUrls>),
}

/// The mathematical content of a [`ResolveStep`].
pub enum StepModel {
    Continue(EnrichmentStage),
    Finished(Option<UrlsModel>),
}

impl View for ResolveStep {
    type V = StepModel;

    open spec fn view(&self) -> StepModel {
        match self {
            ResolveStep::Continue(stage) => StepModel::Continue(*stage),
            ResolveStep::Finished(u) => StepModel::Finished(
                match u {
                    Some(urls) => Some(urls@),
                    None => None,
                },
            ),
        }
    }
}

/// What a stage decides given the hits it produced (`None` when the fetch
/// or its decoding failed): an accepted hit finishes the chain with its
/// URLs; anything else moves to the next stage, and past the last stage
/// the chain finishes with nothing.
pub open spec fn spec_step(
    q: QueryModel,
    stage: EnrichmentStage,
    results: Option<Seq<CandidateModel>>,
) -> StepModel {
    let selected = match results {
        Some(rs) => spec_select(q, rs),
        None => None,
    };
    match selected {
        Some(c) => StepModel::Finished(Some(urls_of(c))),
        None => match spec_next_stage(stage) {
            Some(s2) => StepModel::Continue(s2),
            None => StepModel::Finished(None),
        },
    }
}

/// The model of one candidate as JSON holds it.
pub open spec fn candidate_of_json(m: JsonModel) -> CandidateModel {
    CandidateModel {
        artist_name: opt_str_field(m->Obj_0, "artistName"@),
        track_name: opt_str_field(m->Obj_0, "trackName"@),
        track_censored_name: opt_str_field(m->Obj_0, "trackCensoredName"@),
        collection_name: opt_str_field(m->Obj_0, "collectionName"@),
        artwork_url: opt_str_field(m->Obj_0, "artworkUrl100"@),
        resource_url: opt_str_field(m->Obj_0, "trackViewUrl"@),
    }
}

/// The models of the hits a response value holds.
pub open spec fn results_of_json(m: JsonModel) -> Seq<CandidateModel> {
    let items = obj_lookup(m->Obj_0, "results"@)->Some_0->Arr_0;
    Seq::new(
        items.len(),
        |i: int|
            if 0 <= i < items.len() {
                candidate_of_json(items[i])
            } else {
                candidate_of_json(JsonModel::Null)
            },
    )
}

/// A decoded candidate holds exactly the model its JSON value denotes.
proof fn lemma_candidate_model(c: SearchCandidate, m: JsonModel)
    requires
        c.matches_json(m),
    ensures
        c@ == candidate_of_json(m),
{
}

/// A decoded response's hits hold exactly the models its JSON value
/// denotes.
proof fn lemma_response_results(resp: SearchResponse, m: JsonModel)
    requires
        resp.matches_json(m),
    ensures
        candidates_model(resp.results@) == results_of_json(m),
{
    let rs = candidates_model(resp.results@);
    let js = results_of_json(m);
    let items = obj_lookup(m->Obj_0, "results"@)->Some_0->Arr_0;
    assert forall|i: int| 0 <= i < rs.len() implies rs[i] == js[i] by {
        assert(resp.results@[i].matches_json(items[i]));
        lemma_candidate_model(resp.results@[i], items[i]);
    }
    assert(rs =~= js);
}

/// The hits the response bytes decode to: the bytes are decoded as UTF-8
/// (lossily), parsed as one JSON text, and held against the response
/// schema; `None` when any of that fails.
pub open spec fn response_results_of(bytes: Seq<u8>) -> Option<Seq<CandidateModel>> {
    match crate::json::sp_text(crate::text::lossy_utf8(bytes)) {
        None => None,
        Some(m) => if <SearchResponse as JsonRecord>::json_ok(m) {
            Some(results_of_json(m))
        } else {
            None
        },
    }
}

/// What one step of the chain decides, as a function of the query, the
/// stage and the raw response bytes (or their absence).
pub open spec fn spec_resolve_step(
    q: QueryModel,
    stage: EnrichmentStage,
    body: Option<Seq<u8>>,
) -> StepModel {
    spec_step(
        q,
        stage,
        match body {
            Some(b) => response_results_of(b),
            None => None,
        },
    )
}

/// Decodes a search response from raw transport bytes; succeeds exactly
/// when the bytes hold one JSON value of the response schema.
pub fn parse_search_response(body: &Vec<u8>) -> (r: Option<SearchResponse>)
    ensures
        match r {
            Some(resp) => response_results_of(body@) == Some(candidates_model(resp.results@)),
            None => response_results_of(body@) is None,
        },
{
    let text = crate::text::bytes_to_string_lossy(body);
    let value = match crate::json::parse_json(text.as_str()) {
        Some(value) => value,
        None => {
            return None;
        },
    };
    match <SearchResponse as JsonRecord>::from_json(&value) {
        Some(resp) => {
            proof {
                lemma_response_results(resp, value@);
            }
            Some(resp)
        },
        None => None,
    }
}

/// Runs one step of the fallback chain on the raw outcome of a stage's
/// fetch: `body` is the response's bytes, or `None` when the fetch itself
/// failed. Exactly [`spec_resolve_step`] decides what happens next.
pub fn resolve_step(q: &EnrichmentQuery, stage: EnrichmentStage, body: Option<&Vec<u8>>) -> (r:
    ResolveStep)
    ensures
        r@ == spec_resolve_step(
            q@,
            stage,
            match body {
                Some(b) => Some(b@),
                None => None,
            },
        ),
{
    let resp = match body {
        Some(b) => parse_search_response(b),
        None => None,
    };
    let selected: Option<EnrichmentUrls> = match &resp {
        Some(rp) => match select_index(q, &rp.results) {
            Some(i) => {
                let c = &rp.results[i];
                let artwork_url = match &c.artwork_url {
                    Some(u) => Some(u.clone()),
                    None => None,
                };
                let resource_url = match &c.resource_url {
                    Some(u) => Some(u.clone()),
                    None => None,
                };
                Some(EnrichmentUrls { artwork_url, resource_url })
            },
            None => None,
        },
        None => None,
    };
    match selected {
        Some(urls) => ResolveStep::Finished(Some(urls)),
        None => match next_stage(stage) {
            Some(s2) => ResolveStep::Continue(s2),
            None => ResolveStep::Finished(None),
        },
    }
}

/// The stage after a stage; the executable mirror of [`spec_next_stage`].
pub fn next_stage(stage: EnrichmentStage) -> (r: Option<EnrichmentStage>)
    ensures
        r == spec_next_stage(stage),
{
    match stage {
        EnrichmentStage::ByTitle => Some(EnrichmentStage::ByAlbum),
        EnrichmentStage::ByAlbum => Some(EnrichmentStage::ByArtist),
        EnrichmentStage::ByArtist => None,
    }
}

/// A chain whose every stage yields no hits resolves to "no result",
/// without error: from the first stage, three empty result lists walk the
/// stages in order and finish with nothing.
pub proof fn lemma_exhausted_chain_resolves_none(q: QueryModel)
    ensures
        spec_step(q, EnrichmentStage::ByTitle, Some(Seq::empty())) == StepModel::Continue(
            EnrichmentStage::ByAlbum,
        ),
        spec_step(q, EnrichmentStage::ByAlbum, Some(Seq::empty())) == StepModel::Continue(
            EnrichmentStage::ByArtist,
        ),
        spec_step(q, EnrichmentStage::ByArtist, Some(Seq::empty())) == StepModel::Finished(
            None,
        ),
{
    assert(spec_select(q, Seq::empty()) is None);
}

/// A failed fetch is treated like an empty stage: it only moves the chain
/// forward, and past the last stage the chain finishes with nothing.
pub proof fn lemma_failed_fetch_continues(q: QueryModel, stage: EnrichmentStage)
    ensures
        spec_resolve_step(q, stage, None) == (match spec_next_stage(stage) {
            Some(s2) => StepModel::Continue(s2),
            None => StepModel::Finished(None),
        }),
{
}

/// The cached enrichment outcome a record carries: distinct states for
/// "never tried", "tried and resolved", and "tried and found nothing", so
/// that a terminal "nothing" is never re-queried.
pub enum EnrichmentState {
    /// Enrichment has not been attempted yet.
    Unresolved,
    /// Enrichment resolved to these URLs.
    Resolved(EnrichmentUrls),
    /// Enrichment was attempted and found nothing; this is terminal.
    ConfirmedAbsent,
}

impl EnrichmentState {
    /// Whether enrichment still has to be attempted. Both `Resolved` and
    /// `ConfirmedAbsent` are terminal: neither is re-queried.
    pub open spec fn spec_pending(self) -> bool {
        self is Unresolved
    }

    /// Whether enrichment still has to be attempted.
    pub fn pending(&self) -> (r: bool)
        ensures
            r == self.spec_pending(),
    {
        match self {
            EnrichmentState::Unresolved => true,
            _ => false,
        }
    }

    /// The state a finished chain's outcome is cached as.
    pub open spec fn spec_of_outcome(outcome: Option<UrlsModel>) -> StepModel {
        StepModel::Finished(outcome)
    }

    /// Caches a finished chain's outcome: a hit as `Resolved`, no hit as
    /// `ConfirmedAbsent`. The result is never pending, so recording an
    /// outcome is what stops further queries.
    pub fn of_outcome(outcome: Option<EnrichmentUrls>) -> (r: EnrichmentState)
        ensures
            !r.spec_pending(),
            match outcome {
                Some(urls) => r matches EnrichmentState::Resolved(u) && u == urls,
                None => r == EnrichmentState::ConfirmedAbsent,
            },
    {
        match outcome {
            Some(urls) => EnrichmentState::Resolved(urls),
            None => EnrichmentState::ConfirmedAbsent,
        }
    }
}

/// A byte that stands for itself in a URL query value.
pub open spec fn unreserved(b: u8) -> bool {
    ||| 48 <= b <= 57
    ||| 65 <= b <= 90
    ||| 97 <= b <= 122
    ||| b == 45
    ||| b == 46
    ||| b == 95
    ||| b == 126
}

/// What one byte becomes in a percent-encoded query value.
pub open spec fn percent_of(b: u8) -> Seq<char> {
    if unreserved(b) {
        seq![b as char]
    } else {
        seq!['%', crate::encoder::hexdig_char((b / 16) as nat), crate::encoder::hexdig_char(
            (b % 16) as nat,
        )]
    }
}

/// A whole byte sequence percent-encoded for use as a URL query value.
pub open spec fn percent_encoded(bs: Seq<u8>) -> Seq<char>
    decreases bs.len(),
{
    if bs.len() == 0 {
        Seq::empty()
    } else {
        percent_encoded(bs.drop_last()) + percent_of(bs.last())
    }
}

/// The search term a stage queries by.
pub open spec fn stage_term(q: QueryModel, stage: EnrichmentStage) -> Seq<char> {
    match stage {
        EnrichmentStage::ByTitle => q.title,
        EnrichmentStage::ByAlbum => q.album,
        EnrichmentStage::ByArtist => q.artist,
    }
}

/// The GET URL a stage fetches: the fixed search endpoint with the
/// percent-encoded term, the song entity, the album-scoped attribute
/// filter on the album stage, and a bounded hit count.
pub open spec fn spec_stage_url(q: QueryModel, stage: EnrichmentStage) -> Seq<char> {
    "https://itunes.apple.com/search?term="@ + percent_encoded(
        vstd::utf8::encode_utf8(stage_term(q, stage)),
    ) + "&entity=song"@ + (if stage is ByAlbum {
        "&attribute=albumTerm"@
    } else {
        Seq::empty()
    }) + "&limit=200"@
}

/// Appends the percent-encoded bytes of `s` to `out`.
fn push_percent_encoded(out: &mut Vec<char>, s: &str)
    ensures
        final(out)@ == old(out)@ + percent_encoded(vstd::utf8::encode_utf8(s@)),
{
    let bs = s.as_bytes_vec();
    let mut i: usize = 0;
    while i < bs.len()
        invariant
            i <= bs.len(),
            bs@ == vstd::utf8::encode_utf8(s@),
            out@ == old(out)@ + percent_encoded(bs@.subrange(0, i as int)),
        decreases bs.len() - i,
    {
        let b = bs[i];
        proof {
            let pre = bs@.subrange(0, i as int);
            let nxt = bs@.subrange(0, i + 1 as int);
            assert(nxt.drop_last() =~= pre);
            assert(nxt.last() == b);
        }
        if (48 <= b && b <= 57) || (65 <= b && b <= 90) || (97 <= b && b <= 122) || b == 45 || b
            == 46 || b == 95 || b == 126 {
            out.push(b as char);
        } else {
            out.push('%');
            out.push(crate::encoder::hexdig_char_exec_u32((b / 16) as u32));
            out.push(crate::encoder::hexdig_char_exec_u32((b % 16) as u32));
        }
        assert(out@ =~= old(out)@ + percent_encoded(bs@.subrange(0, i + 1 as int)));
        i += 1;
    }
    assert(bs@.subrange(0, bs@.len() as int) =~= bs@);
}

/// Builds the GET URL a stage fetches, exactly as [`spec_stage_url`]
/// describes.
pub fn stage_query_url(q: &EnrichmentQuery, stage: EnrichmentStage) -> (r: String)
    ensures
        r@ == spec_stage_url(q@, stage),
{
    let mut out: Vec<char> = Vec::new();
    crate::encoder::push_str_chars(&mut out, "https://itunes.apple.com/search?term=");
    let term: &str = match stage {
        EnrichmentStage::ByTitle => q.title.as_str(),
        EnrichmentStage::ByAlbum => q.album.as_str(),
        EnrichmentStage::ByArtist => q.artist.as_str(),
    };
    push_percent_encoded(&mut out, term);
    crate::encoder::push_str_chars(&mut out, "&entity=song");
    match stage {
        EnrichmentStage::ByAlbum => {
            crate::encoder::push_str_chars(&mut out, "&attribute=albumTerm");
        },
        _ => {},
    }
    crate::encoder::push_str_chars(&mut out, "&limit=200");
    proof {
        assert(out@ =~= spec_stage_url(q@, stage));
    }
    crate::text::char_vec_to_string(&out)
}

/// A stage with exactly one hit accepts it unconditionally, whatever its
/// names, and finishes the chain with that hit's URLs.
pub proof fn lemma_single_hit_accepted(q: QueryModel, stage: EnrichmentStage, c: CandidateModel)
    ensures
        spec_select(q, seq![c]) == Some(c),
        spec_step(q, stage, Some(seq![c])) == StepModel::Finished(Some(urls_of(c))),
{
}

proof fn lemma_first_match_at(q: QueryModel, rs: Seq<CandidateModel>, a: int)
    requires
        0 <= a < rs.len(),
        accepts(q, rs[a]),
        forall|j: int| 0 <= j < a ==> !accepts(q, #[trigger] rs[j]),
    ensures
        spec_first_match(q, rs) == Some(rs[a]),
    decreases a,
{
    if a > 0 {
        let rest = rs.drop_first();
        assert forall|j: int| 0 <= j < a - 1 implies !accepts(q, #[trigger] rest[j]) by {
            assert(rest[j] == rs[j + 1]);
        }
        assert(rest[a - 1] == rs[a]);
        lemma_first_match_at(q, rest, a - 1);
    }
}

/// A stage with several hits selects the first one the accept gate passes
/// and finishes the chain with its URLs; the hits before it are ignored,
/// and so are the ones after it.
pub proof fn lemma_first_acceptable_hit_selected(
    q: QueryModel,
    stage: EnrichmentStage,
    rs: Seq<CandidateModel>,
    a: int,
)
    requires
        rs.len() != 1,
        0 <= a < rs.len(),
        accepts(q, rs[a]),
        forall|j: int| 0 <= j < a ==> !accepts(q, #[trigger] rs[j]),
    ensures
        spec_select(q, rs) == Some(rs[a]),
        spec_step(q, stage, Some(rs)) == StepModel::Finished(Some(urls_of(rs[a]))),
{
    lemma_first_match_at(q, rs, a);
}

} // verus!
