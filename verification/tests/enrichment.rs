//! Tests of the enrichment resolver: the fallback chain, the accept gate,
//! the URL builder, and the cached outcome on a track record.

use apple_music::EnrichmentQuery;
use apple_music::EnrichmentStage;
use apple_music::EnrichmentState;
use apple_music::EnrichmentUrls;
use apple_music::ResolveStep;
use apple_music::resolve_step;
use apple_music::stage_query_url;

fn query(title: &str, album: &str, artist: &str) -> EnrichmentQuery {
    EnrichmentQuery {
        title: title.to_string(),
        album: album.to_string(),
        artist: artist.to_string(),
    }
}

fn response_body(entries: &[(&str, &str, &str)]) -> Vec<u8> {
    // Each entry: (trackName, artistName, artworkUrl100); trackViewUrl is
    // derived from the artwork URL for readability.
    let mut s = String::new();
    s.push_str("{\"resultCount\":");
    s.push_str(&entries.len().to_string());
    s.push_str(",\"results\":[");
    for (i, (track, artist, art)) in entries.iter().enumerate() {
        if i > 0 {
            s.push(',');
        }
        s.push_str("{\"wrapperType\":\"track\",\"trackName\":\"");
        s.push_str(track);
        s.push_str("\",\"artistName\":\"");
        s.push_str(artist);
        s.push_str("\",\"collectionName\":\"Some Album\",\"trackCensoredName\":\"");
        s.push_str(track);
        s.push_str("\",\"artworkUrl100\":\"");
        s.push_str(art);
        s.push_str("\",\"trackViewUrl\":\"");
        s.push_str(art);
        s.push_str("/view\"}");
    }
    s.push_str("]}");
    s.into_bytes()
}

#[test]
fn single_hit_is_accepted_unconditionally() {
    // The single hit does not even match the query names; it is accepted
    // anyway.
    let q = query("Song A", "Album A", "Artist A");
    let body = response_body(&[("Completely Different", "Someone Else", "https://img/100x100")]);
    let step = resolve_step(&q, EnrichmentStage::ByTitle, Some(&body));
    match step {
        ResolveStep::Finished(Some(urls)) => {
            assert_eq!(urls.artwork_url.as_deref(), Some("https://img/100x100"));
            assert_eq!(urls.resource_url.as_deref(), Some("https://img/100x100/view"));
        }
        _ => panic!("a single hit must finish the chain"),
    }
}

#[test]
fn among_three_hits_the_case_insensitive_match_wins() {
    let q = query("Song A", "Album A", "Artist A");
    let body = response_body(&[
        ("Song A (Remix)", "Artist A", "https://img/1"),
        ("SONG a", "artist a", "https://img/2"),
        ("Song A", "Artist A", "https://img/3"),
    ]);
    // The second entry already matches title and artist up to case; the
    // third is ignored even though it matches literally.
    let step = resolve_step(&q, EnrichmentStage::ByTitle, Some(&body));
    match step {
        ResolveStep::Finished(Some(urls)) => {
            assert_eq!(urls.artwork_url.as_deref(), Some("https://img/2"));
            assert_eq!(urls.resource_url.as_deref(), Some("https://img/2/view"));
        }
        _ => panic!("the matching hit must finish the chain"),
    }
}

#[test]
fn several_hits_without_a_match_fall_through() {
    let q = query("Song A", "Album A", "Artist A");
    let body = response_body(&[
        ("Other Song", "Other Artist", "https://img/1"),
        ("Another Song", "Another Artist", "https://img/2"),
    ]);
    let step = resolve_step(&q, EnrichmentStage::ByTitle, Some(&body));
    assert!(matches!(step, ResolveStep::Continue(EnrichmentStage::ByAlbum)));
}

#[test]
fn zero_results_at_every_stage_resolve_to_no_result() {
    let q = query("Song A", "Album A", "Artist A");
    let empty = response_body(&[]);
    let s1 = resolve_step(&q, EnrichmentStage::ByTitle, Some(&empty));
    assert!(matches!(s1, ResolveStep::Continue(EnrichmentStage::ByAlbum)));
    let s2 = resolve_step(&q, EnrichmentStage::ByAlbum, Some(&empty));
    assert!(matches!(s2, ResolveStep::Continue(EnrichmentStage::ByArtist)));
    let s3 = resolve_step(&q, EnrichmentStage::ByArtist, Some(&empty));
    assert!(matches!(s3, ResolveStep::Finished(None)));
}

#[test]
fn network_and_parse_failures_only_move_the_chain_forward() {
    let q = query("Song A", "Album A", "Artist A");
    let s1 = resolve_step(&q, EnrichmentStage::ByTitle, None);
    assert!(matches!(s1, ResolveStep::Continue(EnrichmentStage::ByAlbum)));
    let garbage = b"<html>error</html>".to_vec();
    let s2 = resolve_step(&q, EnrichmentStage::ByAlbum, Some(&garbage));
    assert!(matches!(s2, ResolveStep::Continue(EnrichmentStage::ByArtist)));
    let s3 = resolve_step(&q, EnrichmentStage::ByArtist, None);
    assert!(matches!(s3, ResolveStep::Finished(None)));
}

#[test]
fn stage_urls_query_the_fixed_endpoint_with_the_encoded_term() {
    let q = query("Hello World", "Greatest Hits!", "Boney M.");
    assert_eq!(
        stage_query_url(&q, EnrichmentStage::ByTitle),
        "https://itunes.apple.com/search?term=Hello%20World&entity=song&limit=200"
    );
    assert_eq!(
        stage_query_url(&q, EnrichmentStage::ByAlbum),
        "https://itunes.apple.com/search?term=Greatest%20Hits%21&entity=song&attribute=albumTerm&limit=200"
    );
    assert_eq!(
        stage_query_url(&q, EnrichmentStage::ByArtist),
        "https://itunes.apple.com/search?term=Boney%20M.&entity=song&limit=200"
    );
}

#[test]
fn stage_urls_percent_encode_multibyte_text() {
    let q = query("caf\u{e9}", "", "");
    assert_eq!(
        stage_query_url(&q, EnrichmentStage::ByTitle),
        "https://itunes.apple.com/search?term=caf%c3%a9&entity=song&limit=200"
    );
}

/// A tiny driver over the chain, as an embedding program would run it,
/// counting how many fetches it performs.
fn drive_chain<F>(track: &mut apple_music::Track, fetch: &mut F)
where
    F: FnMut(&str) -> Option<Vec<u8>>,
{
    if !track.enrichment_pending() {
        return;
    }
    let q = track.enrichment_query();
    let mut stage = EnrichmentStage::ByTitle;
    loop {
        let url = stage_query_url(&q, stage);
        let body = fetch(&url);
        match resolve_step(&q, stage, body.as_ref()) {
            ResolveStep::Continue(next) => stage = next,
            ResolveStep::Finished(outcome) => {
                track.record_enrichment(outcome);
                return;
            }
        }
    }
}

fn decoded_track() -> apple_music::Track {
    let json = "{\"class\":\"fileTrack\",\"id\":1,\"index\":1,\"name\":\"Song A\",\
        \"persistentID\":\"A\",\"album\":\"Album A\",\"albumArtist\":\"Artist A\",\
        \"albumDisliked\":false,\"albumLoved\":false,\"albumRating\":null,\
        \"albumRatingKind\":null,\"artworks\":null,\"bitRate\":null,\"bookmark\":0,\
        \"bookmarkable\":false,\"bpm\":0,\"category\":\"\",\"cloudStatus\":null,\
        \"comment\":\"\",\"compilation\":false,\"composer\":\"\",\"databaseID\":1,\
        \"dateAdded\":\"\",\"description\":\"\",\"disliked\":false,\
        \"downloaderAppleID\":null,\"downloaderName\":null,\"duration\":10,\
        \"enabled\":true,\"episodeID\":null,\"episodeNumber\":0,\"eq\":\"\",\
        \"finish\":10,\"gapless\":null,\"genre\":\"\",\"grouping\":\"\",\"kind\":null,\
        \"longDescription\":null,\"loved\":false,\"lyrics\":null,\"mediaKind\":\"song\",\
        \"modificationDate\":null,\"movement\":null,\"movementCount\":0,\
        \"movementNumber\":0,\"playedCount\":0,\"playedDate\":null,\
        \"purchaserAppleID\":null,\"purchaserName\":null,\"rating\":0,\
        \"ratingKind\":null,\"releaseDate\":\"\",\"sampleRate\":null,\
        \"seasonNumber\":null,\"shufflable\":true,\"skippedCount\":0,\
        \"skippedDate\":null,\"show\":null,\"sortAlbum\":null,\"sortArtist\":null,\
        \"sortAlbumArtist\":null,\"sortName\":null,\"sortComposer\":null,\
        \"sortShow\":null,\"size\":null,\"start\":0,\"time\":\"0:10\",\"trackCount\":1,\
        \"trackNumber\":1,\"unplayed\":false,\"volumeAdjustment\":0,\"work\":null,\
        \"year\":2020}";
    let value = apple_music::parse_json(json).expect("the fixture is valid JSON");
    <apple_music::Track as apple_music::JsonRecord>::from_json(&value)
        .expect("the fixture fits the track schema")
}

#[test]
fn enrichment_is_cached_and_never_fetched_twice() {
    let mut track = decoded_track();
    assert!(track.enrichment_pending());
    assert!(track.artwork_url().is_none());

    let fetches = std::cell::Cell::new(0usize);
    let body = response_body(&[("Song A", "Artist A", "https://img/a")]);
    let mut fetch = |_url: &str| {
        fetches.set(fetches.get() + 1);
        Some(body.clone())
    };
    drive_chain(&mut track, &mut fetch);
    assert_eq!(fetches.get(), 1);
    assert_eq!(track.artwork_url().map(|s| s.as_str()), Some("https://img/a"));
    assert_eq!(track.resource_url().map(|s| s.as_str()), Some("https://img/a/view"));

    // A second access reads the identical cached value and performs no
    // further fetch.
    drive_chain(&mut track, &mut fetch);
    assert_eq!(fetches.get(), 1);
    assert_eq!(track.artwork_url().map(|s| s.as_str()), Some("https://img/a"));
}

#[test]
fn a_resolved_absence_is_terminal_and_not_reattempted() {
    let mut track = decoded_track();
    let fetches = std::cell::Cell::new(0usize);
    let mut fetch = |_url: &str| {
        fetches.set(fetches.get() + 1);
        None
    };
    drive_chain(&mut track, &mut fetch);
    // All three stages were tried once, then the absence was cached.
    assert_eq!(fetches.get(), 3);
    assert!(!track.enrichment_pending());
    assert!(track.artwork_url().is_none());
    assert!(matches!(track.enrichment, EnrichmentState::ConfirmedAbsent));

    drive_chain(&mut track, &mut fetch);
    assert_eq!(fetches.get(), 3);
}

#[test]
fn recording_an_outcome_overwrites_only_the_enrichment_state() {
    let mut track = decoded_track();
    let name_before = track.name.clone();
    track.record_enrichment(Some(EnrichmentUrls {
        artwork_url: Some("https://img/x".to_string()),
        resource_url: None,
    }));
    assert_eq!(track.name, name_before);
    assert_eq!(track.artwork_url().map(|s| s.as_str()), Some("https://img/x"));
    assert!(track.resource_url().is_none());
}
