use spotifm::rest::{decide_track_request, TrackRequestDecision};
use spotifm::state::SpotifyState;
use spotifm::track::SpotifyTrack;
use spotifm::uri::{parse_search_kind, parse_uri_kind, split_colon, track_id_from_uri, SpotifyUriKind};
use spotifm::SpotifmError;

fn track(id: &str) -> SpotifyTrack {
    SpotifyTrack::new(id.to_string(), format!("title of {}", id), vec![
        format!("artist of {}", id),
    ])
}

#[test]
fn split_colon_splits_parts() {
    assert_eq!(split_colon("spotify:track:abc123"), vec![
        "spotify", "track", "abc123"
    ]);
    assert_eq!(split_colon("plain"), vec!["plain"]);
    assert_eq!(split_colon(""), vec![""]);
    assert_eq!(split_colon("a::b"), vec!["a", "", "b"]);
}

#[test]
fn parse_uri_kind_recognizes_kinds() {
    assert_eq!(
        parse_uri_kind("spotify:track:abc").unwrap(),
        SpotifyUriKind::Track
    );
    assert_eq!(
        parse_uri_kind("spotify:artist:abc").unwrap(),
        SpotifyUriKind::Artist
    );
    assert_eq!(
        parse_uri_kind("spotify:album:abc").unwrap(),
        SpotifyUriKind::Album
    );
    assert_eq!(
        parse_uri_kind("spotify:playlist:abc").unwrap(),
        SpotifyUriKind::Playlist
    );
}

#[test]
fn parse_uri_kind_rejects_malformed() {
    assert_eq!(
        parse_uri_kind("spotify").unwrap_err(),
        SpotifmError::MalformedUri
    );
    assert_eq!(
        parse_uri_kind("spotify:mixtape:abc").unwrap_err(),
        SpotifmError::MalformedUri
    );
}

#[test]
fn track_id_from_uri_takes_third_part() {
    assert_eq!(track_id_from_uri("spotify:track:abc123").unwrap(), "abc123");
    assert_eq!(
        track_id_from_uri("spotify:track").unwrap_err(),
        SpotifmError::MalformedUri
    );
}

#[test]
fn search_kind_defaults_to_track() {
    assert_eq!(parse_search_kind("album"), SpotifyUriKind::Album);
    assert_eq!(parse_search_kind("playlist"), SpotifyUriKind::Playlist);
    assert_eq!(parse_search_kind("mixtape"), SpotifyUriKind::Track);
}

#[test]
fn request_for_current_track_needs_nothing() {
    let state = SpotifyState { queue: vec![track("A"), track("B")], queue_position: 0 };
    match decide_track_request(&state, &"A".to_string()).unwrap() {
        TrackRequestDecision::AlreadyCurrent(t) => assert_eq!(t.id, "A"),
        other => panic!("unexpected decision: {:?}", other),
    }
}

#[test]
fn request_for_next_track_needs_nothing() {
    let state = SpotifyState { queue: vec![track("A"), track("B")], queue_position: 0 };
    match decide_track_request(&state, &"B".to_string()).unwrap() {
        TrackRequestDecision::AlreadyNext(t) => assert_eq!(t.id, "B"),
        other => panic!("unexpected decision: {:?}", other),
    }
}

#[test]
fn unknown_request_needs_resolution() {
    let state = SpotifyState { queue: vec![track("A"), track("B")], queue_position: 0 };
    assert_eq!(
        decide_track_request(&state, &"Z".to_string()).unwrap(),
        TrackRequestDecision::NeedsResolve
    );
}

#[test]
fn request_against_empty_queue_fails() {
    let state = SpotifyState::new();
    assert_eq!(
        decide_track_request(&state, &"A".to_string()).unwrap_err(),
        SpotifmError::EmptyQueue
    );
}
