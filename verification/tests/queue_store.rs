use spotifm::db::SpotifyDatabase;
use spotifm::state::SpotifyState;
use spotifm::track::SpotifyTrack;
use spotifm::SpotifmError;

fn track(id: &str) -> SpotifyTrack {
    SpotifyTrack::new(
        id.to_string(),
        format!("title of {}", id),
        vec![format!("artist of {}", id)],
    )
}

fn db_with(ids: &[&str]) -> SpotifyDatabase {
    let mut db = SpotifyDatabase::new();
    for id in ids {
        db.add_track(track(id)).unwrap();
    }
    db
}

fn ids_of(state: &SpotifyState) -> Vec<String> {
    state.queue.iter().map(|t| t.id.clone()).collect()
}

#[test]
fn empty_queue_current_track_fails() {
    let db = SpotifyDatabase::new();
    assert_eq!(db.len(), 0);
    assert_eq!(db.current_track().unwrap_err(), SpotifmError::EmptyQueue);
    assert_eq!(db.next_track().unwrap_err(), SpotifmError::EmptyQueue);
    assert_eq!(db.prev_track().unwrap_err(), SpotifmError::EmptyQueue);
}

#[test]
fn empty_queue_mutations() {
    let mut db = SpotifyDatabase::new();
    assert_eq!(
        db.queue_track(track("D")).unwrap_err(),
        SpotifmError::EmptyQueue
    );
    assert_eq!(db.shuffle().unwrap_err(), SpotifmError::EmptyQueue);
    // advancing an empty queue is a controlled no-op
    db.advance_track().unwrap();
    assert_eq!(db.len(), 0);
}

#[test]
fn add_track_appends_at_tail() {
    let db = db_with(&["A", "B", "C"]);
    assert_eq!(db.len(), 3);
    let state = db.read().unwrap();
    assert_eq!(ids_of(&state), vec!["A", "B", "C"]);
    assert_eq!(state.queue_position, 0);
}

#[test]
fn advance_track_wraps() {
    // Scenario: queue [A,B,C] at position 0; three advances give 1, 2, 0.
    let mut db = db_with(&["A", "B", "C"]);
    let mut positions = Vec::new();
    for _ in 0..3 {
        db.advance_track().unwrap();
        positions.push(db.read().unwrap().queue_position);
    }
    assert_eq!(positions, vec![1, 2, 0]);
}

#[test]
fn next_track_wraps_to_front() {
    let mut db = db_with(&["A", "B", "C"]);
    db.advance_track().unwrap();
    db.advance_track().unwrap();
    // current is C, the last index: the lookahead wraps to A
    assert_eq!(db.current_track().unwrap().id, "C");
    assert_eq!(db.next_track().unwrap().id, "A");
    // and the lookahead does not move the cursor
    assert_eq!(db.read().unwrap().queue_position, 2);
}

#[test]
fn prev_track_wraps_to_back() {
    let db = db_with(&["A", "B", "C"]);
    assert_eq!(db.prev_track().unwrap().id, "C");
}

#[test]
fn queue_track_inserts_after_current() {
    // Scenario: queue [A,B,C], position 1 (current B); queue_track(D)
    // gives [A,B,D,C] with position still 1.
    let mut db = db_with(&["A", "B", "C"]);
    db.advance_track().unwrap();
    assert_eq!(db.current_track().unwrap().id, "B");
    let state = db.queue_track(track("D")).unwrap();
    assert_eq!(ids_of(&state), vec!["A", "B", "D", "C"]);
    assert_eq!(state.queue_position, 1);
    assert_eq!(db.current_track().unwrap().id, "B");
}

#[test]
fn queue_track_after_last_index() {
    // Scenario: queue [A,B,C], position 2 (current C); queue_track(D)
    // appends after the last index, and the lookahead returns D unwrapped.
    let mut db = db_with(&["A", "B", "C"]);
    db.advance_track().unwrap();
    db.advance_track().unwrap();
    let state = db.queue_track(track("D")).unwrap();
    assert_eq!(ids_of(&state), vec!["A", "B", "C", "D"]);
    assert_eq!(state.queue_position, 2);
    assert_eq!(db.next_track().unwrap().id, "D");
}

#[test]
fn queue_track_moves_existing_entry() {
    // A track already queued elsewhere is moved next to the current one.
    let db_ids = ["A", "B", "C"];
    let mut db = db_with(&db_ids);
    let state = db.queue_track(track("C")).unwrap();
    assert_eq!(ids_of(&state), vec!["A", "C", "B"]);
    assert_eq!(state.queue_position, 0);
    assert_eq!(db.current_track().unwrap().id, "A");
}

#[test]
fn queue_track_replacing_current_resets_cursor() {
    // Queueing the current track's id removes the old entry; the cursor
    // resets to 0 and the new entry lands right after it.
    let mut db = db_with(&["A", "B", "C"]);
    let state = db.queue_track(track("A")).unwrap();
    assert_eq!(ids_of(&state), vec!["B", "A", "C"]);
    assert_eq!(state.queue_position, 0);
    assert_eq!(db.current_track().unwrap().id, "B");
}

#[test]
fn queue_track_into_single_entry_queue() {
    let mut db = db_with(&["A"]);
    let state = db.queue_track(track("A")).unwrap();
    assert_eq!(ids_of(&state), vec!["A"]);
    assert_eq!(state.queue_position, 0);
}

#[test]
fn shuffle_keeps_current_track() {
    // Scenario: queue [A,B,C] with current A; after every shuffle the
    // reported position holds the track equal to A, and the queue is a
    // permutation of the original queue.
    let mut db = db_with(&["A", "B", "C"]);
    for _ in 0..10 {
        let state = db.shuffle().unwrap();
        assert_eq!(state.queue[state.queue_position].id, "A");
        let mut ids = ids_of(&state);
        ids.sort();
        assert_eq!(ids, vec!["A", "B", "C"]);
        assert_eq!(db.current_track().unwrap().id, "A");
    }
}

#[test]
fn read_is_idempotent() {
    let mut db = db_with(&["A", "B", "C"]);
    db.advance_track().unwrap();
    let first = db.read().unwrap();
    let second = db.read().unwrap();
    assert_eq!(first, second);
}

#[test]
fn write_then_read_round_trips() {
    let mut db = SpotifyDatabase::new();
    let state = SpotifyState {
        queue: vec![track("X"), track("Y")],
        queue_position: 1,
    };
    db.write(&state).unwrap();
    let back = db.read().unwrap();
    assert_eq!(back, state);
    assert_eq!(db.current_track().unwrap().id, "Y");
}

#[test]
fn track_new_keeps_metadata() {
    let t = SpotifyTrack::new(
        "someid".to_string(),
        "Some Title".to_string(),
        vec!["First".to_string(), "Second".to_string()],
    );
    assert_eq!(t.id, "someid");
    assert_eq!(t.track, "Some Title");
    assert_eq!(t.artists, vec!["First", "Second"]);
}

#[test]
fn state_new_is_empty() {
    let s = SpotifyState::new();
    assert_eq!(s.queue.len(), 0);
    assert_eq!(s.queue_position, 0);
}
