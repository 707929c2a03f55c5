//! The queue store: serializes every read and mutation of the queue state as
//! one whole-state transaction against an in-memory database, so a reader
//! never observes a torn combination of queue and cursor.
//!
//! The store holds the state in plain form (one tuple per track); the typed
//! state of [`crate::state`] is rebuilt on every read and flattened on every
//! write, and all queue logic runs on the typed state.

use vstd::prelude::*;

use crate::state::{
    anchor_of, views_of, without_id, SpotifyState,
};
use crate::track::{SpotifyTrack, TrackView};
use crate::SpotifmError;

verus! {

/// The plain form of one track as the backing store keeps it: id, creation
/// timestamp, title, artist names.
pub type TrackRep = (String, u128, String, Vec<String>);

/// The view of one stored track.
pub open spec fn rep_view(r: TrackRep) -> TrackView {
    TrackView { id: r.0@, rid: r.1, track: r.2@, artists: r.3.deep_view() }
}

/// The views of a stored queue, in order.
pub open spec fn reps_view(q: Seq<TrackRep>) -> Seq<TrackView> {
    q.map_values(|r: TrackRep| rep_view(r))
}

/// Owns the in-memory database. Opaque here: its contents are reachable only
/// through [`store_queue`] and [`store_pos`] and the trusted accessors below.
#[verifier::external_body]
pub struct StoreHandle {
    db: rustbreak::MemoryDatabase<(Vec<TrackRep>, usize), rustbreak::deser::Ron>,
}

/// The queue the store currently holds.
pub uninterp spec fn store_queue(h: StoreHandle) -> Seq<TrackRep>;

/// The cursor the store currently holds.
pub uninterp spec fn store_pos(h: StoreHandle) -> usize;

/// Relies on rustbreak's `MemoryDatabase::memory`: it creates an in-memory
/// database holding exactly the data it is given, and its source returns
/// `Ok` unconditionally, so this cannot fail.
#[verifier::external_body]
fn store_new() -> (r: StoreHandle)
    ensures
        store_queue(r) == Seq::<TrackRep>::empty(),
        store_pos(r) == 0,
{
    StoreHandle { db: rustbreak::MemoryDatabase::memory((Vec::new(), 0usize)).unwrap() }
}

/// Relies on rustbreak's `Database::read`: it hands the stored data to the
/// closure (here a plain clone), failing only on a poisoned lock.
#[verifier::external_body]
fn store_read(h: &StoreHandle) -> (r: Result<(Vec<TrackRep>, usize), SpotifmError>)
    ensures
        r matches Ok(p) ==> p.0@ == store_queue(*h) && p.1 == store_pos(*h),
        r matches Err(e) ==> e == SpotifmError::StoreFailure,
{
    match h.db.read(|d| d.clone()) {
        Ok(d) => Ok(d),
        Err(_) => Err(SpotifmError::StoreFailure),
    }
}

/// Relies on rustbreak's `Database::write`: it gives the closure exclusive
/// access to the stored data, which is replaced wholesale here; it fails only
/// on a poisoned lock, before the closure runs, leaving the data untouched.
#[verifier::external_body]
fn store_write(h: &mut StoreHandle, queue: Vec<TrackRep>, pos: usize) -> (r: Result<
    (),
    SpotifmError,
>)
    ensures
        r matches Ok(u) ==> store_queue(*final(h)) == queue@ && store_pos(*final(h)) == pos,
        r matches Err(e) ==> *final(h) == *old(h) && e == SpotifmError::StoreFailure,
{
    match h.db.write(move |d| {
        *d = (queue, pos);
    }) {
        Ok(u) => Ok(u),
        Err(_) => Err(SpotifmError::StoreFailure),
    }
}

/// Flattens one track into its stored form.
fn rep_of_track(t: &SpotifyTrack) -> (r: TrackRep)
    ensures
        rep_view(r) == t@,
{
    let r = (t.id.clone(), t.rid, t.track.clone(), t.artists.clone());
    proof {
        assert(r.3.deep_view() =~= t.artists.deep_view());
        assert(rep_view(r) =~= t@);
    }
    r
}

/// Rebuilds one track from its stored form.
fn track_of_rep(r: TrackRep) -> (t: SpotifyTrack)
    ensures
        t@ == rep_view(r),
{
    SpotifyTrack { id: r.0, rid: r.1, track: r.2, artists: r.3 }
}

/// Flattens a queue into its stored form.
fn reps_of_tracks(tracks: &Vec<SpotifyTrack>) -> (r: Vec<TrackRep>)
    ensures
        reps_view(r@) == views_of(tracks@),
{
    let mut out: Vec<TrackRep> = Vec::new();
    let mut i: usize = 0;
    while i < tracks.len()
        invariant
            i <= tracks.len(),
            reps_view(out@) == views_of(tracks@.take(i as int)),
        decreases tracks.len() - i,
    {
        let rep = rep_of_track(&tracks[i]);
        proof {
            assert(reps_view(out@.push(rep)) =~= reps_view(out@).push(rep_view(rep)));
            assert(views_of(tracks@.take(i + 1)) =~= views_of(tracks@.take(i as int)).push(
                tracks@[i as int]@,
            ));
        }
        out.push(rep);
        i = i + 1;
    }
    proof {
        assert(tracks@.take(tracks@.len() as int) =~= tracks@);
    }
    out
}

/// Rebuilds a queue from its stored form.
fn tracks_of_reps(reps: Vec<TrackRep>) -> (r: Vec<SpotifyTrack>)
    ensures
        views_of(r@) == reps_view(reps@),
{
    let ghost rs = reps@;
    let mut reps = reps;
    let mut out: Vec<SpotifyTrack> = Vec::new();
    while reps.len() > 0
        invariant
            out@.len() <= rs.len(),
            views_of(out@) == reps_view(rs.take(out@.len() as int)),
            reps@ == rs.skip(out@.len() as int),
        decreases reps@.len(),
    {
        let ghost k: int = out@.len() as int;
        let rep = reps.remove(0);
        proof {
            assert(rep == rs[k]);
            assert(rs.skip(k).remove(0) =~= rs.skip(k + 1));
        }
        let t = track_of_rep(rep);
        proof {
            assert(views_of(out@.push(t)) =~= views_of(out@).push(t@));
            assert(reps_view(rs.take(k + 1)) =~= reps_view(rs.take(k)).push(rep_view(rs[k])));
        }
        out.push(t);
    }
    proof {
        assert(rs.take(rs.len() as int) =~= rs);
    }
    out
}

/// The queue store. Owns the backing in-memory database; every operation is
/// one read-modify-write transaction of the whole state.
pub struct SpotifyDatabase {
    store: StoreHandle,
}

impl SpotifyDatabase {
    /// The views of the tracks the store holds, in order.
    pub closed spec fn db_tracks(&self) -> Seq<TrackView> {
        reps_view(store_queue(self.store))
    }

    /// The cursor the store holds.
    pub closed spec fn db_position(&self) -> usize {
        store_pos(self.store)
    }

    /// Cursor validity of the stored state; established by `new` and kept by
    /// every operation.
    pub open spec fn db_wf(&self) -> bool {
        if self.db_tracks().len() == 0 {
            self.db_position() == 0
        } else {
            (self.db_position() as int) < self.db_tracks().len()
        }
    }

    /// Opens a fresh store holding the empty state.
    pub fn new() -> (r: SpotifyDatabase)
        ensures
            r.db_tracks() == Seq::<TrackView>::empty(),
            r.db_position() == 0,
            r.db_wf(),
    {
        let store = store_new();
        proof {
            assert(reps_view(Seq::<TrackRep>::empty()) =~= Seq::<TrackView>::empty());
        }
        SpotifyDatabase { store }
    }

    /// Takes a full snapshot of the stored state.
    pub fn read(&self) -> (r: Result<SpotifyState, SpotifmError>)
        requires
            self.db_wf(),
        ensures
            r matches Ok(st) ==> st.tracks() == self.db_tracks() && st.queue_position
                == self.db_position() && st.wf(),
            r matches Err(e) ==> e == SpotifmError::StoreFailure,
    {
        match store_read(&self.store) {
            Ok((reps, pos)) => {
                let queue = tracks_of_reps(reps);
                Ok(SpotifyState { queue, queue_position: pos })
            },
            Err(e) => Err(e),
        }
    }

    /// Replaces the stored state with `state`, as one transaction.
    pub fn write(&mut self, state: &SpotifyState) -> (r: Result<(), SpotifmError>)
        ensures
            r matches Ok(u) ==> final(self).db_tracks() == state.tracks()
                && final(self).db_position() == state.queue_position
                && (state.wf() ==> final(self).db_wf()),
            r matches Err(e) ==> *final(self) == *old(self) && e == SpotifmError::StoreFailure,
    {
        let reps = reps_of_tracks(&state.queue);
        store_write(&mut self.store, reps, state.queue_position)
    }

    /// The number of queued tracks; degrades to 0 if the store fails.
    pub fn len(&self) -> (r: usize)
        ensures
            r == self.db_tracks().len() || r == 0,
    {
        match store_read(&self.store) {
            Ok((reps, _pos)) => reps.len(),
            Err(_) => 0,
        }
    }

    /// Appends `track` at the tail of the queue; the cursor does not move.
    /// Returns the resulting state.
    pub fn add_track(&mut self, track: SpotifyTrack) -> (r: Result<SpotifyState, SpotifmError>)
        requires
            old(self).db_wf(),
        ensures
            final(self).db_wf(),
            r matches Ok(st) ==> {
                &&& st.tracks() == old(self).db_tracks().push(track@)
                &&& st.queue_position == old(self).db_position()
                &&& st.wf()
                &&& final(self).db_tracks() == st.tracks()
                &&& final(self).db_position() == st.queue_position
            },
            r matches Err(e) ==> *final(self) == *old(self) && e == SpotifmError::StoreFailure,
    {
        match self.read() {
            Ok(mut state) => {
                state.append_track(track);
                match self.write(&state) {
                    Ok(u) => Ok(state),
                    Err(e) => Err(e),
                }
            },
            Err(e) => Err(e),
        }
    }

    /// Removes any prior entry with the same id as `track`, re-anchors the
    /// cursor on the previously current track (by id), and inserts `track`
    /// right after it, so it plays on the very next advance. Fails with
    /// `EmptyQueue` when there is no current track to anchor against.
    pub fn queue_track(&mut self, track: SpotifyTrack) -> (r: Result<SpotifyState, SpotifmError>)
        requires
            old(self).db_wf(),
        ensures
            final(self).db_wf(),
            old(self).db_tracks().len() == 0 ==> r matches Err(e),
            r matches Err(e) ==> e == SpotifmError::EmptyQueue || e == SpotifmError::StoreFailure,
            r matches Err(e) && e == SpotifmError::EmptyQueue ==> old(self).db_tracks().len() == 0,
            r matches Err(e) ==> *final(self) == *old(self),
            r matches Ok(st) ==> {
                let cur_id = old(self).db_tracks()[old(self).db_position() as int].id;
                let kept = without_id(old(self).db_tracks(), track@.id);
                let anchor: int = anchor_of(kept, cur_id);
                let at: int = if kept.len() > 0 {
                    anchor + 1
                } else {
                    0
                };
                &&& old(self).db_tracks().len() > 0
                &&& st.tracks() == kept.insert(at, track@)
                &&& st.queue_position == anchor
                &&& (cur_id != track@.id ==> st.tracks()[st.queue_position as int].id == cur_id)
                &&& (kept.len() > 0 ==> st.tracks()[anchor + 1] == track@)
                &&& st.wf()
                &&& final(self).db_tracks() == st.tracks()
                &&& final(self).db_position() == st.queue_position
            },
    {
        match self.read() {
            Ok(mut state) => {
                match state.queue_track(track) {
                    Ok(u) => {
                        match self.write(&state) {
                            Ok(w) => Ok(state),
                            Err(e) => Err(e),
                        }
                    },
                    Err(e) => Err(e),
                }
            },
            Err(e) => Err(e),
        }
    }

    /// Randomly permutes the queue and relocates the cursor to wherever the
    /// previously current track landed (by id). Fails with `EmptyQueue` when
    /// there is no current track.
    pub fn shuffle(&mut self) -> (r: Result<SpotifyState, SpotifmError>)
        requires
            old(self).db_wf(),
        ensures
            final(self).db_wf(),
            old(self).db_tracks().len() == 0 ==> r matches Err(e),
            r matches Err(e) ==> e == SpotifmError::EmptyQueue || e == SpotifmError::StoreFailure,
            r matches Err(e) && e == SpotifmError::EmptyQueue ==> old(self).db_tracks().len() == 0,
            r matches Err(e) ==> *final(self) == *old(self),
            r matches Ok(st) ==> {
                &&& old(self).db_tracks().len() > 0
                &&& st.tracks().to_multiset() == old(self).db_tracks().to_multiset()
                &&& st.tracks().len() == old(self).db_tracks().len()
                &&& st.tracks()[st.queue_position as int].id == old(self).db_tracks()[old(self).db_position() as int].id
                &&& st.queue_position as int == anchor_of(
                    st.tracks(),
                    old(self).db_tracks()[old(self).db_position() as int].id,
                )
                &&& st.wf()
                &&& final(self).db_tracks() == st.tracks()
                &&& final(self).db_position() == st.queue_position
            },
    {
        match self.read() {
            Ok(mut state) => {
                match state.shuffle() {
                    Ok(u) => {
                        match self.write(&state) {
                            Ok(w) => Ok(state),
                            Err(e) => Err(e),
                        }
                    },
                    Err(e) => Err(e),
                }
            },
            Err(e) => Err(e),
        }
    }

    /// The track under the cursor. Fails with `EmptyQueue` when the queue is
    /// empty.
    pub fn current_track(&self) -> (r: Result<SpotifyTrack, SpotifmError>)
        requires
            self.db_wf(),
        ensures
            r matches Ok(t) ==> self.db_tracks().len() > 0 && t@ == self.db_tracks()[self.db_position() as int],
            r matches Err(e) ==> e == SpotifmError::EmptyQueue || e == SpotifmError::StoreFailure,
            r matches Err(e) && e == SpotifmError::EmptyQueue ==> self.db_tracks().len() == 0,
            self.db_tracks().len() == 0 ==> r matches Err(e),
    {
        match self.read() {
            Ok(state) => state.current_track(),
            Err(e) => Err(e),
        }
    }

    /// The track that would become current after one advance, without moving
    /// the cursor; wraps from the last index to 0.
    pub fn next_track(&self) -> (r: Result<SpotifyTrack, SpotifmError>)
        requires
            self.db_wf(),
        ensures
            r matches Ok(t) ==> self.db_tracks().len() > 0 && t@ == self.db_tracks()[if (
            self.db_position() + 1) as int == self.db_tracks().len() {
                0
            } else {
                self.db_position() + 1
            }],
            r matches Err(e) ==> e == SpotifmError::EmptyQueue || e == SpotifmError::StoreFailure,
            r matches Err(e) && e == SpotifmError::EmptyQueue ==> self.db_tracks().len() == 0,
            self.db_tracks().len() == 0 ==> r matches Err(e),
    {
        match self.read() {
            Ok(state) => state.next_track(),
            Err(e) => Err(e),
        }
    }

    /// The symmetric backward lookahead; wraps from 0 to the last index.
    pub fn prev_track(&self) -> (r: Result<SpotifyTrack, SpotifmError>)
        requires
            self.db_wf(),
        ensures
            r matches Ok(t) ==> self.db_tracks().len() > 0 && t@ == self.db_tracks()[if self.db_position() == 0 {
                self.db_tracks().len() - 1
            } else {
                self.db_position() - 1
            }],
            r matches Err(e) ==> e == SpotifmError::EmptyQueue || e == SpotifmError::StoreFailure,
            r matches Err(e) && e == SpotifmError::EmptyQueue ==> self.db_tracks().len() == 0,
            self.db_tracks().len() == 0 ==> r matches Err(e),
    {
        match self.read() {
            Ok(state) => state.prev_track(),
            Err(e) => Err(e),
        }
    }

    /// Moves the cursor forward by one, wrapping from the last index to 0,
    /// and persists the new state; a controlled no-op on an empty queue.
    pub fn advance_track(&mut self) -> (r: Result<(), SpotifmError>)
        requires
            old(self).db_wf(),
        ensures
            final(self).db_wf(),
            r matches Ok(u) ==> {
                &&& final(self).db_tracks() == old(self).db_tracks()
                &&& (old(self).db_tracks().len() == 0 ==> final(self).db_position() == 0)
                &&& (old(self).db_tracks().len() > 0 ==> final(self).db_position() as int == (if (
                old(self).db_position() + 1) as int == old(self).db_tracks().len() {
                    0int
                } else {
                    old(self).db_position() + 1
                }))
            },
            r matches Err(e) ==> *final(self) == *old(self) && e == SpotifmError::StoreFailure,
    {
        match self.read() {
            Ok(mut state) => {
                state.advance();
                self.write(&state)
            },
            Err(e) => Err(e),
        }
    }
}

/// Idempotent read: two snapshots taken from the same store state, with no
/// mutation in between, are identical in content and cursor.
pub proof fn lemma_read_idempotent(db: SpotifyDatabase, s1: SpotifyState, s2: SpotifyState)
    requires
        s1.tracks() == db.db_tracks(),
        s1.queue_position == db.db_position(),
        s2.tracks() == db.db_tracks(),
        s2.queue_position == db.db_position(),
    ensures
        s1.tracks() == s2.tracks(),
        s1.queue_position == s2.queue_position,
{
}

} // verus!
