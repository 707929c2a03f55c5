//! The queue state: an ordered sequence of tracks plus the cursor that marks
//! the currently playing one, together with the pure transformations that the
//! queue store serializes.
//!
//! The invariants maintained here:
//! - whenever the queue is non-empty, `queue_position` is a valid index;
//! - `advance` and the `next`/`prev` lookaheads wrap around at the ends;
//! - "queue a track to play next" inserts immediately after the current
//!   track, after removing any prior entry with the same id, and the cursor
//!   keeps following the track that was current (located by id) unless that
//!   track itself was replaced.

use vstd::prelude::*;

use crate::track::{SpotifyTrack, TrackView};
use crate::SpotifmError;

verus! {

broadcast use vstd::seq_lib::group_seq_lib_default, vstd::seq_lib::group_to_multiset_ensures;

/// The views of the tracks of a queue, in order.
pub open spec fn views_of(q: Seq<SpotifyTrack>) -> Seq<TrackView> {
    q.map_values(|t: SpotifyTrack| t@)
}

/// The ids of the tracks of a queue, in order.
pub open spec fn ids_of(q: Seq<TrackView>) -> Seq<Seq<char>> {
    q.map_values(|tv: TrackView| tv.id)
}

/// The index of the first track of `q` whose id is `id`, if any.
pub open spec fn first_position_of(q: Seq<TrackView>, id: Seq<char>) -> Option<int> {
    ids_of(q).index_of_first(id)
}

/// What `first_position_of` returns: the first index holding `id`, or `None`
/// when no track of `q` has that id.
pub proof fn lemma_first_position_of(q: Seq<TrackView>, id: Seq<char>)
    ensures
        match first_position_of(q, id) {
            Some(i) => {
                &&& 0 <= i < q.len()
                &&& q[i].id == id
                &&& forall|j: int| 0 <= j < i ==> q[j].id != id
            },
            None => forall|j: int| 0 <= j < q.len() ==> q[j].id != id,
        },
{
    ids_of(q).index_of_first_ensures(id);
    match first_position_of(q, id) {
        Some(i) => {
            assert(ids_of(q)[i] == q[i].id);
            assert forall|j: int| 0 <= j < i implies q[j].id != id by {
                assert(ids_of(q)[j] == q[j].id);
                assert(ids_of(q)[j] != id);
            }
        },
        None => {
            assert forall|j: int| 0 <= j < q.len() implies q[j].id != id by {
                if q[j].id == id {
                    assert(0 <= j < ids_of(q).len() && ids_of(q)[j] == id);
                    assert(ids_of(q).contains(id));
                }
            }
        },
    }
}

/// The tracks of `q` that do not carry the id `id`, in their original order.
pub open spec fn without_id(q: Seq<TrackView>, id: Seq<char>) -> Seq<TrackView> {
    q.filter(|tv: TrackView| tv.id != id)
}

/// Filtering distributes over appending one track at the tail.
proof fn lemma_without_id_push(s: Seq<TrackView>, x: TrackView, id: Seq<char>)
    ensures
        without_id(s.push(x), id) == (if x.id != id {
            without_id(s, id).push(x)
        } else {
            without_id(s, id)
        }),
{
    reveal(Seq::filter);
    assert(s.push(x).drop_last() =~= s);
    assert(s.push(x).last() == x);
}

/// Mapping tracks to their views commutes with insertion.
proof fn lemma_views_of_insert(s: Seq<SpotifyTrack>, at: int, t: SpotifyTrack)
    requires
        0 <= at <= s.len(),
    ensures
        views_of(s.insert(at, t)) =~= views_of(s).insert(at, t@),
{
}

/// Where the cursor re-anchors after a mutation: the first index of `id`
/// among `q`, or 0 when the track with that id is gone.
pub open spec fn anchor_of(q: Seq<TrackView>, id: Seq<char>) -> int {
    match first_position_of(q, id) {
        Some(i) => i,
        None => 0,
    }
}

/// Finds the first track of `queue` whose id equals `id`.
pub fn position_of_id(queue: &Vec<SpotifyTrack>, id: &String) -> (r: Option<usize>)
    ensures
        match r {
            Some(i) => first_position_of(views_of(queue@), id@) == Some(i as int),
            None => first_position_of(views_of(queue@), id@) is None,
        },
{
    let ghost q = views_of(queue@);
    let mut i: usize = 0;
    while i < queue.len()
        invariant
            i <= queue.len(),
            q == views_of(queue@),
            forall|j: int| 0 <= j < i ==> q[j].id != id@,
        decreases queue.len() - i,
    {
        if queue[i].id == *id {
            proof {
                lemma_first_position_of(q, id@);
                assert(q[i as int].id == id@);
                match first_position_of(q, id@) {
                    Some(k) => {
                        assert(k <= i);
                        assert(k >= i);
                    },
                    None => {
                        assert(false);
                    },
                }
            }
            return Some(i);
        }
        i = i + 1;
    }
    proof {
        lemma_first_position_of(q, id@);
        match first_position_of(q, id@) {
            Some(k) => {
                assert(q[k].id == id@);
                assert(false);
            },
            None => {},
        }
    }
    None
}

/// The whole queue-plus-cursor state. Every queue store operation is a pure
/// transformation of one of these values.
#[derive(Debug, PartialEq, Eq)]
pub struct SpotifyState {
    /// The ordered playback queue.
    pub queue: Vec<SpotifyTrack>,
    /// Index of the current track; 0 while the queue is empty.
    pub queue_position: usize,
}

impl SpotifyState {
    /// The mathematical content of the queue: the track views, in order.
    pub open spec fn tracks(&self) -> Seq<TrackView> {
        views_of(self.queue@)
    }

    /// Cursor validity: the position indexes the queue whenever the queue is
    /// non-empty, and rests at 0 while it is empty.
    pub open spec fn wf(&self) -> bool {
        if self.queue@.len() == 0 {
            self.queue_position == 0
        } else {
            (self.queue_position as int) < self.queue@.len()
        }
    }

    /// The view of the current track.
    pub open spec fn current(&self) -> TrackView {
        self.tracks()[self.queue_position as int]
    }

    /// Where the cursor would move on one advance: forward by one, wrapping
    /// from the last index to 0.
    pub open spec fn next_position(&self) -> int {
        if self.queue_position + 1 == self.queue@.len() {
            0
        } else {
            self.queue_position + 1
        }
    }

    /// The backward counterpart: back by one, wrapping from 0 to the last
    /// index.
    pub open spec fn prev_position(&self) -> int {
        if self.queue_position == 0 {
            self.queue@.len() - 1
        } else {
            self.queue_position - 1
        }
    }

    /// The empty state: no tracks, cursor at 0.
    pub fn new() -> (r: SpotifyState)
        ensures
            r.queue@.len() == 0,
            r.queue_position == 0,
            r.wf(),
    {
        SpotifyState { queue: Vec::new(), queue_position: 0 }
    }

    /// The track under the cursor; `EmptyQueue` if there is none.
    pub fn current_track(&self) -> (r: Result<SpotifyTrack, SpotifmError>)
        requires
            self.wf(),
        ensures
            r matches Ok(t) ==> self.queue@.len() > 0 && t@ == self.current(),
            r matches Err(e) ==> self.queue@.len() == 0 && e == SpotifmError::EmptyQueue,
    {
        if self.queue.len() == 0 {
            Err(SpotifmError::EmptyQueue)
        } else {
            Ok(self.queue[self.queue_position].clone())
        }
    }

    /// The track that would become current after one advance, without moving
    /// the cursor; wraps from the last index to 0.
    pub fn next_track(&self) -> (r: Result<SpotifyTrack, SpotifmError>)
        requires
            self.wf(),
        ensures
            r matches Ok(t) ==> self.queue@.len() > 0 && t@ == self.tracks()[self.next_position()],
            r matches Err(e) ==> self.queue@.len() == 0 && e == SpotifmError::EmptyQueue,
            self.queue@.len() > 0 && self.queue_position as int == self.queue@.len() - 1 ==> (
            r matches Ok(t) && t@ == self.tracks()[0]),
    {
        if self.queue.len() == 0 {
            Err(SpotifmError::EmptyQueue)
        } else {
            let next: usize = if self.queue_position + 1 == self.queue.len() {
                0
            } else {
                self.queue_position + 1
            };
            Ok(self.queue[next].clone())
        }
    }

    /// The symmetric backward lookahead; wraps from 0 to the last index.
    pub fn prev_track(&self) -> (r: Result<SpotifyTrack, SpotifmError>)
        requires
            self.wf(),
        ensures
            r matches Ok(t) ==> self.queue@.len() > 0 && t@ == self.tracks()[self.prev_position()],
            r matches Err(e) ==> self.queue@.len() == 0 && e == SpotifmError::EmptyQueue,
            self.queue@.len() > 0 && self.queue_position == 0 ==> (r matches Ok(t) && t@
                == self.tracks()[self.queue@.len() - 1]),
    {
        if self.queue.len() == 0 {
            Err(SpotifmError::EmptyQueue)
        } else {
            let prev: usize = if self.queue_position == 0 {
                self.queue.len() - 1
            } else {
                self.queue_position - 1
            };
            Ok(self.queue[prev].clone())
        }
    }

    /// Moves the cursor forward by one, wrapping from the last index to 0; a
    /// controlled no-op on an empty queue.
    pub fn advance(&mut self)
        requires
            old(self).wf(),
        ensures
            final(self).wf(),
            final(self).queue@ == old(self).queue@,
            old(self).queue@.len() == 0 ==> final(self).queue_position == 0,
            old(self).queue@.len() > 0 ==> final(self).queue_position as int == old(
                self,
            ).next_position(),
            old(self).queue@.len() > 0 && old(self).queue_position as int == old(
                self,
            ).queue@.len() - 1 ==> final(self).queue_position == 0,
    {
        if self.queue.len() == 0 {
            return;
        }
        if self.queue_position + 1 == self.queue.len() {
            self.queue_position = 0;
        } else {
            self.queue_position = self.queue_position + 1;
        }
    }

    /// Appends a track at the tail; the cursor does not move.
    pub fn append_track(&mut self, track: SpotifyTrack)
        requires
            old(self).wf(),
        ensures
            final(self).wf(),
            final(self).queue@ == old(self).queue@.push(track),
            final(self).tracks() =~= old(self).tracks().push(track@),
            final(self).queue_position == old(self).queue_position,
    {
        proof {
            assert(views_of(old(self).queue@.push(track)) =~= old(self).tracks().push(track@));
        }
        self.queue.push(track);
    }

    /// Queues `track` to play next: removes any prior entry with the same id,
    /// re-anchors the cursor on the track that was current before (located by
    /// id; the cursor resets to 0 if that track itself was the one removed),
    /// and inserts `track` immediately after the anchor. Fails with
    /// `EmptyQueue` when there is no current track to anchor against.
    pub fn queue_track(&mut self, track: SpotifyTrack) -> (r: Result<(), SpotifmError>)
        requires
            old(self).wf(),
        ensures
            final(self).wf(),
            old(self).queue@.len() == 0 ==> (r matches Err(e) && e == SpotifmError::EmptyQueue
                && *final(self) == *old(self)),
            old(self).queue@.len() > 0 ==> (r matches Ok(p) && {
                let cur_id = old(self).current().id;
                let kept = without_id(old(self).tracks(), track@.id);
                let anchor: int = anchor_of(kept, cur_id);
                let at: int = if kept.len() > 0 {
                    anchor + 1
                } else {
                    0
                };
                &&& final(self).tracks() == kept.insert(at, track@)
                &&& final(self).queue_position == anchor
                &&& (cur_id != track@.id ==> final(self).current().id == cur_id)
                &&& (kept.len() > 0 ==> final(self).tracks()[anchor + 1] == track@)
            }),
    {
        if self.queue.len() == 0 {
            return Err(SpotifmError::EmptyQueue);
        }
        let current_id: String = self.queue[self.queue_position].id.clone();
        let ghost old_tracks = self.tracks();
        let ghost tid = track@.id;
        let mut kept: Vec<SpotifyTrack> = Vec::new();
        let mut i: usize = 0;
        while i < self.queue.len()
            invariant
                i <= self.queue.len(),
                old_tracks == views_of(self.queue@),
                tid == track@.id,
                views_of(kept@) == without_id(old_tracks.take(i as int), tid),
            decreases self.queue.len() - i,
        {
            proof {
                assert(old_tracks.take(i + 1).drop_last() =~= old_tracks.take(i as int));
                lemma_without_id_push(old_tracks.take(i as int), old_tracks[i as int], tid);
                assert(old_tracks.take(i + 1) =~= old_tracks.take(i as int).push(
                    old_tracks[i as int],
                ));
            }
            let entry = &self.queue[i];
            if !(entry.id == track.id) {
                let copied = entry.clone();
                proof {
                    assert(views_of(kept@.push(copied)) =~= views_of(kept@).push(copied@));
                }
                kept.push(copied);
            }
            i = i + 1;
        }
        proof {
            assert(old_tracks.take(self.queue@.len() as int) =~= old_tracks);
        }
        let ghost kept_seq = views_of(kept@);
        let anchor: usize = match position_of_id(&kept, &current_id) {
            Some(i) => i,
            None => 0,
        };
        proof {
            lemma_first_position_of(kept_seq, current_id@);
        }
        let at: usize = if kept.len() > 0 {
            anchor + 1
        } else {
            0
        };
        proof {
            lemma_views_of_insert(kept@, at as int, track);
            if old(self).current().id != tid {
                let cur = old(self).current();
                assert(old_tracks[old(self).queue_position as int] == cur);
                old_tracks.lemma_filter_contains(|tv: TrackView| tv.id != tid,
                    old(self).queue_position as int);
                assert(kept_seq.contains(cur));
                let w = choose|w: int| 0 <= w < kept_seq.len() && kept_seq[w] == cur;
                if first_position_of(kept_seq, current_id@) is None {
                    assert(kept_seq[w].id == current_id@);
                    assert(false);
                }
            }
        }
        kept.insert(at, track);
        self.queue = kept;
        self.queue_position = anchor;
        Ok(())
    }

    /// Randomly permutes the queue, then relocates the cursor to wherever the
    /// previously current track landed (located by id; the first occurrence
    /// wins). Fails with `EmptyQueue` when there is no current track.
    pub fn shuffle(&mut self) -> (r: Result<(), SpotifmError>)
        requires
            old(self).wf(),
        ensures
            final(self).wf(),
            old(self).queue@.len() == 0 ==> (r matches Err(e) && e == SpotifmError::EmptyQueue
                && *final(self) == *old(self)),
            old(self).queue@.len() > 0 ==> (r matches Ok(p) && {
                &&& final(self).tracks().to_multiset() == old(self).tracks().to_multiset()
                &&& final(self).queue@.len() == old(self).queue@.len()
                &&& final(self).current().id == old(self).current().id
                &&& final(self).queue_position as int == anchor_of(
                    final(self).tracks(),
                    old(self).current().id,
                )
            }),
    {
        if self.queue.len() == 0 {
            return Err(SpotifmError::EmptyQueue);
        }
        let current_id: String = self.queue[self.queue_position].id.clone();
        let ghost oldcur = old(self).current();
        shuffle_tracks(&mut self.queue);
        proof {
            assert(0 <= (old(self).queue_position as int) < old(self).tracks().len()
                && old(self).tracks()[old(self).queue_position as int] == oldcur);
            assert(old(self).tracks().contains(oldcur));
            assert(self.tracks().to_multiset().count(oldcur) > 0);
            assert(self.tracks().contains(oldcur));
            let w = choose|w: int| 0 <= w < self.tracks().len() && self.tracks()[w] == oldcur;
            lemma_first_position_of(self.tracks(), current_id@);
            if first_position_of(self.tracks(), current_id@) is None {
                assert(self.tracks()[w].id == current_id@);
                assert(false);
            }
        }
        match position_of_id(&self.queue, &current_id) {
            Some(i) => {
                self.queue_position = i;
            },
            None => {
                self.queue_position = 0;
            },
        }
        Ok(())
    }
}

/// Relies on rand's `SliceRandom::shuffle` with `thread_rng`: it permutes the
/// elements of the slice in place, so the tracks, and with them their views,
/// keep their multiset.
#[verifier::external_body]
fn shuffle_tracks(v: &mut Vec<SpotifyTrack>)
    ensures
        final(v)@.to_multiset() == old(v)@.to_multiset(),
        views_of(final(v)@).to_multiset() == views_of(old(v)@).to_multiset(),
        final(v)@.len() == old(v)@.len(),
{
    rand::seq::SliceRandom::shuffle(v.as_mut_slice(), &mut rand::thread_rng());
}

} // verus!
