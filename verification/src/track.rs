//! The immutable track value: catalog identifier, creation timestamp, and
//! display metadata.

use vstd::prelude::*;

verus! {

/// The mathematical content of a track: its id, creation timestamp, title
/// and artist names, each as a sequence.
#[verifier::ext_equal]
pub ghost struct TrackView {
    pub id: Seq<char>,
    pub rid: u128,
    pub track: Seq<char>,
    pub artists: Seq<Seq<char>>,
}

/// A single entry of the playback queue. Immutable once constructed;
/// equality is structural.
#[derive(Debug, PartialEq, Eq)]
pub struct SpotifyTrack {
    /// Opaque catalog identifier (string form of the catalog's native id).
    pub id: String,
    /// Creation timestamp in milliseconds since the Unix epoch; used only as
    /// a uniqueness and ordering tiebreaker, never for scheduling.
    pub rid: u128,
    /// Track title.
    pub track: String,
    /// Ordered list of artist names.
    pub artists: Vec<String>,
}

/// Relies on `std::time::SystemTime::now` together with
/// `Duration::as_millis` for the milliseconds since the Unix epoch.
/// Nothing is promised of the value: it depends on the clock alone.
#[verifier::external_body]
fn now_millis() -> u128 {
    match std::time::SystemTime::now().duration_since(std::time::UNIX_EPOCH) {
        Ok(d) => d.as_millis(),
        Err(_) => 0,
    }
}

impl View for SpotifyTrack {
    type V = TrackView;

    open spec fn view(&self) -> TrackView {
        TrackView {
            id: self.id@,
            rid: self.rid,
            track: self.track@,
            artists: self.artists.deep_view(),
        }
    }
}

impl DeepView for SpotifyTrack {
    type V = TrackView;

    open spec fn deep_view(&self) -> TrackView {
        self.view()
    }
}

impl Clone for SpotifyTrack {
    /// A clone carries the same id, timestamp and metadata.
    fn clone(&self) -> (r: Self)
        ensures
            r@ == self@,
    {
        let r = SpotifyTrack {
            id: self.id.clone(),
            rid: self.rid,
            track: self.track.clone(),
            artists: self.artists.clone(),
        };
        proof {
            assert(r.artists.deep_view() =~= self.artists.deep_view());
        }
        r
    }
}

impl SpotifyTrack {
    /// Builds a track from its catalog id and metadata, stamping it with the
    /// creation time.
    pub fn new(id: String, track: String, artists: Vec<String>) -> (r: SpotifyTrack)
        ensures
            r.id == id,
            r.track == track,
            r.artists == artists,
    {
        SpotifyTrack { id, rid: now_millis(), track, artists }
    }
}

} // verus!
