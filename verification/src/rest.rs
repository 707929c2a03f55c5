//! The decision core of the remote control surface: applying partial edits
//! to the announcement settings, and deciding what a "queue this id" or
//! "play this id" request needs (nothing, because it is already current or
//! next, or a catalog lookup). The HTTP plumbing around these stays outside.

use vstd::prelude::*;

use crate::config::{SpotifmBumperConfig, SpotifmSongConfig};
use crate::state::SpotifyState;
use crate::track::SpotifyTrack;
use crate::SpotifmError;

verus! {

/// A partial edit of the song announcement settings: absent fields keep
/// their value.
#[derive(Clone, Debug, PartialEq, Eq)]
pub struct AnnounceSong {
    pub enable: Option<bool>,
    pub speed: Option<u32>,
    pub amplitude: Option<u32>,
    pub voice: Option<String>,
    pub pitch: Option<u32>,
    pub gap: Option<u32>,
}

/// A partial edit of the bumper settings: absent fields keep their value,
/// and a present `tag` is appended to the rotation.
#[derive(Clone, Debug, PartialEq, Eq)]
pub struct AnnounceBumper {
    pub enable: Option<bool>,
    pub tag: Option<String>,
    pub freq: Option<usize>,
    pub speed: Option<u32>,
    pub amplitude: Option<u32>,
    pub voice: Option<String>,
    pub pitch: Option<u32>,
    pub gap: Option<u32>,
}

/// Applies a partial edit to the song announcement settings.
pub fn edit_announce_song(cfg: &mut SpotifmSongConfig, form: &AnnounceSong)
    ensures
        final(cfg).enable == (match form.enable {
            Some(v) => v,
            None => old(cfg).enable,
        }),
        final(cfg).espeak.speed == (match form.speed {
            Some(v) => v,
            None => old(cfg).espeak.speed,
        }),
        final(cfg).espeak.amplitude == (match form.amplitude {
            Some(v) => v,
            None => old(cfg).espeak.amplitude,
        }),
        final(cfg).espeak.voice == (match form.voice {
            Some(v) => v,
            None => old(cfg).espeak.voice,
        }),
        final(cfg).espeak.pitch == (match form.pitch {
            Some(v) => v,
            None => old(cfg).espeak.pitch,
        }),
        final(cfg).espeak.gap == (match form.gap {
            Some(v) => v,
            None => old(cfg).espeak.gap,
        }),
{
    match form.enable {
        Some(v) => cfg.enable = v,
        None => {},
    }
    match form.speed {
        Some(v) => cfg.espeak.speed = v,
        None => {},
    }
    match form.amplitude {
        Some(v) => cfg.espeak.amplitude = v,
        None => {},
    }
    match &form.voice {
        Some(v) => cfg.espeak.voice = v.clone(),
        None => {},
    }
    match form.pitch {
        Some(v) => cfg.espeak.pitch = v,
        None => {},
    }
    match form.gap {
        Some(v) => cfg.espeak.gap = v,
        None => {},
    }
}

/// Applies a partial edit to the bumper settings; a present tag joins the
/// rotation at its tail, and the rotation cursor stays put.
pub fn edit_announce_bumper(cfg: &mut SpotifmBumperConfig, form: &AnnounceBumper)
    requires
        old(cfg).wf(),
    ensures
        final(cfg).wf(),
        final(cfg).enable == (match form.enable {
            Some(v) => v,
            None => old(cfg).enable,
        }),
        final(cfg).tags@ == (match form.tag {
            Some(t) => old(cfg).tags@.push(t),
            None => old(cfg).tags@,
        }),
        final(cfg).cur_idx() == old(cfg).cur_idx(),
        final(cfg).freq == (match form.freq {
            Some(v) => v,
            None => old(cfg).freq,
        }),
        final(cfg).espeak.speed == (match form.speed {
            Some(v) => v,
            None => old(cfg).espeak.speed,
        }),
        final(cfg).espeak.amplitude == (match form.amplitude {
            Some(v) => v,
            None => old(cfg).espeak.amplitude,
        }),
        final(cfg).espeak.voice == (match form.voice {
            Some(v) => v,
            None => old(cfg).espeak.voice,
        }),
        final(cfg).espeak.pitch == (match form.pitch {
            Some(v) => v,
            None => old(cfg).espeak.pitch,
        }),
        final(cfg).espeak.gap == (match form.gap {
            Some(v) => v,
            None => old(cfg).espeak.gap,
        }),
{
    match form.enable {
        Some(v) => cfg.enable = v,
        None => {},
    }
    match &form.tag {
        Some(t) => cfg.add_tag(t.clone()),
        None => {},
    }
    match form.freq {
        Some(v) => cfg.freq = v,
        None => {},
    }
    match form.speed {
        Some(v) => cfg.espeak.speed = v,
        None => {},
    }
    match form.amplitude {
        Some(v) => cfg.espeak.amplitude = v,
        None => {},
    }
    match &form.voice {
        Some(v) => cfg.espeak.voice = v.clone(),
        None => {},
    }
    match form.pitch {
        Some(v) => cfg.espeak.pitch = v,
        None => {},
    }
    match form.gap {
        Some(v) => cfg.espeak.gap = v,
        None => {},
    }
}

/// What a remote "queue this id" or "play this id" request needs.
#[derive(Clone, Debug, PartialEq, Eq)]
pub enum TrackRequestDecision {
    /// The id is already the current track: answer with it, change nothing.
    AlreadyCurrent(SpotifyTrack),
    /// The id is already next in line: answer with it, change nothing.
    AlreadyNext(SpotifyTrack),
    /// The id must be resolved against the catalog and queued.
    NeedsResolve,
}

/// Decides a remote track request against a snapshot of the queue: the
/// requested id may be the current track, the next one, or unknown, in
/// which case it needs a catalog lookup. Fails with `EmptyQueue` when the
/// queue is empty.
pub fn decide_track_request(state: &SpotifyState, id: &String) -> (r: Result<
    TrackRequestDecision,
    SpotifmError,
>)
    requires
        state.wf(),
    ensures
        r matches Err(e) ==> e == SpotifmError::EmptyQueue && state.queue@.len() == 0,
        state.queue@.len() == 0 ==> r matches Err(e),
        r matches Ok(d) ==> state.queue@.len() > 0 && (match d {
            TrackRequestDecision::AlreadyCurrent(t) => t@ == state.current() && state.current().id
                == id@,
            TrackRequestDecision::AlreadyNext(t) => t@ == state.tracks()[state.next_position()]
                && state.current().id != id@ && state.tracks()[state.next_position()].id == id@,
            TrackRequestDecision::NeedsResolve => state.current().id != id@
                && state.tracks()[state.next_position()].id != id@,
        }),
{
    match state.current_track() {
        Err(e) => Err(e),
        Ok(cur) => {
            if cur.id == *id {
                return Ok(TrackRequestDecision::AlreadyCurrent(cur));
            }
            match state.next_track() {
                Err(e) => vstd::pervasive::unreached(),
                Ok(nxt) => {
                    if nxt.id == *id {
                        Ok(TrackRequestDecision::AlreadyNext(nxt))
                    } else {
                        Ok(TrackRequestDecision::NeedsResolve)
                    }
                },
            }
        },
    }
}

} // verus!
