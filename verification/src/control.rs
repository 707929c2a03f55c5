//! The track-advance state machine. Once per poll tick the loop drains its
//! three event sources (reconnect signals, remote commands, engine events)
//! and applies one transition per event; every decision is made here, while
//! the engine itself and the channels stay outside.
//!
//! Transitions:
//! - a reconnect signal supersedes everything in its tick: tear the engine
//!   down and re-establish the session (`Reconnecting`);
//! - once the session is back, the current track is loaded again without
//!   advancing;
//! - in `Idle`, a non-empty queue starts playback: advance, load the new
//!   current track, preload the next;
//! - `EndOfTrack` advances the same way; `Stopped` does too after stopping
//!   the engine; `Changed` only preloads the announced track;
//! - remote `Skip` behaves like `Stopped`; `EnqueueNext` queues a track to
//!   play next; `PlayNow` queues it and forces the switch at once;
//! - an empty or failing queue store sends the loop back to `Idle` to wait,
//!   never down.

use vstd::prelude::*;

use crate::db::SpotifyDatabase;
use crate::signals::SignalMessage;
use crate::state::{anchor_of, without_id};
use crate::track::{SpotifyTrack, TrackView};

verus! {

/// Lifecycle events of the playback engine.
#[derive(Clone, Debug, PartialEq, Eq)]
pub enum PlayerLifecycleEvent {
    /// The engine finished rendering the current track.
    EndOfTrack,
    /// The engine stopped; carries the id of the track it was playing.
    Stopped { track_id: String },
    /// The engine switched tracks; carries both ids.
    Changed { old_track_id: String, new_track_id: String },
}

/// Intents of the remote control surface, delivered over one ordered
/// channel.
#[derive(Clone, Debug, PartialEq, Eq)]
pub enum RemoteCommand {
    /// Skip to the next track.
    Skip,
    /// Queue the track and force an immediate switch to it.
    PlayNow(SpotifyTrack),
    /// Queue the track to play right after the current one.
    EnqueueNext(SpotifyTrack),
}

/// One event of a poll tick, whichever source it came from.
#[derive(Clone, Debug, PartialEq, Eq)]
pub enum ControlEvent {
    /// The session expired (reconnect signal).
    SessionExpired,
    /// The session was re-established.
    SessionRestored,
    /// The queue became non-empty while the loop was idle.
    QueueAvailable,
    /// A remote command arrived.
    Command(RemoteCommand),
    /// The engine reported a lifecycle event.
    Engine(PlayerLifecycleEvent),
}

/// The loop's state between ticks.
#[derive(Clone, Copy, Debug, PartialEq, Eq)]
pub enum ControlState {
    /// No playable queue yet.
    Idle,
    /// A current track was handed to the engine, the next one preloaded.
    Loading,
    /// The engine is rendering; the loop is polling.
    Playing,
    /// The session is invalid; it must be re-established before resuming.
    Reconnecting,
}

/// What the loop asks its surroundings to do after a transition, in order.
#[derive(Clone, Debug, PartialEq, Eq)]
pub enum EngineDirective {
    /// Hand this track to the engine and start rendering.
    Load { track_id: String },
    /// Ask the engine to prepare this track without rendering it.
    Preload { track_id: String },
    /// Tear the current engine instance down.
    Stop,
    /// Re-establish the external session.
    Reconnect,
}

/// Directives that start one track iteration: load the current track, and,
/// when the lookahead succeeded, preload the next one.
pub open spec fn loads_current(db: SpotifyDatabase, dirs: Seq<EngineDirective>) -> bool {
    &&& db.db_tracks().len() > 0
    &&& 1 <= dirs.len() <= 2
    &&& (dirs[0] matches EngineDirective::Load { track_id } && track_id@ == db.db_tracks()[db.db_position() as int].id)
    &&& (dirs.len() == 2 ==> (dirs[1] matches EngineDirective::Preload { track_id } && track_id@
        == db.db_tracks()[if (db.db_position() + 1) as int == db.db_tracks().len() {
        0int
    } else {
        db.db_position() + 1
    }].id))
}

/// The outcome of (re)entering the per-track setup: either the loop is
/// `Loading` the current track, or the queue gave out and it is `Idle`. The
/// queue contents are untouched; the cursor advanced by one (wrapping) when
/// `advanced` and the setup succeeded.
pub open spec fn setup_outcome(
    old_db: SpotifyDatabase,
    new_db: SpotifyDatabase,
    st: ControlState,
    dirs: Seq<EngineDirective>,
    advanced: bool,
) -> bool {
    &&& new_db.db_tracks() == old_db.db_tracks()
    &&& (st matches ControlState::Loading || st matches ControlState::Idle)
    &&& (st matches ControlState::Loading ==> loads_current(new_db, dirs))
    &&& (st matches ControlState::Idle ==> dirs.len() == 0)
    &&& (!advanced ==> new_db.db_position() == old_db.db_position())
    &&& (advanced && (st matches ControlState::Loading) && old_db.db_tracks().len() > 0
        ==> new_db.db_position() as int == (if (old_db.db_position() + 1) as int
        == old_db.db_tracks().len() {
        0int
    } else {
        old_db.db_position() + 1
    }))
    &&& (new_db.db_position() == old_db.db_position() || (advanced && old_db.db_tracks().len() > 0
        && new_db.db_position() as int == (if (old_db.db_position() + 1) as int
        == old_db.db_tracks().len() {
        0int
    } else {
        old_db.db_position() + 1
    })))
}

/// As `setup_outcome`, behind a directive that tears the engine down first.
pub open spec fn stop_then_setup(
    old_db: SpotifyDatabase,
    new_db: SpotifyDatabase,
    st: ControlState,
    dirs: Seq<EngineDirective>,
) -> bool {
    &&& dirs.len() >= 1
    &&& dirs[0] matches EngineDirective::Stop
    &&& setup_outcome(old_db, new_db, st, dirs.skip(1), true)
}

/// The queue of `old_db` after "queue `t` to play next": any prior entry of
/// `t.id` removed, `t` inserted right after the re-anchored cursor.
pub open spec fn queue_after_enqueue(old_db: SpotifyDatabase, t: TrackView) -> Seq<TrackView> {
    let cur_id = old_db.db_tracks()[old_db.db_position() as int].id;
    let kept = without_id(old_db.db_tracks(), t.id);
    let anchor: int = anchor_of(kept, cur_id);
    let at: int = if kept.len() > 0 {
        anchor + 1
    } else {
        0
    };
    kept.insert(at, t)
}

/// The queue of `new_db` is that of `old_db` with any prior entry of `t.id`
/// removed and `t` inserted right after the re-anchored cursor.
pub open spec fn enqueued_next(old_db: SpotifyDatabase, new_db: SpotifyDatabase, t: TrackView) -> bool {
    let cur_id = old_db.db_tracks()[old_db.db_position() as int].id;
    let kept = without_id(old_db.db_tracks(), t.id);
    &&& new_db.db_tracks() == queue_after_enqueue(old_db, t)
    &&& new_db.db_position() == anchor_of(kept, cur_id)
}

/// Drains one poll tick: a signal event supersedes whatever else arrived in
/// the tick; otherwise the command and engine events are kept, in the order
/// received.
pub fn select_tick_events(
    signal: Option<SignalMessage>,
    command: Option<RemoteCommand>,
    engine: Option<PlayerLifecycleEvent>,
) -> (r: Vec<ControlEvent>)
    ensures
        signal matches Some(s) ==> r@.len() == 1 && r@[0] matches ControlEvent::SessionExpired,
        signal is None ==> match (command, engine) {
            (Some(c), Some(e)) => r@.len() == 2 && r@[0] == ControlEvent::Command(c) && r@[1]
                == ControlEvent::Engine(e),
            (Some(c), None) => r@.len() == 1 && r@[0] == ControlEvent::Command(c),
            (None, Some(e)) => r@.len() == 1 && r@[0] == ControlEvent::Engine(e),
            (None, None) => r@.len() == 0,
        },
{
    let mut events: Vec<ControlEvent> = Vec::new();
    match signal {
        Some(SignalMessage::SessionExpired) => {
            events.push(ControlEvent::SessionExpired);
            return events;
        },
        None => {},
    }
    match command {
        Some(c) => events.push(ControlEvent::Command(c)),
        None => {},
    }
    match engine {
        Some(e) => events.push(ControlEvent::Engine(e)),
        None => {},
    }
    events
}

/// (Re)enters the per-track setup: optionally advance the cursor, then load
/// the new current track and preload its successor. An empty queue, or a
/// store failure, idles the loop instead of stopping it.
fn begin_track(db: &mut SpotifyDatabase, advance: bool) -> (r: (ControlState, Vec<EngineDirective>))
    requires
        old(db).db_wf(),
    ensures
        final(db).db_wf(),
        setup_outcome(*old(db), *final(db), r.0, r.1@, advance),
{
    if advance {
        match db.advance_track() {
            Ok(u) => {},
            Err(e) => {
                return (ControlState::Idle, Vec::new());
            },
        }
    }
    match db.current_track() {
        Err(e) => (ControlState::Idle, Vec::new()),
        Ok(cur) => {
            let mut dirs: Vec<EngineDirective> = Vec::new();
            dirs.push(EngineDirective::Load { track_id: cur.id });
            match db.next_track() {
                Ok(next) => {
                    dirs.push(EngineDirective::Preload { track_id: next.id });
                },
                Err(e) => {},
            }
            (ControlState::Loading, dirs)
        },
    }
}

/// Applies one event to the loop: the transition table of the state machine.
/// Returns the next state and the directives to carry out, in order.
pub fn control_step(db: &mut SpotifyDatabase, state: ControlState, event: ControlEvent) -> (r: (
    ControlState,
    Vec<EngineDirective>,
))
    requires
        old(db).db_wf(),
    ensures
        final(db).db_wf(),
        event matches ControlEvent::SessionExpired ==> (*final(db) == *old(db) && (r.0 matches
            ControlState::Reconnecting) && r.1@.len() == 2 && (r.1@[0] matches
            EngineDirective::Stop) && (r.1@[1] matches EngineDirective::Reconnect)),
        (event matches ControlEvent::SessionRestored && state matches ControlState::Reconnecting)
            ==> setup_outcome(*old(db), *final(db), r.0, r.1@, false),
        (event matches ControlEvent::SessionRestored && !(state matches ControlState::Reconnecting))
            ==> (*final(db) == *old(db) && r.0 == state && r.1@.len() == 0),
        (event matches ControlEvent::QueueAvailable && state matches ControlState::Idle)
            ==> setup_outcome(*old(db), *final(db), r.0, r.1@, true),
        (event matches ControlEvent::QueueAvailable && !(state matches ControlState::Idle)) ==> (
        *final(db) == *old(db) && r.0 == state && r.1@.len() == 0),
        (event matches ControlEvent::Engine(PlayerLifecycleEvent::EndOfTrack) && (state matches
            ControlState::Loading || state matches ControlState::Playing)) ==> setup_outcome(
            *old(db),
            *final(db),
            r.0,
            r.1@,
            true,
        ),
        (event matches ControlEvent::Engine(PlayerLifecycleEvent::Stopped { track_id }) && (
        state matches ControlState::Loading || state matches ControlState::Playing))
            ==> stop_then_setup(*old(db), *final(db), r.0, r.1@),
        event matches ControlEvent::Engine(PlayerLifecycleEvent::Changed { old_track_id, new_track_id })
            ==> ((state matches ControlState::Loading || state matches ControlState::Playing) ==> (
        *final(db) == *old(db) && (r.0 matches ControlState::Playing) && r.1@.len() == 1 && (
        r.1@[0] matches EngineDirective::Preload { track_id } && track_id@ == new_track_id@))),
        (event matches ControlEvent::Engine(ev) && !(state matches ControlState::Loading || state
            matches ControlState::Playing)) ==> (*final(db) == *old(db) && r.0 == state
            && r.1@.len() == 0),
        (event matches ControlEvent::Command(RemoteCommand::Skip) && (state matches
            ControlState::Loading || state matches ControlState::Playing)) ==> stop_then_setup(
            *old(db),
            *final(db),
            r.0,
            r.1@,
        ),
        (event matches ControlEvent::Command(RemoteCommand::Skip) && !(state matches
            ControlState::Loading || state matches ControlState::Playing)) ==> (*final(db) == *old(
            db,
        ) && r.0 == state && r.1@.len() == 0),
        event matches ControlEvent::Command(RemoteCommand::EnqueueNext(t)) ==> (r.0 == state
            && r.1@.len() <= 1 && (r.1@.len() == 1 ==> enqueued_next(*old(db), *final(db), t@) && (
        r.1@[0] matches EngineDirective::Preload { track_id } && track_id@ == t@.id)) && (
        r.1@.len() == 0 ==> *final(db) == *old(db))),
        event matches ControlEvent::Command(RemoteCommand::PlayNow(t)) ==> ((r.1@.len() == 0
            ==> r.0 == state && *final(db) == *old(db)) && (r.1@.len() > 0 ==> (r.1@[0] matches
            EngineDirective::Stop && final(db).db_tracks() == queue_after_enqueue(*old(db), t@)
            && (r.0 matches ControlState::Loading || r.0 matches
            ControlState::Idle) && (r.0 matches ControlState::Loading ==> loads_current(
            *final(db),
            r.1@.skip(1),
        ) && final(db).db_tracks()[final(db).db_position() as int].id == t@.id) && (r.0 matches
            ControlState::Idle ==> r.1@.len() == 1)))),
{
    match event {
        ControlEvent::SessionExpired => {
            let mut dirs: Vec<EngineDirective> = Vec::new();
            dirs.push(EngineDirective::Stop);
            dirs.push(EngineDirective::Reconnect);
            (ControlState::Reconnecting, dirs)
        },
        ControlEvent::SessionRestored => {
            match state {
                ControlState::Reconnecting => begin_track(db, false),
                _ => (state, Vec::new()),
            }
        },
        ControlEvent::QueueAvailable => {
            match state {
                ControlState::Idle => begin_track(db, true),
                _ => (state, Vec::new()),
            }
        },
        ControlEvent::Engine(ev) => {
            match state {
                ControlState::Loading | ControlState::Playing => {
                    match ev {
                        PlayerLifecycleEvent::EndOfTrack => begin_track(db, true),
                        PlayerLifecycleEvent::Stopped { track_id: _ } => {
                            let mut dirs: Vec<EngineDirective> = Vec::new();
                            dirs.push(EngineDirective::Stop);
                            let (st, mut more) = begin_track(db, true);
                            let ghost m = more@;
                            dirs.append(&mut more);
                            proof {
                                assert(dirs@.skip(1) =~= m);
                            }
                            (st, dirs)
                        },
                        PlayerLifecycleEvent::Changed { old_track_id: _, new_track_id } => {
                            let mut dirs: Vec<EngineDirective> = Vec::new();
                            dirs.push(EngineDirective::Preload { track_id: new_track_id });
                            (ControlState::Playing, dirs)
                        },
                    }
                },
                _ => (state, Vec::new()),
            }
        },
        ControlEvent::Command(cmd) => {
            match cmd {
                RemoteCommand::Skip => {
                    match state {
                        ControlState::Loading | ControlState::Playing => {
                            let mut dirs: Vec<EngineDirective> = Vec::new();
                            dirs.push(EngineDirective::Stop);
                            let (st, mut more) = begin_track(db, true);
                            let ghost m = more@;
                            dirs.append(&mut more);
                            proof {
                                assert(dirs@.skip(1) =~= m);
                            }
                            (st, dirs)
                        },
                        _ => (state, Vec::new()),
                    }
                },
                RemoteCommand::EnqueueNext(t) => {
                    let id = t.id.clone();
                    match db.queue_track(t) {
                        Ok(st) => {
                            let mut dirs: Vec<EngineDirective> = Vec::new();
                            dirs.push(EngineDirective::Preload { track_id: id });
                            (state, dirs)
                        },
                        Err(e) => (state, Vec::new()),
                    }
                },
                RemoteCommand::PlayNow(t) => {
                    let ghost tv = t@;
                    let ghost cur_id = old(db).db_tracks()[old(db).db_position() as int].id;
                    let ghost kept = without_id(old(db).db_tracks(), tv.id);
                    match db.queue_track(t) {
                        Ok(st) => {
                            let ghost mid = *db;
                            proof {
                                crate::state::lemma_first_position_of(kept, cur_id);
                            }
                            let mut dirs: Vec<EngineDirective> = Vec::new();
                            dirs.push(EngineDirective::Stop);
                            let (st2, mut more) = begin_track(db, true);
                            let ghost m = more@;
                            dirs.append(&mut more);
                            proof {
                                assert(dirs@.skip(1) =~= m);
                                match st2 {
                                    ControlState::Loading => {
                                        let anchor: int = anchor_of(kept, cur_id);
                                        assert(mid.db_tracks().len() == kept.len() + 1);
                                        if kept.len() > 0 {
                                            assert(mid.db_tracks()[anchor + 1] == tv);
                                            assert(db.db_position() as int == anchor + 1);
                                        } else {
                                            assert(mid.db_tracks() == kept.insert(0, tv));
                                            assert(mid.db_tracks()[0] == tv);
                                            assert(db.db_position() as int == 0);
                                        }
                                    },
                                    _ => {},
                                }
                            }
                            (st2, dirs)
                        },
                        Err(e) => (state, Vec::new()),
                    }
                },
            }
        },
    }
}

} // verus!
