//! Decides which announcements to speak before a track plays: a bumper tag
//! every so many tracks (rotating through the configured list), and the
//! track title with its first artist. Speaking itself is external; this
//! module only produces the texts and the synthesizer settings to use.

use vstd::prelude::*;
use vstd::string::StringExecFns;

use crate::config::{SpotifmConfig, SpotifmEspeakCfg};
use crate::track::SpotifyTrack;

verus! {

/// One announcement to speak: the text and the synthesizer settings.
#[derive(Clone, Debug, PartialEq, Eq)]
pub struct Announcement {
    pub text: String,
    pub espeak: SpotifmEspeakCfg,
}

/// Whether a bumper is spoken before track number `tracks_played`.
pub open spec fn bumper_due(config: SpotifmConfig, tracks_played: usize) -> bool {
    &&& config.announce.bumper.enable
    &&& config.announce.bumper.freq > 0
    &&& tracks_played % config.announce.bumper.freq == 0
}

/// Whether the track itself is announced.
pub open spec fn song_due(config: SpotifmConfig) -> bool {
    config.announce.song.enable
}

/// The announcements before one track: the rotating bumper tag when it is
/// due, then title and first artist when song announcements are on. Only the
/// bumper rotation cursor of the configuration moves.
pub fn announcements(config: &mut SpotifmConfig, track: &SpotifyTrack, tracks_played: usize) -> (r:
    Vec<Announcement>)
    requires
        old(config).announce.bumper.wf(),
        bumper_due(*old(config), tracks_played) ==> old(config).announce.bumper.tags@.len() > 0,
        song_due(*old(config)) ==> track.artists@.len() > 0,
    ensures
        final(config).announce.bumper.wf(),
        final(config).user == old(config).user,
        final(config).pass == old(config).pass,
        final(config).uris == old(config).uris,
        final(config).elevenlabs == old(config).elevenlabs,
        final(config).announce.song == old(config).announce.song,
        final(config).announce.bumper.enable == old(config).announce.bumper.enable,
        final(config).announce.bumper.tags == old(config).announce.bumper.tags,
        final(config).announce.bumper.freq == old(config).announce.bumper.freq,
        final(config).announce.bumper.espeak == old(config).announce.bumper.espeak,
        !bumper_due(*old(config), tracks_played) ==> final(config).announce.bumper.cur_idx()
            == old(config).announce.bumper.cur_idx(),
        bumper_due(*old(config), tracks_played) ==> final(config).announce.bumper.cur_idx() == (
        old(config).announce.bumper.cur_idx() + 1) % (
        old(config).announce.bumper.tags@.len() as int),
        r@.len() == (if bumper_due(*old(config), tracks_played) {
            1int
        } else {
            0int
        }) + (if song_due(*old(config)) {
            1int
        } else {
            0int
        }),
        bumper_due(*old(config), tracks_played) ==> r@[0].text == old(
            config,
        ).announce.bumper.tags@[old(config).announce.bumper.cur_idx()] && r@[0].espeak == old(
            config,
        ).announce.bumper.espeak,
        song_due(*old(config)) ==> r@[r@.len() - 1].text@ == track@.track + " by "@
            + track@.artists[0] && r@[r@.len() - 1].espeak == old(config).announce.song.espeak,
{
    let mut out: Vec<Announcement> = Vec::new();
    if config.announce.bumper.enable {
        if config.announce.bumper.freq > 0 && tracks_played % config.announce.bumper.freq == 0 {
            let text = config.announce.bumper.next();
            out.push(Announcement { text, espeak: config.announce.bumper.espeak.clone() });
        }
    }
    if config.announce.song.enable {
        let mut text = track.track.clone();
        text.append(" by ");
        text.append(track.artists[0].as_str());
        out.push(Announcement { text, espeak: config.announce.song.espeak.clone() });
    }
    out
}

} // verus!
