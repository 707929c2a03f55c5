//! Process-wide configuration: credentials, source URIs, and the
//! announcement settings, including the bumper tag rotation whose cycling
//! state is mutated concurrently with playback.

use vstd::prelude::*;

verus! {

/// Settings of the external speech synthesizer.
#[derive(Debug, PartialEq, Eq)]
pub struct SpotifmEspeakCfg {
    pub speed: u32,
    pub amplitude: u32,
    pub pitch: u32,
    pub gap: u32,
    pub voice: String,
}

impl Clone for SpotifmEspeakCfg {
    /// A clone carries the same settings.
    fn clone(&self) -> (r: Self)
        ensures
            r == *self,
    {
        SpotifmEspeakCfg {
            speed: self.speed,
            amplitude: self.amplitude,
            pitch: self.pitch,
            gap: self.gap,
            voice: self.voice.clone(),
        }
    }
}

/// Settings of the external speech-generation service.
#[derive(Clone, Debug, PartialEq, Eq)]
pub struct SpotifmElevenLabsCfg {
    pub key: String,
    pub voice: String,
}

/// Whether and how each track is announced.
#[derive(Clone, Debug, PartialEq, Eq)]
pub struct SpotifmSongConfig {
    pub enable: bool,
    pub espeak: SpotifmEspeakCfg,
}

/// The bumper announcements: a list of tags spoken in rotation every
/// `freq` tracks.
#[derive(Clone, Debug, PartialEq, Eq)]
pub struct SpotifmBumperConfig {
    /// Cursor of the rotation; constructors set it, `next` keeps it in
    /// range (see `wf`).
    pub idx: Option<usize>,
    pub enable: bool,
    pub tags: Vec<String>,
    pub freq: usize,
    pub espeak: SpotifmEspeakCfg,
}

/// The two announcement channels together.
#[derive(Clone, Debug, PartialEq, Eq)]
pub struct SpotifmAnnounceConfig {
    pub song: SpotifmSongConfig,
    pub bumper: SpotifmBumperConfig,
}

/// The whole configuration.
#[derive(Clone, Debug, PartialEq, Eq)]
pub struct SpotifmConfig {
    pub user: String,
    pub pass: String,
    pub uris: Vec<String>,
    pub announce: SpotifmAnnounceConfig,
    pub elevenlabs: SpotifmElevenLabsCfg,
}

impl SpotifmBumperConfig {
    /// The rotation cursor.
    pub open spec fn cur_idx(&self) -> int {
        match self.idx {
            Some(i) => i as int,
            None => 0,
        }
    }

    /// Rotation validity: the cursor is set, and indexes the tags whenever
    /// there are any.
    pub open spec fn wf(&self) -> bool {
        &&& self.idx is Some
        &&& (if self.tags@.len() == 0 {
            self.cur_idx() == 0
        } else {
            self.cur_idx() < self.tags@.len()
        })
    }

    /// Builds a bumper configuration with the rotation at its start.
    pub fn new(enable: bool, tags: Vec<String>, freq: usize, espeak: SpotifmEspeakCfg) -> (r: Self)
        ensures
            r.enable == enable,
            r.tags == tags,
            r.freq == freq,
            r.espeak == espeak,
            r.cur_idx() == 0,
            r.wf(),
    {
        SpotifmBumperConfig { idx: Some(0), enable, tags, freq, espeak }
    }

    /// The tag to speak now; the rotation moves forward by one, wrapping at
    /// the end of the list.
    pub fn next(&mut self) -> (r: String)
        requires
            old(self).wf(),
            old(self).tags@.len() > 0,
        ensures
            final(self).wf(),
            r == old(self).tags@[old(self).cur_idx()],
            final(self).cur_idx() == (old(self).cur_idx() + 1) % (old(self).tags@.len() as int),
            final(self).tags == old(self).tags,
            final(self).enable == old(self).enable,
            final(self).freq == old(self).freq,
            final(self).espeak == old(self).espeak,
    {
        match self.idx {
            Some(i) => {
                proof {
                    assert(i as int == old(self).cur_idx());
                    assert(i < self.tags@.len());
                }
                let tag = self.tags[i].clone();
                let n: usize = self.tags.len();
                proof {
                    assert(i + 1 <= n);
                }
                self.idx = Some((i + 1) % n);
                tag
            },
            None => vstd::pervasive::unreached(),
        }
    }

    /// Empties the tag list and resets the rotation.
    pub fn clear_tags(&mut self)
        ensures
            final(self).wf(),
            final(self).tags@.len() == 0,
            final(self).cur_idx() == 0,
            final(self).enable == old(self).enable,
            final(self).freq == old(self).freq,
            final(self).espeak == old(self).espeak,
    {
        self.idx = Some(0);
        self.tags = Vec::new();
    }

    /// Appends one tag; the rotation cursor stays where it is.
    pub fn add_tag(&mut self, tag: String)
        requires
            old(self).wf(),
        ensures
            final(self).wf(),
            final(self).tags@ == old(self).tags@.push(tag),
            final(self).cur_idx() == old(self).cur_idx(),
            final(self).enable == old(self).enable,
            final(self).freq == old(self).freq,
            final(self).espeak == old(self).espeak,
    {
        self.tags.push(tag);
    }

    /// Replaces the whole tag list and resets the rotation.
    pub fn update_tags(&mut self, tags: Vec<String>)
        ensures
            final(self).wf(),
            final(self).tags == tags,
            final(self).cur_idx() == 0,
            final(self).enable == old(self).enable,
            final(self).freq == old(self).freq,
            final(self).espeak == old(self).espeak,
    {
        self.idx = Some(0);
        self.tags = tags;
    }
}

} // verus!
