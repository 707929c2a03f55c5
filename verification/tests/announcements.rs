use spotifm::announce::{announcements, Announcement};
use spotifm::config::{
    SpotifmAnnounceConfig, SpotifmBumperConfig, SpotifmConfig, SpotifmElevenLabsCfg,
    SpotifmEspeakCfg, SpotifmSongConfig,
};
use spotifm::rest::{edit_announce_bumper, edit_announce_song, AnnounceBumper, AnnounceSong};
use spotifm::track::SpotifyTrack;

fn espeak(voice: &str) -> SpotifmEspeakCfg {
    SpotifmEspeakCfg {
        speed: 160,
        amplitude: 100,
        pitch: 50,
        gap: 2,
        voice: voice.to_string(),
    }
}

fn config(bumper_enable: bool, tags: &[&str], freq: usize, song_enable: bool) -> SpotifmConfig {
    SpotifmConfig {
        user: "user".to_string(),
        pass: "pass".to_string(),
        uris: vec!["spotify:playlist:abc".to_string()],
        announce: SpotifmAnnounceConfig {
            song: SpotifmSongConfig { enable: song_enable, espeak: espeak("song-voice") },
            bumper: SpotifmBumperConfig::new(
                bumper_enable,
                tags.iter().map(|t| t.to_string()).collect(),
                freq,
                espeak("bumper-voice"),
            ),
        },
        elevenlabs: SpotifmElevenLabsCfg {
            key: "tts-api-key".to_string(),
            voice: "voice".to_string(),
        },
    }
}

fn sample_track() -> SpotifyTrack {
    SpotifyTrack::new(
        "id1".to_string(),
        "Some Song".to_string(),
        vec!["First Artist".to_string(), "Second Artist".to_string()],
    )
}

#[test]
fn bumper_rotation_wraps() {
    let mut bumper =
        SpotifmBumperConfig::new(true, vec!["one".to_string(), "two".to_string()], 1, espeak("v"));
    assert_eq!(bumper.next(), "one");
    assert_eq!(bumper.next(), "two");
    assert_eq!(bumper.next(), "one");
}

#[test]
fn bumper_tag_maintenance() {
    let mut bumper = SpotifmBumperConfig::new(true, vec!["one".to_string()], 1, espeak("v"));
    bumper.add_tag("two".to_string());
    assert_eq!(bumper.tags, vec!["one", "two"]);
    bumper.update_tags(vec!["three".to_string()]);
    assert_eq!(bumper.tags, vec!["three"]);
    assert_eq!(bumper.next(), "three");
    bumper.clear_tags();
    assert_eq!(bumper.tags, Vec::<String>::new());
}

#[test]
fn announces_bumper_and_song_when_due() {
    let mut cfg = config(true, &["station jingle"], 2, true);
    let track = sample_track();
    let out = announcements(&mut cfg, &track, 4);
    assert_eq!(out, vec![
        Announcement { text: "station jingle".to_string(), espeak: espeak("bumper-voice") },
        Announcement { text: "Some Song by First Artist".to_string(), espeak: espeak("song-voice") },
    ]);
}

#[test]
fn no_bumper_off_cycle() {
    let mut cfg = config(true, &["station jingle"], 2, true);
    let track = sample_track();
    let out = announcements(&mut cfg, &track, 5);
    assert_eq!(out, vec![Announcement {
        text: "Some Song by First Artist".to_string(),
        espeak: espeak("song-voice"),
    }]);
}

#[test]
fn nothing_announced_when_disabled() {
    let mut cfg = config(false, &["station jingle"], 2, false);
    let track = sample_track();
    assert_eq!(announcements(&mut cfg, &track, 4), vec![]);
}

#[test]
fn bumper_rotation_advances_across_tracks() {
    let mut cfg = config(true, &["first tag", "second tag"], 1, false);
    let track = sample_track();
    let first = announcements(&mut cfg, &track, 1);
    let second = announcements(&mut cfg, &track, 2);
    let third = announcements(&mut cfg, &track, 3);
    assert_eq!(first[0].text, "first tag");
    assert_eq!(second[0].text, "second tag");
    assert_eq!(third[0].text, "first tag");
}

#[test]
fn zero_frequency_never_announces_bumper() {
    let mut cfg = config(true, &["station jingle"], 0, false);
    let track = sample_track();
    assert_eq!(announcements(&mut cfg, &track, 0), vec![]);
}

#[test]
fn edit_song_applies_only_present_fields() {
    let mut cfg = SpotifmSongConfig { enable: false, espeak: espeak("old-voice") };
    let form = AnnounceSong {
        enable: Some(true),
        speed: Some(200),
        amplitude: None,
        voice: Some("new-voice".to_string()),
        pitch: None,
        gap: None,
    };
    edit_announce_song(&mut cfg, &form);
    assert!(cfg.enable);
    assert_eq!(cfg.espeak.speed, 200);
    assert_eq!(cfg.espeak.amplitude, 100);
    assert_eq!(cfg.espeak.voice, "new-voice");
    assert_eq!(cfg.espeak.pitch, 50);
    assert_eq!(cfg.espeak.gap, 2);
}

#[test]
fn edit_bumper_appends_tag_and_updates_fields() {
    let mut cfg = SpotifmBumperConfig::new(false, vec!["one".to_string()], 3, espeak("v"));
    let form = AnnounceBumper {
        enable: Some(true),
        tag: Some("two".to_string()),
        freq: Some(5),
        speed: None,
        amplitude: Some(90),
        voice: None,
        pitch: None,
        gap: None,
    };
    edit_announce_bumper(&mut cfg, &form);
    assert!(cfg.enable);
    assert_eq!(cfg.tags, vec!["one", "two"]);
    assert_eq!(cfg.freq, 5);
    assert_eq!(cfg.espeak.amplitude, 90);
    assert_eq!(cfg.espeak.speed, 160);
}
