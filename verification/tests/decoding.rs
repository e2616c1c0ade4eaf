use mpd_client::error::{require_field, DecodeError};
use mpd_client::playback::{MPDQueueState, MPDState};
use mpd_client::stats::MPDStats;
use mpd_client::status::MPDStatus;

fn lines(ls: &[&str]) -> Vec<String> {
    ls.iter().map(|s| s.to_string()).collect()
}

#[test]
fn status_basic_fields() {
    let st = MPDStatus::new(&lines(&["volume: 50", "repeat: 1"]));
    assert_eq!(st.volume, Some(50));
    assert_eq!(st.repeat, MPDQueueState::On);
    assert_eq!(st.random, MPDQueueState::Off);
    assert_eq!(st.state, MPDState::Stop);
    assert_eq!(st.partition, None);
}

#[test]
fn status_decoding_is_order_independent() {
    let a = MPDStatus::new(&lines(&["volume: 50", "repeat: 1"]));
    let b = MPDStatus::new(&lines(&["repeat: 1", "volume: 50"]));
    assert_eq!(a, b);
}

#[test]
fn status_decoding_is_idempotent() {
    let block = lines(&["volume: 50", "repeat: 1"]);
    assert_eq!(MPDStatus::new(&block), MPDStatus::new(&block));
}

#[test]
fn status_unknown_key_is_ignored() {
    let st = MPDStatus::new(&lines(&["volume: 50", "frobnicate: xyz"]));
    assert_eq!(st.volume, Some(50));
    let empty = MPDStatus::new(&lines(&["volume: 50"]));
    assert_eq!(st, empty);
}

#[test]
fn status_unparseable_value_leaves_field_absent() {
    let st = MPDStatus::new(&lines(&["volume: loud"]));
    assert_eq!(st.volume, None);
    let st = MPDStatus::new(&lines(&["volume: 300"]));
    assert_eq!(st.volume, None);
}

#[test]
fn status_line_without_separator_is_ignored() {
    let st = MPDStatus::new(&lines(&["garbage", "volume: 7"]));
    assert_eq!(st.volume, Some(7));
    assert_eq!(st, MPDStatus::new(&lines(&["volume: 7"])));
}

#[test]
fn status_timing_is_decoded_as_milliseconds() {
    let st = MPDStatus::new(&lines(&["elapsed: 12.5", "duration: 3.250"]));
    assert_eq!(st.elapsed_ms, Some(12500));
    assert_eq!(st.duration_ms, Some(3250));
    let st = MPDStatus::new(&lines(&["elapsed: 7"]));
    assert_eq!(st.elapsed_ms, Some(7000));
}

#[test]
fn status_enum_fields() {
    let st = MPDStatus::new(&lines(&["single: oneshot", "state: pause", "consume: 0"]));
    assert_eq!(st.single, MPDQueueState::Oneshot);
    assert_eq!(st.state, MPDState::Pause);
    assert_eq!(st.consume, MPDQueueState::Off);
    let st = MPDStatus::new(&lines(&["state: sleeping"]));
    assert_eq!(st.state, MPDState::Stop);
}

#[test]
fn status_value_may_contain_colons() {
    let st = MPDStatus::new(&lines(&["audio: 44100:16:2", "time: 10:20"]));
    assert_eq!(st.audio, Some("44100:16:2".to_string()));
    assert_eq!(st.time, None);
}

#[test]
fn status_text_fields() {
    let st = MPDStatus::new(&lines(&[
        "partition: default",
        "error: something broke",
        "lastloadedplaylist: evening",
    ]));
    assert_eq!(st.partition, Some("default".to_string()));
    assert_eq!(st.error, Some("something broke".to_string()));
    assert_eq!(st.lastloadedplaylist, Some("evening".to_string()));
}

#[test]
fn status_numeric_fields() {
    let st = MPDStatus::new(&lines(&[
        "playlist: 3",
        "playlistlength: 12",
        "song: 4",
        "songid: 17",
        "nextsong: 5",
        "nextsongid: 18",
        "bitrate: 320",
        "xfade: 2",
    ]));
    assert_eq!(st.playlist, Some(3));
    assert_eq!(st.playlistlength, Some(12));
    assert_eq!(st.song, Some(4));
    assert_eq!(st.songid, Some(17));
    assert_eq!(st.nextsong, Some(5));
    assert_eq!(st.nextsongid, Some(18));
    assert_eq!(st.bitrate, Some(320));
    assert_eq!(st.xfade, Some(2));
}

#[test]
fn stats_exact_counters() {
    let st = MPDStats::new(&lines(&[
        "artists: 10",
        "albums: 20",
        "uptime: 300",
        "db_playtime: 1000",
        "db_update: 1600000000",
        "playtime: 500",
    ]));
    assert_eq!(st.artists, 10);
    assert_eq!(st.albums, 20);
    assert_eq!(st.uptime, 300);
    assert_eq!(st.db_playtime, 1000);
    assert_eq!(st.db_update, 1600000000);
    assert_eq!(st.playtime, 500);
}

#[test]
fn stats_absent_keys_stay_zero() {
    let st = MPDStats::new(&lines(&["artists: 3"]));
    assert_eq!(st.artists, 3);
    assert_eq!(st.albums, 0);
    assert_eq!(st.playtime, 0);
    let empty = MPDStats::new(&lines(&[]));
    assert_eq!(empty, MPDStats::default());
}

#[test]
fn stats_unknown_key_is_ignored() {
    let st = MPDStats::new(&lines(&["artists: 3", "frobnicate: 9"]));
    assert_eq!(st, MPDStats::new(&lines(&["artists: 3"])));
}

#[test]
fn stats_repeated_key_takes_last_value() {
    let st = MPDStats::new(&lines(&["artists: 1", "artists: 2"]));
    assert_eq!(st.artists, 2);
}

#[test]
fn queue_state_parser_is_total() {
    assert_eq!(MPDQueueState::parse("0"), Some(MPDQueueState::Off));
    assert_eq!(MPDQueueState::parse("1"), Some(MPDQueueState::On));
    assert_eq!(MPDQueueState::parse("oneshot"), Some(MPDQueueState::Oneshot));
    assert_eq!(MPDQueueState::parse("2"), None);
    assert_eq!(MPDQueueState::parse(""), None);
}

#[test]
fn playback_state_parser_is_total() {
    assert_eq!(MPDState::parse("play"), Some(MPDState::Play));
    assert_eq!(MPDState::parse("stop"), Some(MPDState::Stop));
    assert_eq!(MPDState::parse("pause"), Some(MPDState::Pause));
    assert_eq!(MPDState::parse("paused"), None);
}

#[test]
fn enum_defaults() {
    assert_eq!(MPDQueueState::default(), MPDQueueState::Off);
    assert_eq!(MPDState::default(), MPDState::Stop);
}

#[test]
fn require_field_turns_absence_into_error() {
    assert_eq!(require_field(Some(5u8)), Ok(5u8));
    assert_eq!(require_field(None::<u8>), Err(DecodeError::MissingRequiredField));
}
