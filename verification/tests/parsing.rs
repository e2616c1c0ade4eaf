use mpd_client::error::ConnectError;
use mpd_client::handshake::{check_greeting, validate_greeting};
use mpd_client::kv::split_kv;
use mpd_client::num::{parse_millis, parse_u16, parse_u32, parse_u64, parse_u8};
use mpd_client::command::{
    clear_command, currentsong_command, list_playlist_command, load_playlist_command,
    playlist_command, stats_command, status_command,
};

#[test]
fn handshake_accepts_proper_greeting() {
    assert!(check_greeting(&b"OK MPD 0.23.5\n".to_vec()));
    assert!(check_greeting(&b"OK MPD".to_vec()));
}

#[test]
fn handshake_rejects_other_greetings() {
    assert!(!check_greeting(&b"HELLO SERVER".to_vec()));
    assert!(!check_greeting(&b"OK MP".to_vec()));
    assert!(!check_greeting(&b"".to_vec()));
    assert!(!check_greeting(&b"ok mpd 0.23.5".to_vec()));
}

#[test]
fn handshake_mismatch_is_a_typed_failure() {
    assert_eq!(validate_greeting(&b"OK MPD 0.23.5\n".to_vec()), Ok(()));
    assert_eq!(
        validate_greeting(&b"HELLO SERVER".to_vec()),
        Err(ConnectError::HandshakeFailed)
    );
}

#[test]
fn split_kv_splits_at_first_colon_space() {
    assert_eq!(split_kv("key: value"), Some(("key".to_string(), "value".to_string())));
    assert_eq!(split_kv("a: b: c"), Some(("a".to_string(), "b: c".to_string())));
    assert_eq!(split_kv("time: 10:20"), Some(("time".to_string(), "10:20".to_string())));
    assert_eq!(split_kv("novalue"), None);
    assert_eq!(split_kv("colon:nospace"), None);
    assert_eq!(split_kv(": leading"), Some(("".to_string(), "leading".to_string())));
}

#[test]
fn parse_u64_exact_bounds() {
    assert_eq!(parse_u64("0"), Some(0));
    assert_eq!(parse_u64("18446744073709551615"), Some(u64::MAX));
    assert_eq!(parse_u64("18446744073709551616"), None);
    assert_eq!(parse_u64(""), None);
    assert_eq!(parse_u64("12a"), None);
    assert_eq!(parse_u64("-1"), None);
}

#[test]
fn narrow_parsers_reject_oversized_values() {
    assert_eq!(parse_u8("255"), Some(255));
    assert_eq!(parse_u8("256"), None);
    assert_eq!(parse_u16("65535"), Some(65535));
    assert_eq!(parse_u16("65536"), None);
    assert_eq!(parse_u32("4294967295"), Some(u32::MAX));
    assert_eq!(parse_u32("4294967296"), None);
}

#[test]
fn parse_millis_scales_the_fraction() {
    assert_eq!(parse_millis("1.5"), Some(1500));
    assert_eq!(parse_millis("0.001"), Some(1));
    assert_eq!(parse_millis("12.500"), Some(12500));
    assert_eq!(parse_millis("7"), Some(7000));
    assert_eq!(parse_millis("0.25"), Some(250));
}

#[test]
fn parse_millis_rejects_malformed_text() {
    assert_eq!(parse_millis(".5"), None);
    assert_eq!(parse_millis("1."), None);
    assert_eq!(parse_millis("1.2345"), None);
    assert_eq!(parse_millis("1.5.6"), None);
    assert_eq!(parse_millis(""), None);
    assert_eq!(parse_millis("a.b"), None);
}

#[test]
fn command_lines_are_exact() {
    assert_eq!(playlist_command(), "playlist\n");
    assert_eq!(clear_command(), "clear\n");
    assert_eq!(status_command(), "status\n");
    assert_eq!(stats_command(), "stats\n");
    assert_eq!(currentsong_command(), "currentsong\n");
    assert_eq!(list_playlist_command("mix"), "listplaylist mix\n");
    assert_eq!(load_playlist_command("evening list"), "load evening list\n");
}
