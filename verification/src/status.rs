//! The status snapshot and its decoder.
//!
//! A status response is a block of `key: value` lines. Every field is
//! optional: the server omits fields that are not currently meaningful, an
//! unrecognized key is ignored, and a value that fails to parse leaves its
//! field as it was — neither is ever an error.

use vstd::prelude::*;
use crate::kv::{has_sep, key_of, val_of, split_kv};
use crate::num::{
    spec_parse_u8, spec_parse_u16, spec_parse_u32, spec_parse_u64, spec_parse_millis, parse_u8,
    parse_u16, parse_u32, parse_u64, parse_millis,
};
use crate::playback::{MPDQueueState, MPDState};
use crate::text::str_eq;

verus! {

/// Snapshot of current playback, one optional field per protocol key.
/// Timing is held as whole milliseconds, the finest grain the protocol's
/// decimal-seconds notation carries.
#[derive(Debug, PartialEq)]
pub struct MPDStatus {
    pub partition: Option<String>,
    pub volume: Option<u8>,
    pub repeat: MPDQueueState,
    pub random: MPDQueueState,
    pub single: MPDQueueState,
    pub consume: MPDQueueState,
    pub playlist: Option<u32>,
    pub playlistlength: Option<u64>,
    pub state: MPDState,
    pub song: Option<u32>,
    pub songid: Option<u32>,
    pub nextsong: Option<u32>,
    pub nextsongid: Option<u32>,
    pub time: Option<u32>,
    pub elapsed_ms: Option<u64>,
    pub duration_ms: Option<u64>,
    pub bitrate: Option<u16>,
    pub xfade: Option<u16>,
    pub mixrampdb: Option<u16>,
    pub mixrampdelay: Option<u16>,
    pub audio: Option<String>,
    pub error: Option<String>,
    pub lastloadedplaylist: Option<String>,
}

/// Mathematical image of a status snapshot: text fields as `Seq<char>`.
#[verifier::ext_equal]
pub ghost struct StatusView {
    pub partition: Option<Seq<char>>,
    pub volume: Option<u8>,
    pub repeat: MPDQueueState,
    pub random: MPDQueueState,
    pub single: MPDQueueState,
    pub consume: MPDQueueState,
    pub playlist: Option<u32>,
    pub playlistlength: Option<u64>,
    pub state: MPDState,
    pub song: Option<u32>,
    pub songid: Option<u32>,
    pub nextsong: Option<u32>,
    pub nextsongid: Option<u32>,
    pub time: Option<u32>,
    pub elapsed_ms: Option<u64>,
    pub duration_ms: Option<u64>,
    pub bitrate: Option<u16>,
    pub xfade: Option<u16>,
    pub mixrampdb: Option<u16>,
    pub mixrampdelay: Option<u16>,
    pub audio: Option<Seq<char>>,
    pub error: Option<Seq<char>>,
    pub lastloadedplaylist: Option<Seq<char>>,
}

impl View for MPDStatus {
    type V = StatusView;

    open spec fn view(&self) -> StatusView {
        StatusView {
            partition: self.partition.deep_view(),
            volume: self.volume,
            repeat: self.repeat,
            random: self.random,
            single: self.single,
            consume: self.consume,
            playlist: self.playlist,
            playlistlength: self.playlistlength,
            state: self.state,
            song: self.song,
            songid: self.songid,
            nextsong: self.nextsong,
            nextsongid: self.nextsongid,
            time: self.time,
            elapsed_ms: self.elapsed_ms,
            duration_ms: self.duration_ms,
            bitrate: self.bitrate,
            xfade: self.xfade,
            mixrampdb: self.mixrampdb,
            mixrampdelay: self.mixrampdelay,
            audio: self.audio.deep_view(),
            error: self.error.deep_view(),
            lastloadedplaylist: self.lastloadedplaylist.deep_view(),
        }
    }
}

/// The snapshot before any line is decoded: everything absent, modifiers
/// off, playback stopped.
pub open spec fn init_status() -> StatusView {
    StatusView {
        partition: None,
        volume: None,
        repeat: MPDQueueState::Off,
        random: MPDQueueState::Off,
        single: MPDQueueState::Off,
        consume: MPDQueueState::Off,
        playlist: None,
        playlistlength: None,
        state: MPDState::Stop,
        song: None,
        songid: None,
        nextsong: None,
        nextsongid: None,
        time: None,
        elapsed_ms: None,
        duration_ms: None,
        bitrate: None,
        xfade: None,
        mixrampdb: None,
        mixrampdelay: None,
        audio: None,
        error: None,
        lastloadedplaylist: None,
    }
}

/// The keys the status decoder recognizes.
pub open spec fn status_key_known(k: Seq<char>) -> bool {
    ||| k == "partition"@
    ||| k == "volume"@
    ||| k == "repeat"@
    ||| k == "random"@
    ||| k == "single"@
    ||| k == "consume"@
    ||| k == "playlist"@
    ||| k == "playlistlength"@
    ||| k == "state"@
    ||| k == "song"@
    ||| k == "songid"@
    ||| k == "nextsong"@
    ||| k == "nextsongid"@
    ||| k == "time"@
    ||| k == "elapsed"@
    ||| k == "duration"@
    ||| k == "bitrate"@
    ||| k == "xfade"@
    ||| k == "mixrampdb"@
    ||| k == "mixrampdelay"@
    ||| k == "audio"@
    ||| k == "error"@
    ||| k == "lastloadedplaylist"@
}

/// The status field a recognized key selects.
pub ghost enum StatusField {
    Partition,
    Volume,
    Repeat,
    Random,
    Single,
    Consume,
    Playlist,
    PlaylistLength,
    State,
    Song,
    SongId,
    NextSong,
    NextSongId,
    Time,
    Elapsed,
    Duration,
    Bitrate,
    Xfade,
    MixRampDb,
    MixRampDelay,
    Audio,
    ErrorText,
    LastLoadedPlaylist,
    Unknown,
}

/// Which field a key addresses; an unrecognized key addresses none.
pub open spec fn status_field_of(k: Seq<char>) -> StatusField {
    if k == "partition"@ {
        StatusField::Partition
    } else if k == "volume"@ {
        StatusField::Volume
    } else if k == "repeat"@ {
        StatusField::Repeat
    } else if k == "random"@ {
        StatusField::Random
    } else if k == "single"@ {
        StatusField::Single
    } else if k == "consume"@ {
        StatusField::Consume
    } else if k == "playlist"@ {
        StatusField::Playlist
    } else if k == "playlistlength"@ {
        StatusField::PlaylistLength
    } else if k == "state"@ {
        StatusField::State
    } else if k == "song"@ {
        StatusField::Song
    } else if k == "songid"@ {
        StatusField::SongId
    } else if k == "nextsong"@ {
        StatusField::NextSong
    } else if k == "nextsongid"@ {
        StatusField::NextSongId
    } else if k == "time"@ {
        StatusField::Time
    } else if k == "elapsed"@ {
        StatusField::Elapsed
    } else if k == "duration"@ {
        StatusField::Duration
    } else if k == "bitrate"@ {
        StatusField::Bitrate
    } else if k == "xfade"@ {
        StatusField::Xfade
    } else if k == "mixrampdb"@ {
        StatusField::MixRampDb
    } else if k == "mixrampdelay"@ {
        StatusField::MixRampDelay
    } else if k == "audio"@ {
        StatusField::Audio
    } else if k == "error"@ {
        StatusField::ErrorText
    } else if k == "lastloadedplaylist"@ {
        StatusField::LastLoadedPlaylist
    } else {
        StatusField::Unknown
    }
}

/// Whether a value actually lands in the field its key addresses: raw
/// text fields always take it, typed fields only when it parses.
pub open spec fn status_effective(f: StatusField, v: Seq<char>) -> bool {
    match f {
        StatusField::Partition => true,
        StatusField::Volume => spec_parse_u8(v) is Some,
        StatusField::Repeat => MPDQueueState::spec_parse(v) is Some,
        StatusField::Random => MPDQueueState::spec_parse(v) is Some,
        StatusField::Single => MPDQueueState::spec_parse(v) is Some,
        StatusField::Consume => MPDQueueState::spec_parse(v) is Some,
        StatusField::Playlist => spec_parse_u32(v) is Some,
        StatusField::PlaylistLength => spec_parse_u64(v) is Some,
        StatusField::State => MPDState::spec_parse(v) is Some,
        StatusField::Song => spec_parse_u32(v) is Some,
        StatusField::SongId => spec_parse_u32(v) is Some,
        StatusField::NextSong => spec_parse_u32(v) is Some,
        StatusField::NextSongId => spec_parse_u32(v) is Some,
        StatusField::Time => spec_parse_u32(v) is Some,
        StatusField::Elapsed => spec_parse_millis(v) is Some,
        StatusField::Duration => spec_parse_millis(v) is Some,
        StatusField::Bitrate => spec_parse_u16(v) is Some,
        StatusField::Xfade => spec_parse_u16(v) is Some,
        StatusField::MixRampDb => spec_parse_u16(v) is Some,
        StatusField::MixRampDelay => spec_parse_u16(v) is Some,
        StatusField::Audio => true,
        StatusField::ErrorText => true,
        StatusField::LastLoadedPlaylist => true,
        StatusField::Unknown => false,
    }
}

/// The unconditional write of a parsed value into its field.
pub open spec fn status_write(sv: StatusView, f: StatusField, v: Seq<char>) -> StatusView {
    match f {
        StatusField::Partition => StatusView { partition: Some(v), ..sv },
        StatusField::Volume => StatusView { volume: spec_parse_u8(v), ..sv },
        StatusField::Repeat => StatusView { repeat: MPDQueueState::spec_parse(v)->0, ..sv },
        StatusField::Random => StatusView { random: MPDQueueState::spec_parse(v)->0, ..sv },
        StatusField::Single => StatusView { single: MPDQueueState::spec_parse(v)->0, ..sv },
        StatusField::Consume => StatusView { consume: MPDQueueState::spec_parse(v)->0, ..sv },
        StatusField::Playlist => StatusView { playlist: spec_parse_u32(v), ..sv },
        StatusField::PlaylistLength => StatusView { playlistlength: spec_parse_u64(v), ..sv },
        StatusField::State => StatusView { state: MPDState::spec_parse(v)->0, ..sv },
        StatusField::Song => StatusView { song: spec_parse_u32(v), ..sv },
        StatusField::SongId => StatusView { songid: spec_parse_u32(v), ..sv },
        StatusField::NextSong => StatusView { nextsong: spec_parse_u32(v), ..sv },
        StatusField::NextSongId => StatusView { nextsongid: spec_parse_u32(v), ..sv },
        StatusField::Time => StatusView { time: spec_parse_u32(v), ..sv },
        StatusField::Elapsed => StatusView { elapsed_ms: spec_parse_millis(v), ..sv },
        StatusField::Duration => StatusView { duration_ms: spec_parse_millis(v), ..sv },
        StatusField::Bitrate => StatusView { bitrate: spec_parse_u16(v), ..sv },
        StatusField::Xfade => StatusView { xfade: spec_parse_u16(v), ..sv },
        StatusField::MixRampDb => StatusView { mixrampdb: spec_parse_u16(v), ..sv },
        StatusField::MixRampDelay => StatusView { mixrampdelay: spec_parse_u16(v), ..sv },
        StatusField::Audio => StatusView { audio: Some(v), ..sv },
        StatusField::ErrorText => StatusView { error: Some(v), ..sv },
        StatusField::LastLoadedPlaylist => StatusView { lastloadedplaylist: Some(v), ..sv },
        StatusField::Unknown => sv,
    }
}

/// Writes one field's parsed value into the snapshot. A value the field
/// cannot parse, like a key that addresses no field, changes nothing.
pub open spec fn apply_status_value(sv: StatusView, f: StatusField, v: Seq<char>) -> StatusView {
    if status_effective(f, v) {
        status_write(sv, f, v)
    } else {
        sv
    }
}

/// Effect of one response line on a snapshot. A line without a `": "`
/// separator, an unrecognized key, or a value its field cannot parse all
/// leave the snapshot unchanged.
pub open spec fn apply_status_line(sv: StatusView, l: Seq<char>) -> StatusView {
    if !has_sep(l) {
        sv
    } else {
        apply_status_value(sv, status_field_of(key_of(l)), val_of(l))
    }
}

/// The snapshot denoted by a whole response block, lines applied in order.
pub open spec fn status_of(ls: Seq<Seq<char>>) -> StatusView
    decreases ls.len(),
{
    if ls.len() == 0 {
        init_status()
    } else {
        apply_status_line(status_of(ls.drop_last()), ls.last())
    }
}

impl Default for MPDStatus {
    /// The empty snapshot: every field absent, modifiers at their defaults.
    fn default() -> (r: Self)
        ensures
            r@ == init_status(),
    {
        MPDStatus {
            partition: None,
            volume: None,
            repeat: MPDQueueState::Off,
            random: MPDQueueState::Off,
            single: MPDQueueState::Off,
            consume: MPDQueueState::Off,
            playlist: None,
            playlistlength: None,
            state: MPDState::Stop,
            song: None,
            songid: None,
            nextsong: None,
            nextsongid: None,
            time: None,
            elapsed_ms: None,
            duration_ms: None,
            bitrate: None,
            xfade: None,
            mixrampdb: None,
            mixrampdelay: None,
            audio: None,
            error: None,
            lastloadedplaylist: None,
        }
    }
}

impl MPDStatus {
    /// Decodes a framed status block. Total: unknown keys and unparseable
    /// values are tolerated, never an error, to survive protocol drift.
    #[verifier::rlimit(60)]
    pub fn new(lines: &Vec<String>) -> (st: MPDStatus)
        ensures
            st@ == status_of(lines.deep_view()),
    {
        let ghost dv = lines.deep_view();
        let mut st = MPDStatus::default();
        proof {
            assert(dv.take(0) =~= Seq::<Seq<char>>::empty());
        }
        let n = lines.len();
        let mut i: usize = 0;
        while i < n
            invariant
                n == lines.len(),
                dv == lines.deep_view(),
                0 <= i <= n,
                st@ == status_of(dv.take(i as int)),
            decreases n - i,
        {
            let ghost prev = st@;
            proof {
                assert(dv[i as int] == lines@[i as int]@);
                assert(dv.take(i as int + 1).drop_last() =~= dv.take(i as int));
                assert(dv.take(i as int + 1).last() == dv[i as int]);
            }
            if let Some((key, val)) = split_kv(lines[i].as_str()) {
                if str_eq(key.as_str(), "partition") {
                    st.partition = Some(val);
                } else if str_eq(key.as_str(), "volume") {
                    if let Some(x) = parse_u8(val.as_str()) {
                        st.volume = Some(x);
                    }
                } else if str_eq(key.as_str(), "repeat") {
                    if let Some(x) = MPDQueueState::parse(val.as_str()) {
                        st.repeat = x;
                    }
                } else if str_eq(key.as_str(), "random") {
                    if let Some(x) = MPDQueueState::parse(val.as_str()) {
                        st.random = x;
                    }
                } else if str_eq(key.as_str(), "single") {
                    if let Some(x) = MPDQueueState::parse(val.as_str()) {
                        st.single = x;
                    }
                } else if str_eq(key.as_str(), "consume") {
                    if let Some(x) = MPDQueueState::parse(val.as_str()) {
                        st.consume = x;
                    }
                } else if str_eq(key.as_str(), "playlist") {
                    if let Some(x) = parse_u32(val.as_str()) {
                        st.playlist = Some(x);
                    }
                } else if str_eq(key.as_str(), "playlistlength") {
                    if let Some(x) = parse_u64(val.as_str()) {
                        st.playlistlength = Some(x);
                    }
                } else if str_eq(key.as_str(), "state") {
                    if let Some(x) = MPDState::parse(val.as_str()) {
                        st.state = x;
                    }
                } else if str_eq(key.as_str(), "song") {
                    if let Some(x) = parse_u32(val.as_str()) {
                        st.song = Some(x);
                    }
                } else if str_eq(key.as_str(), "songid") {
                    if let Some(x) = parse_u32(val.as_str()) {
                        st.songid = Some(x);
                    }
                } else if str_eq(key.as_str(), "nextsong") {
                    if let Some(x) = parse_u32(val.as_str()) {
                        st.nextsong = Some(x);
                    }
                } else if str_eq(key.as_str(), "nextsongid") {
                    if let Some(x) = parse_u32(val.as_str()) {
                        st.nextsongid = Some(x);
                    }
                } else if str_eq(key.as_str(), "time") {
                    if let Some(x) = parse_u32(val.as_str()) {
                        st.time = Some(x);
                    }
                } else if str_eq(key.as_str(), "elapsed") {
                    if let Some(x) = parse_millis(val.as_str()) {
                        st.elapsed_ms = Some(x);
                    }
                } else if str_eq(key.as_str(), "duration") {
                    if let Some(x) = parse_millis(val.as_str()) {
                        st.duration_ms = Some(x);
                    }
                } else if str_eq(key.as_str(), "bitrate") {
                    if let Some(x) = parse_u16(val.as_str()) {
                        st.bitrate = Some(x);
                    }
                } else if str_eq(key.as_str(), "xfade") {
                    if let Some(x) = parse_u16(val.as_str()) {
                        st.xfade = Some(x);
                    }
                } else if str_eq(key.as_str(), "mixrampdb") {
                    if let Some(x) = parse_u16(val.as_str()) {
                        st.mixrampdb = Some(x);
                    }
                } else if str_eq(key.as_str(), "mixrampdelay") {
                    if let Some(x) = parse_u16(val.as_str()) {
                        st.mixrampdelay = Some(x);
                    }
                } else if str_eq(key.as_str(), "audio") {
                    st.audio = Some(val);
                } else if str_eq(key.as_str(), "error") {
                    st.error = Some(val);
                } else if str_eq(key.as_str(), "lastloadedplaylist") {
                    st.lastloadedplaylist = Some(val);
                }
            }
            proof {
                assert(st@ =~= apply_status_line(prev, dv[i as int]));
            }
            i += 1;
        }
        proof {
            assert(dv.take(n as int) =~= dv);
        }
        st
    }
}

/// Status decoding ignores lines that carry no recognized field: a line
/// without a separator or with an unknown key never changes the snapshot,
/// so it can never cause a failure.
pub proof fn lemma_status_unknown_key_ignored(sv: StatusView, l: Seq<char>)
    requires
        !has_sep(l) || !status_key_known(key_of(l)),
    ensures
        apply_status_line(sv, l) == sv,
{
    assert(apply_status_line(sv, l) =~= sv);
}

/// Transcript form of the same tolerance: appending an unrecognized line
/// to a block leaves its decoded snapshot untouched.
pub proof fn lemma_status_unknown_line_dropped(ls: Seq<Seq<char>>, l: Seq<char>)
    requires
        !has_sep(l) || !status_key_known(key_of(l)),
    ensures
        status_of(ls.push(l)) == status_of(ls),
{
    assert(ls.push(l).drop_last() =~= ls);
    assert(ls.push(l).last() == l);
    lemma_status_unknown_key_ignored(status_of(ls), l);
}

/// What each field of a snapshot is after one unconditional write.
#[verifier::rlimit(60)]
proof fn lemma_write_fields(sv: StatusView, f: StatusField, v: Seq<char>)
    ensures
        status_write(sv, f, v).partition == (if f is Partition { Some(v) } else { sv.partition }),
        status_write(sv, f, v).volume == (if f is Volume { spec_parse_u8(v) } else { sv.volume }),
        status_write(sv, f, v).repeat == (if f is Repeat { MPDQueueState::spec_parse(v)->0 } else { sv.repeat }),
        status_write(sv, f, v).random == (if f is Random { MPDQueueState::spec_parse(v)->0 } else { sv.random }),
        status_write(sv, f, v).single == (if f is Single { MPDQueueState::spec_parse(v)->0 } else { sv.single }),
        status_write(sv, f, v).consume == (if f is Consume { MPDQueueState::spec_parse(v)->0 } else { sv.consume }),
        status_write(sv, f, v).playlist == (if f is Playlist { spec_parse_u32(v) } else { sv.playlist }),
        status_write(sv, f, v).playlistlength == (if f is PlaylistLength { spec_parse_u64(v) } else { sv.playlistlength }),
        status_write(sv, f, v).state == (if f is State { MPDState::spec_parse(v)->0 } else { sv.state }),
        status_write(sv, f, v).song == (if f is Song { spec_parse_u32(v) } else { sv.song }),
        status_write(sv, f, v).songid == (if f is SongId { spec_parse_u32(v) } else { sv.songid }),
        status_write(sv, f, v).nextsong == (if f is NextSong { spec_parse_u32(v) } else { sv.nextsong }),
        status_write(sv, f, v).nextsongid == (if f is NextSongId { spec_parse_u32(v) } else { sv.nextsongid }),
        status_write(sv, f, v).time == (if f is Time { spec_parse_u32(v) } else { sv.time }),
        status_write(sv, f, v).elapsed_ms == (if f is Elapsed { spec_parse_millis(v) } else { sv.elapsed_ms }),
        status_write(sv, f, v).duration_ms == (if f is Duration { spec_parse_millis(v) } else { sv.duration_ms }),
        status_write(sv, f, v).bitrate == (if f is Bitrate { spec_parse_u16(v) } else { sv.bitrate }),
        status_write(sv, f, v).xfade == (if f is Xfade { spec_parse_u16(v) } else { sv.xfade }),
        status_write(sv, f, v).mixrampdb == (if f is MixRampDb { spec_parse_u16(v) } else { sv.mixrampdb }),
        status_write(sv, f, v).mixrampdelay == (if f is MixRampDelay { spec_parse_u16(v) } else { sv.mixrampdelay }),
        status_write(sv, f, v).audio == (if f is Audio { Some(v) } else { sv.audio }),
        status_write(sv, f, v).error == (if f is ErrorText { Some(v) } else { sv.error }),
        status_write(sv, f, v).lastloadedplaylist == (if f is LastLoadedPlaylist { Some(v) } else { sv.lastloadedplaylist }),
{
}

/// Unconditional writes to two different fields land the same wherever
/// they are applied first.
#[verifier::rlimit(60)]
proof fn lemma_write_commutes(
    sv: StatusView,
    fa: StatusField,
    va: Seq<char>,
    fb: StatusField,
    vb: Seq<char>,
)
    requires
        fa != fb,
    ensures
        status_write(status_write(sv, fa, va), fb, vb) == status_write(
            status_write(sv, fb, vb),
            fa,
            va,
        ),
{
    lemma_write_fields(sv, fa, va);
    lemma_write_fields(sv, fb, vb);
    lemma_write_fields(status_write(sv, fa, va), fb, vb);
    lemma_write_fields(status_write(sv, fb, vb), fa, va);
    assert(status_write(status_write(sv, fa, va), fb, vb) =~= status_write(
        status_write(sv, fb, vb),
        fa,
        va,
    ));
}

/// Writes to two different fields land the same wherever they are applied
/// first; a write to no field changes nothing.
proof fn lemma_update_commutes(
    sv: StatusView,
    fa: StatusField,
    va: Seq<char>,
    fb: StatusField,
    vb: Seq<char>,
)
    requires
        fa != fb || fa is Unknown,
    ensures
        apply_status_value(apply_status_value(sv, fa, va), fb, vb) == apply_status_value(
            apply_status_value(sv, fb, vb),
            fa,
            va,
        ),
{
    if status_effective(fa, va) && status_effective(fb, vb) {
        lemma_write_commutes(sv, fa, va, fb, vb);
    }
}

/// Distinct recognized keys address distinct fields.
proof fn lemma_status_field_injective(k1: Seq<char>, k2: Seq<char>)
    requires
        status_field_of(k1) == status_field_of(k2),
        !(status_field_of(k1) is Unknown),
    ensures
        k1 == k2,
{
}

/// Two status lines that do not carry the same key may be applied in
/// either order.
pub proof fn lemma_status_apply_commutes(sv: StatusView, a: Seq<char>, b: Seq<char>)
    requires
        has_sep(a) && has_sep(b) ==> key_of(a) != key_of(b),
    ensures
        apply_status_line(apply_status_line(sv, a), b) == apply_status_line(
            apply_status_line(sv, b),
            a,
        ),
{
    if !has_sep(a) {
        assert(apply_status_line(sv, a) == sv);
        assert(apply_status_line(apply_status_line(sv, b), a) == apply_status_line(sv, b));
    } else if !has_sep(b) {
        assert(apply_status_line(sv, b) == sv);
        assert(apply_status_line(apply_status_line(sv, a), b) == apply_status_line(sv, a));
    } else {
        let fa = status_field_of(key_of(a));
        let fb = status_field_of(key_of(b));
        if fa == fb && !(fa is Unknown) {
            lemma_status_field_injective(key_of(a), key_of(b));
            assert(false);
        }
        lemma_update_commutes(sv, fa, val_of(a), fb, val_of(b));
    }
}

/// Status decoding is order-independent across distinct keys: swapping two
/// adjacent lines whose keys differ leaves the decoded snapshot unchanged,
/// wherever in the block they stand. Any reordering of a block whose
/// recognized keys are pairwise distinct is a chain of such swaps.
pub proof fn lemma_status_order_independent(
    pre: Seq<Seq<char>>,
    a: Seq<char>,
    b: Seq<char>,
    post: Seq<Seq<char>>,
)
    requires
        has_sep(a) && has_sep(b) ==> key_of(a) != key_of(b),
    ensures
        status_of(pre + seq![a, b] + post) == status_of(pre + seq![b, a] + post),
    decreases post.len(),
{
    if post.len() == 0 {
        assert(pre + seq![a, b] + post =~= pre.push(a).push(b));
        assert(pre + seq![b, a] + post =~= pre.push(b).push(a));
        assert(pre.push(a).push(b).drop_last() =~= pre.push(a));
        assert(pre.push(b).push(a).drop_last() =~= pre.push(b));
        assert(pre.push(a).drop_last() =~= pre);
        assert(pre.push(b).drop_last() =~= pre);
        lemma_status_apply_commutes(status_of(pre), a, b);
    } else {
        let post2 = post.drop_last();
        let x = post.last();
        assert(pre + seq![a, b] + post =~= (pre + seq![a, b] + post2).push(x));
        assert(pre + seq![b, a] + post =~= (pre + seq![b, a] + post2).push(x));
        assert((pre + seq![a, b] + post2).push(x).drop_last() =~= pre + seq![a, b] + post2);
        assert((pre + seq![b, a] + post2).push(x).drop_last() =~= pre + seq![b, a] + post2);
        lemma_status_order_independent(pre, a, b, post2);
    }
}

} // verus!

