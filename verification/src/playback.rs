//! The closed domain enumerations of the protocol: playback state and the
//! tri-state queue modifiers, each with its documented default and a total
//! parsing function.

use vstd::prelude::*;
use crate::text::str_eq;

verus! {

/// Tri-state queue modifier. The protocol defines a transient `oneshot`
/// mode distinct from sustained on/off, so this is not a boolean.
#[derive(Clone, Copy, Debug, PartialEq, Eq, Structural)]
pub enum MPDQueueState {
    Off,
    On,
    Oneshot,
}

impl Default for MPDQueueState {
    /// The documented default modifier state.
    fn default() -> (r: Self)
        ensures
            r == MPDQueueState::Off,
    {
        MPDQueueState::Off
    }
}

impl MPDQueueState {
    /// `"0"` is off, `"1"` is on, `"oneshot"` is oneshot; nothing else is a
    /// modifier state.
    pub open spec fn spec_parse(s: Seq<char>) -> Option<MPDQueueState> {
        if s == "0"@ {
            Some(MPDQueueState::Off)
        } else if s == "1"@ {
            Some(MPDQueueState::On)
        } else if s == "oneshot"@ {
            Some(MPDQueueState::Oneshot)
        } else {
            None
        }
    }

    /// Total parser for the modifier text: unrecognized text is rejected,
    /// never a panic.
    pub fn parse(s: &str) -> (r: Option<MPDQueueState>)
        ensures
            r == MPDQueueState::spec_parse(s@),
    {
        if str_eq(s, "0") {
            Some(MPDQueueState::Off)
        } else if str_eq(s, "1") {
            Some(MPDQueueState::On)
        } else if str_eq(s, "oneshot") {
            Some(MPDQueueState::Oneshot)
        } else {
            None
        }
    }
}

/// Playback state of the daemon.
#[derive(Clone, Copy, Debug, PartialEq, Eq, Structural)]
pub enum MPDState {
    Play,
    Stop,
    Pause,
}

impl Default for MPDState {
    /// The documented default playback state.
    fn default() -> (r: Self)
        ensures
            r == MPDState::Stop,
    {
        MPDState::Stop
    }
}

impl MPDState {
    /// `"play"`, `"stop"` and `"pause"` are the only playback states.
    pub open spec fn spec_parse(s: Seq<char>) -> Option<MPDState> {
        if s == "play"@ {
            Some(MPDState::Play)
        } else if s == "stop"@ {
            Some(MPDState::Stop)
        } else if s == "pause"@ {
            Some(MPDState::Pause)
        } else {
            None
        }
    }

    /// Total parser for the playback-state text: unrecognized text is
    /// rejected, never a panic.
    pub fn parse(s: &str) -> (r: Option<MPDState>)
        ensures
            r == MPDState::spec_parse(s@),
    {
        if str_eq(s, "play") {
            Some(MPDState::Play)
        } else if str_eq(s, "stop") {
            Some(MPDState::Stop)
        } else if str_eq(s, "pause") {
            Some(MPDState::Pause)
        } else {
            None
        }
    }
}

} // verus!
