//! The messages that travel between the control panel and the connection
//! bridge.

use vstd::prelude::*;

verus! {

/// A status report of the player, decoded from one wire frame, or a report
/// of the bridge about its connection.
#[derive(Copy, Clone, Debug, PartialEq, Eq, Structural)]
pub enum WSEventValue {
    /// A frame that is no report the panel knows.
    Unknown,
    /// The player reported `error` with the value `missing`.
    Missing,
    /// The player reported `error` with the value `not_found`.
    NotFound,
    /// The connection has ended.
    Disconnect,
    /// The outcome of a connection attempt.
    Connect(bool),
    /// The volume the player is set to.
    Volume(i32),
    /// Answer to `prev_track`.
    PrevTrack(bool),
    /// Answer to `next_track`.
    NextTrack(bool),
    /// Answer to `toggle_play_pause`.
    TogglePlayPause(bool),
    /// Answer to `toggle_shuffle`.
    ToggleShuffle(bool),
    /// Answer to `toggle_repeat_state`.
    ToggleRepeatState(bool),
}

/// What reaches the panel's event loop: a user action on a widget, or a
/// report from the bridge.
#[derive(Copy, Clone, Debug, PartialEq, Eq, Structural)]
pub enum MyAppMessage {
    ClickConnect,
    PrevTrack,
    NextTrack,
    PlayPause,
    ToggleShuffle,
    ToggleRepeat,
    ClickPower,
    ChangeVolume,
    WSEventValue(WSEventValue),
}

/// The answer of the power dialog.
#[derive(Copy, Clone, Debug, PartialEq, Eq, Structural)]
pub enum PowerOption {
    Shutdown,
    Reboot,
    Unknown,
}

} // verus!
