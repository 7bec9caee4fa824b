//! The commands that the panel sends to the player, and their wire text.

use crate::decimal::{decimal_text, format_u32};
use vstd::prelude::*;

verus! {

/// One command for the player.
#[derive(Copy, Clone, Debug, PartialEq, Eq, Structural)]
pub enum Command {
    PreviousTrack,
    NextTrack,
    TogglePlayPause,
    ToggleShuffle,
    ToggleRepeat,
    Shutdown,
    Reboot,
    /// Set the volume; the panel offers 0 to 100.
    SetVolume(u32),
    /// Ask for the volume, which the player answers with a `volume` frame.
    GetVolume,
}

impl Command {
    /// The text that goes out as one frame for this command.
    pub open spec fn wire_text(self) -> Seq<char> {
        match self {
            Command::PreviousTrack => "prev_track"@,
            Command::NextTrack => "next_track"@,
            Command::TogglePlayPause => "toggle_play_pause"@,
            Command::ToggleShuffle => "toggle_shuffle"@,
            Command::ToggleRepeat => "toggle_repeat_state"@,
            Command::Shutdown => "shutdown"@,
            Command::Reboot => "reboot"@,
            Command::SetVolume(volume) => "set_volume "@ + decimal_text(volume as nat),
            Command::GetVolume => "get_volume"@,
        }
    }

    /// Writes the command as wire text.
    pub fn encode(&self) -> (text: String)
        ensures
            text@ == self.wire_text(),
    {
        match self {
            Command::PreviousTrack => String::from_str("prev_track"),
            Command::NextTrack => String::from_str("next_track"),
            Command::TogglePlayPause => String::from_str("toggle_play_pause"),
            Command::ToggleShuffle => String::from_str("toggle_shuffle"),
            Command::ToggleRepeat => String::from_str("toggle_repeat_state"),
            Command::Shutdown => String::from_str("shutdown"),
            Command::Reboot => String::from_str("reboot"),
            Command::SetVolume(volume) => {
                let number = format_u32(*volume);
                String::from_str("set_volume ").concat(number.as_str())
            },
            Command::GetVolume => String::from_str("get_volume"),
        }
    }
}

} // verus!
