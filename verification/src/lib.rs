//! Remote control for a SpotifyPi media player: the wire codec, the
//! connection bridge and the decisions of the control panel.

pub mod bridge;
pub mod command;
pub mod decimal;
pub mod frame;
pub mod my_dialogs;
pub mod my_enums;
pub mod panel;
pub mod ws;
