//! The decisions of the control panel: what each message of its event loop
//! leads to.
//!
//! The panel owns at most one connection handle, the number of the session
//! that commands go to. A click on the connect button opens a new session
//! and takes its number as the handle, in place of the one before.

use crate::command::Command;
use crate::my_enums::{MyAppMessage, PowerOption, WSEventValue};
use vstd::prelude::*;

verus! {

/// What the connect button shows.
#[derive(Copy, Clone, Debug, PartialEq, Eq, Structural)]
pub enum ConnectLabel {
    Connect,
    Connecting,
    Connected,
}

/// What the panel tells the user in a dialog.
#[derive(Copy, Clone, Debug, PartialEq, Eq, Structural)]
pub enum Alert {
    ConnectFailed,
    ConnectionClosed,
}

/// One thing for the panel to do.
#[derive(Copy, Clone, Debug, PartialEq, Eq, Structural)]
pub enum PanelAction {
    /// Enable or disable the address field and the connect button, and set
    /// what the button shows.
    ConnectWidgets { enable: bool, label: ConnectLabel },
    /// Enable or disable the controls of the player.
    ControlWidgets { enable: bool },
    /// Open a session with this number to the address in the address field.
    OpenSession { session: u64 },
    /// Put the command into the outgoing queue of the session.
    Send { session: u64, command: Command },
    /// Show the power dialog, and call `power_chosen` with its answer.
    AskPower,
    /// Show this volume in the volume spinner.
    ShowVolume(i32),
    /// Show this alert.
    Alert(Alert),
}

impl ConnectLabel {
    /// The text on the button.
    pub open spec fn spec_text(self) -> Seq<char> {
        match self {
            ConnectLabel::Connect => "Connect"@,
            ConnectLabel::Connecting => "Connecting..."@,
            ConnectLabel::Connected => "Connected"@,
        }
    }

    /// The text on the button.
    pub fn text(&self) -> (text: &'static str)
        ensures
            text@ == self.spec_text(),
    {
        match self {
            ConnectLabel::Connect => "Connect",
            ConnectLabel::Connecting => "Connecting...",
            ConnectLabel::Connected => "Connected",
        }
    }
}

impl Alert {
    /// The text of the alert.
    pub open spec fn spec_text(self) -> Seq<char> {
        match self {
            Alert::ConnectFailed => "Connect failed."@,
            Alert::ConnectionClosed => "WebSocket connection closed."@,
        }
    }

    /// The text of the alert.
    pub fn text(&self) -> (text: &'static str)
        ensures
            text@ == self.spec_text(),
    {
        match self {
            Alert::ConnectFailed => "Connect failed.",
            Alert::ConnectionClosed => "WebSocket connection closed.",
        }
    }
}

/// How the widgets are set for a connected or a disconnected panel. While
/// connected the controls are enabled and the address is fixed; while
/// disconnected it is the other way round.
pub open spec fn widget_actions(connected: bool) -> Seq<PanelAction> {
    if connected {
        seq![
            PanelAction::ConnectWidgets { enable: false, label: ConnectLabel::Connected },
            PanelAction::ControlWidgets { enable: true },
        ]
    } else {
        seq![
            PanelAction::ConnectWidgets { enable: true, label: ConnectLabel::Connect },
            PanelAction::ControlWidgets { enable: false },
        ]
    }
}

/// Sending a command: to the session of the handle, and nowhere without a
/// handle.
pub open spec fn send_actions(handle: Option<u64>, command: Command) -> Seq<PanelAction> {
    match handle {
        Some(session) => seq![PanelAction::Send { session, command }],
        None => Seq::empty(),
    }
}

/// The number of the session that follows the one of `handle`.
pub open spec fn next_session(handle: Option<u64>) -> u64 {
    match handle {
        Some(session) => if session == u64::MAX {
            0
        } else {
            (session + 1) as u64
        },
        None => 0,
    }
}

/// The command that a click on one of the five player buttons sends.
pub open spec fn button_command(message: MyAppMessage) -> Option<Command> {
    match message {
        MyAppMessage::PrevTrack => Some(Command::PreviousTrack),
        MyAppMessage::PlayPause => Some(Command::TogglePlayPause),
        MyAppMessage::NextTrack => Some(Command::NextTrack),
        MyAppMessage::ToggleShuffle => Some(Command::ToggleShuffle),
        MyAppMessage::ToggleRepeat => Some(Command::ToggleRepeat),
        _ => None,
    }
}

/// What a report of the bridge leads to.
pub open spec fn report_actions(handle: Option<u64>, report: WSEventValue) -> Seq<PanelAction> {
    match report {
        WSEventValue::Connect(true) => widget_actions(true) + send_actions(
            handle,
            Command::GetVolume,
        ),
        WSEventValue::Connect(false) => widget_actions(false) + seq![
            PanelAction::Alert(Alert::ConnectFailed),
        ],
        WSEventValue::Disconnect => widget_actions(false) + seq![
            PanelAction::Alert(Alert::ConnectionClosed),
        ],
        WSEventValue::Volume(volume) => seq![PanelAction::ShowVolume(volume)],
        _ => Seq::empty(),
    }
}

/// One step of the panel: the handle after the message, and what is to be
/// done. `volume` is what the volume spinner shows.
pub open spec fn panel_step(handle: Option<u64>, message: MyAppMessage, volume: u32) -> (
    Option<u64>,
    Seq<PanelAction>,
) {
    match message {
        MyAppMessage::ClickConnect => (
            Some(next_session(handle)),
            seq![
                PanelAction::ConnectWidgets { enable: false, label: ConnectLabel::Connecting },
                PanelAction::OpenSession { session: next_session(handle) },
            ],
        ),
        MyAppMessage::ClickPower => (handle, seq![PanelAction::AskPower]),
        MyAppMessage::ChangeVolume => (handle, send_actions(handle, Command::SetVolume(volume))),
        MyAppMessage::WSEventValue(report) => (handle, report_actions(handle, report)),
        _ => (handle, send_actions(handle, button_command(message).unwrap())),
    }
}

/// What the answer of the power dialog leads to.
pub open spec fn power_actions(handle: Option<u64>, option: PowerOption) -> Seq<PanelAction> {
    match option {
        PowerOption::Shutdown => send_actions(handle, Command::Shutdown),
        PowerOption::Reboot => send_actions(handle, Command::Reboot),
        PowerOption::Unknown => Seq::empty(),
    }
}

/// Commands follow the handle. A click on the connect button opens a
/// session with a number other than that of the handle before, and takes it
/// as the handle; no other message changes the handle; and every command
/// that a step sends goes to the session of the handle after the step. So
/// once a new session is opened, the one before gets no command any more.
pub proof fn lemma_commands_follow_the_handle(
    handle: Option<u64>,
    message: MyAppMessage,
    volume: u32,
)
    ensures
        message is ClickConnect ==> panel_step(handle, message, volume).0 is Some && panel_step(
            handle,
            message,
            volume,
        ).0 != handle,
        !(message is ClickConnect) ==> panel_step(handle, message, volume).0 == handle,
        forall|i: int|
            0 <= i < panel_step(handle, message, volume).1.len() ==> (#[trigger] panel_step(
                handle,
                message,
                volume,
            ).1[i] matches PanelAction::Send { session, .. } ==> panel_step(
                handle,
                message,
                volume,
            ).0 == Some(session)),
        forall|option: PowerOption, i: int|
            0 <= i < power_actions(handle, option).len() ==> (#[trigger] power_actions(
                handle,
                option,
            )[i] matches PanelAction::Send { session, .. } ==> handle == Some(session)),
{
}

/// The control panel.
#[derive(Debug)]
pub struct ControlPanel {
    handle: Option<u64>,
}

impl ControlPanel {
    /// The connection handle: the number of the session that commands go
    /// to, if any was opened.
    pub closed spec fn spec_handle(&self) -> Option<u64> {
        self.handle
    }

    /// The connection handle.
    #[verifier::when_used_as_spec(spec_handle)]
    pub fn handle(&self) -> (handle: Option<u64>)
        ensures
            handle == self.spec_handle(),
    {
        self.handle
    }

    /// A panel that has opened no session yet.
    pub fn new() -> (panel: ControlPanel)
        ensures
            panel.handle() is None,
    {
        ControlPanel { handle: None }
    }

    /// How the widgets are set when the event loop begins: as for a
    /// disconnected panel.
    pub fn startup(&self) -> (actions: Vec<PanelAction>)
        ensures
            actions@ == widget_actions(false),
    {
        widgets(false)
    }

    /// Handles one message of the event loop. `volume` is what the volume
    /// spinner shows.
    pub fn handle_message(&mut self, message: MyAppMessage, volume: u32) -> (actions: Vec<
        PanelAction,
    >)
        ensures
            (final(self).handle(), actions@) == panel_step(old(self).handle(), message, volume),
    {
        match message {
            MyAppMessage::ClickConnect => {
                let session: u64 = match self.handle {
                    Some(before) => if before == u64::MAX {
                        0
                    } else {
                        before + 1
                    },
                    None => 0,
                };
                self.handle = Some(session);
                let actions = vec![
                    PanelAction::ConnectWidgets { enable: false, label: ConnectLabel::Connecting },
                    PanelAction::OpenSession { session },
                ];
                assert(actions@ =~= panel_step(old(self).handle(), message, volume).1);
                actions
            },
            MyAppMessage::PrevTrack => self.send(Command::PreviousTrack),
            MyAppMessage::PlayPause => self.send(Command::TogglePlayPause),
            MyAppMessage::NextTrack => self.send(Command::NextTrack),
            MyAppMessage::ToggleShuffle => self.send(Command::ToggleShuffle),
            MyAppMessage::ToggleRepeat => self.send(Command::ToggleRepeat),
            MyAppMessage::ClickPower => {
                let actions = vec![PanelAction::AskPower];
                assert(actions@ =~= seq![PanelAction::AskPower]);
                actions
            },
            MyAppMessage::ChangeVolume => self.send(Command::SetVolume(volume)),
            MyAppMessage::WSEventValue(report) => self.report(report),
        }
    }

    /// Handles the answer of the power dialog.
    pub fn power_chosen(&self, option: PowerOption) -> (actions: Vec<PanelAction>)
        ensures
            actions@ == power_actions(self.handle(), option),
    {
        match option {
            PowerOption::Shutdown => self.send(Command::Shutdown),
            PowerOption::Reboot => self.send(Command::Reboot),
            PowerOption::Unknown => Vec::new(),
        }
    }

    fn send(&self, command: Command) -> (actions: Vec<PanelAction>)
        ensures
            actions@ == send_actions(self.handle(), command),
    {
        match self.handle {
            Some(session) => {
                let actions = vec![PanelAction::Send { session, command }];
                assert(actions@ =~= send_actions(self.handle(), command));
                actions
            },
            None => Vec::new(),
        }
    }

    fn report(&self, report: WSEventValue) -> (actions: Vec<PanelAction>)
        ensures
            actions@ == report_actions(self.handle(), report),
    {
        match report {
            WSEventValue::Connect(true) => {
                let mut actions = widgets(true);
                let mut sent = self.send(Command::GetVolume);
                actions.append(&mut sent);
                actions
            },
            WSEventValue::Connect(false) => {
                let mut actions = widgets(false);
                actions.push(PanelAction::Alert(Alert::ConnectFailed));
                assert(actions@ =~= report_actions(self.handle(), report));
                actions
            },
            WSEventValue::Disconnect => {
                let mut actions = widgets(false);
                actions.push(PanelAction::Alert(Alert::ConnectionClosed));
                assert(actions@ =~= report_actions(self.handle(), report));
                actions
            },
            WSEventValue::Volume(volume) => {
                let actions = vec![PanelAction::ShowVolume(volume)];
                assert(actions@ =~= report_actions(self.handle(), report));
                actions
            },
            _ => Vec::new(),
        }
    }
}

fn widgets(connected: bool) -> (actions: Vec<PanelAction>)
    ensures
        actions@ == widget_actions(connected),
{
    let label = if connected {
        ConnectLabel::Connected
    } else {
        ConnectLabel::Connect
    };
    let actions = vec![
        PanelAction::ConnectWidgets { enable: !connected, label },
        PanelAction::ControlWidgets { enable: connected },
    ];
    assert(actions@ =~= widget_actions(connected));
    actions
}

} // verus!
