use spotifypi_remote::command::Command;
use spotifypi_remote::my_dialogs::PowerDialog;
use spotifypi_remote::my_enums::{MyAppMessage, PowerOption, WSEventValue};
use spotifypi_remote::panel::{Alert, ConnectLabel, ControlPanel, PanelAction};

fn disconnected_widgets() -> Vec<PanelAction> {
    vec![
        PanelAction::ConnectWidgets { enable: true, label: ConnectLabel::Connect },
        PanelAction::ControlWidgets { enable: false },
    ]
}

#[test]
fn panel_starts_disconnected() {
    let panel = ControlPanel::new();
    assert_eq!(panel.handle(), None);
    assert_eq!(panel.startup(), disconnected_widgets());
}

#[test]
fn no_command_without_a_session() {
    let mut panel = ControlPanel::new();
    for message in [
        MyAppMessage::PrevTrack,
        MyAppMessage::NextTrack,
        MyAppMessage::PlayPause,
        MyAppMessage::ToggleShuffle,
        MyAppMessage::ToggleRepeat,
        MyAppMessage::ChangeVolume,
    ] {
        assert_eq!(panel.handle_message(message, 50), vec![]);
    }
    assert_eq!(panel.power_chosen(PowerOption::Shutdown), vec![]);
    assert_eq!(panel.handle(), None);
}

#[test]
fn connect_click_opens_a_session() {
    let mut panel = ControlPanel::new();
    assert_eq!(
        panel.handle_message(MyAppMessage::ClickConnect, 50),
        vec![
            PanelAction::ConnectWidgets { enable: false, label: ConnectLabel::Connecting },
            PanelAction::OpenSession { session: 0 },
        ]
    );
    assert_eq!(panel.handle(), Some(0));
}

#[test]
fn buttons_send_their_commands() {
    let mut panel = ControlPanel::new();
    panel.handle_message(MyAppMessage::ClickConnect, 50);
    let cases = [
        (MyAppMessage::PrevTrack, Command::PreviousTrack),
        (MyAppMessage::PlayPause, Command::TogglePlayPause),
        (MyAppMessage::NextTrack, Command::NextTrack),
        (MyAppMessage::ToggleShuffle, Command::ToggleShuffle),
        (MyAppMessage::ToggleRepeat, Command::ToggleRepeat),
        (MyAppMessage::ChangeVolume, Command::SetVolume(73)),
    ];
    for (message, command) in cases {
        assert_eq!(
            panel.handle_message(message, 73),
            vec![PanelAction::Send { session: 0, command }]
        );
    }
}

#[test]
fn power_click_asks_and_the_answer_sends() {
    let mut panel = ControlPanel::new();
    panel.handle_message(MyAppMessage::ClickConnect, 50);
    assert_eq!(panel.handle_message(MyAppMessage::ClickPower, 50), vec![PanelAction::AskPower]);
    assert_eq!(
        panel.power_chosen(PowerOption::Shutdown),
        vec![PanelAction::Send { session: 0, command: Command::Shutdown }]
    );
    assert_eq!(
        panel.power_chosen(PowerOption::Reboot),
        vec![PanelAction::Send { session: 0, command: Command::Reboot }]
    );
    assert_eq!(panel.power_chosen(PowerOption::Unknown), vec![]);
}

#[test]
fn successful_connection_asks_for_the_volume() {
    let mut panel = ControlPanel::new();
    panel.handle_message(MyAppMessage::ClickConnect, 50);
    assert_eq!(
        panel.handle_message(MyAppMessage::WSEventValue(WSEventValue::Connect(true)), 50),
        vec![
            PanelAction::ConnectWidgets { enable: false, label: ConnectLabel::Connected },
            PanelAction::ControlWidgets { enable: true },
            PanelAction::Send { session: 0, command: Command::GetVolume },
        ]
    );
}

#[test]
fn failed_connection_and_disconnect_alert() {
    let mut panel = ControlPanel::new();
    panel.handle_message(MyAppMessage::ClickConnect, 50);
    let mut failed = disconnected_widgets();
    failed.push(PanelAction::Alert(Alert::ConnectFailed));
    assert_eq!(
        panel.handle_message(MyAppMessage::WSEventValue(WSEventValue::Connect(false)), 50),
        failed
    );
    let mut closed = disconnected_widgets();
    closed.push(PanelAction::Alert(Alert::ConnectionClosed));
    assert_eq!(
        panel.handle_message(MyAppMessage::WSEventValue(WSEventValue::Disconnect), 50),
        closed
    );
}

#[test]
fn volume_report_is_shown() {
    let mut panel = ControlPanel::new();
    assert_eq!(
        panel.handle_message(MyAppMessage::WSEventValue(WSEventValue::Volume(64)), 50),
        vec![PanelAction::ShowVolume(64)]
    );
    assert_eq!(
        panel.handle_message(MyAppMessage::WSEventValue(WSEventValue::Volume(-3)), 50),
        vec![PanelAction::ShowVolume(-3)]
    );
}

#[test]
fn other_reports_need_no_action() {
    let mut panel = ControlPanel::new();
    panel.handle_message(MyAppMessage::ClickConnect, 50);
    for report in [
        WSEventValue::Unknown,
        WSEventValue::Missing,
        WSEventValue::NotFound,
        WSEventValue::PrevTrack(true),
        WSEventValue::NextTrack(false),
        WSEventValue::TogglePlayPause(true),
        WSEventValue::ToggleShuffle(false),
        WSEventValue::ToggleRepeatState(true),
    ] {
        assert_eq!(panel.handle_message(MyAppMessage::WSEventValue(report), 50), vec![]);
    }
    assert_eq!(panel.handle(), Some(0));
}

#[test]
fn second_connection_supersedes_the_first() {
    let mut panel = ControlPanel::new();
    panel.handle_message(MyAppMessage::ClickConnect, 50);
    let first = panel.handle().unwrap();
    assert_eq!(
        panel.handle_message(MyAppMessage::NextTrack, 50),
        vec![PanelAction::Send { session: first, command: Command::NextTrack }]
    );

    let opened = panel.handle_message(MyAppMessage::ClickConnect, 50);
    let second = panel.handle().unwrap();
    assert_ne!(first, second);
    assert_eq!(opened[1], PanelAction::OpenSession { session: second });

    let messages = [
        MyAppMessage::PrevTrack,
        MyAppMessage::ChangeVolume,
        MyAppMessage::WSEventValue(WSEventValue::Connect(true)),
        MyAppMessage::WSEventValue(WSEventValue::Disconnect),
        MyAppMessage::ToggleRepeat,
    ];
    let mut sent = 0;
    for message in messages {
        for action in panel.handle_message(message, 50) {
            if let PanelAction::Send { session, .. } = action {
                assert_eq!(session, second);
                sent += 1;
            }
        }
    }
    for action in panel.power_chosen(PowerOption::Reboot) {
        if let PanelAction::Send { session, .. } = action {
            assert_eq!(session, second);
            sent += 1;
        }
    }
    assert_eq!(sent, 5);
}

#[test]
fn session_numbers_count_up() {
    let mut panel = ControlPanel::new();
    for expected in 0..5u64 {
        panel.handle_message(MyAppMessage::ClickConnect, 0);
        assert_eq!(panel.handle(), Some(expected));
    }
}

#[test]
fn label_and_alert_texts() {
    assert_eq!(ConnectLabel::Connect.text(), "Connect");
    assert_eq!(ConnectLabel::Connecting.text(), "Connecting...");
    assert_eq!(ConnectLabel::Connected.text(), "Connected");
    assert_eq!(Alert::ConnectFailed.text(), "Connect failed.");
    assert_eq!(Alert::ConnectionClosed.text(), "WebSocket connection closed.");
}

#[test]
fn power_dialog_value() {
    assert_eq!(PowerDialog::new(true, 0).value(), PowerOption::Shutdown);
    assert_eq!(PowerDialog::new(true, 1).value(), PowerOption::Reboot);
    assert_eq!(PowerDialog::new(true, 2).value(), PowerOption::Unknown);
    assert_eq!(PowerDialog::new(true, -1).value(), PowerOption::Unknown);
    assert_eq!(PowerDialog::new(false, 0).value(), PowerOption::Unknown);
    assert_eq!(PowerDialog::new(false, 1).value(), PowerOption::Unknown);
}
