use spotifypi_remote::bridge::{Bridge, BridgeAction, BridgePhase, TransportEvent};
use spotifypi_remote::command::Command;
use spotifypi_remote::my_enums::WSEventValue;

fn dialing() -> Bridge {
    let (bridge, action) = Bridge::open("spotifypi.local:9487");
    assert_eq!(action, BridgeAction::Dial("ws://spotifypi.local:9487/".to_string()));
    assert_eq!(bridge.phase(), BridgePhase::Connecting);
    bridge
}

fn connected() -> Bridge {
    let mut bridge = dialing();
    let action = bridge.step(TransportEvent::Connected);
    assert_eq!(action, BridgeAction::Notify(WSEventValue::Connect(true)));
    bridge
}

fn frame(text: &str) -> TransportEvent {
    TransportEvent::Incoming(text.as_bytes().to_vec())
}

#[test]
fn session_from_connect_to_close() {
    let (mut bridge, first) = Bridge::open("spotifypi.local:9487");
    assert_eq!(first, BridgeAction::Dial("ws://spotifypi.local:9487/".to_string()));

    let mut reports = Vec::new();
    let mut written = Vec::new();
    let events = vec![
        TransportEvent::Connected,
        TransportEvent::Outgoing(Command::PreviousTrack),
        frame("[prev_track](ok)"),
        TransportEvent::Closed,
        TransportEvent::Outgoing(Command::NextTrack),
        frame("[next_track](ok)"),
        TransportEvent::Closed,
    ];
    for event in events {
        match bridge.step(event) {
            BridgeAction::Notify(report) => reports.push(report),
            BridgeAction::Transmit(text) => written.push(text),
            BridgeAction::Dial(_) => panic!("a session dials once"),
            BridgeAction::Idle => {}
        }
    }
    assert_eq!(
        reports,
        vec![
            WSEventValue::Connect(true),
            WSEventValue::PrevTrack(true),
            WSEventValue::Disconnect,
        ]
    );
    assert_eq!(written, vec!["prev_track".to_string()]);
    assert!(bridge.is_finished());
}

#[test]
fn refused_handshake() {
    let mut bridge = dialing();
    assert_eq!(
        bridge.step(TransportEvent::Refused),
        BridgeAction::Notify(WSEventValue::Connect(false))
    );
    assert!(bridge.is_finished());
    assert_eq!(bridge.step(TransportEvent::Closed), BridgeAction::Idle);
    assert_eq!(bridge.step(TransportEvent::Connected), BridgeAction::Idle);
    assert_eq!(bridge.step(frame("[volume](1)")), BridgeAction::Idle);
    assert_eq!(bridge.phase(), BridgePhase::Finished);
}

#[test]
fn target_that_makes_no_url() {
    for target in ["", "host:notaport", "host:99999999", ":80"] {
        let (mut bridge, action) = Bridge::open(target);
        assert_eq!(action, BridgeAction::Notify(WSEventValue::Connect(false)), "{:?}", target);
        assert!(bridge.is_finished());
        assert_eq!(bridge.step(TransportEvent::Connected), BridgeAction::Idle);
        assert_eq!(bridge.step(TransportEvent::Closed), BridgeAction::Idle);
    }
}

#[test]
fn start_with_and_without_url() {
    let (bridge, action) = Bridge::start(Some("ws://player/".to_string()));
    assert_eq!(action, BridgeAction::Dial("ws://player/".to_string()));
    assert_eq!(bridge.phase(), BridgePhase::Connecting);
    assert!(!bridge.is_finished());

    let (bridge, action) = Bridge::start(None);
    assert_eq!(action, BridgeAction::Notify(WSEventValue::Connect(false)));
    assert_eq!(bridge.phase(), BridgePhase::Finished);
}

#[test]
fn target_is_parsed_behind_the_scheme() {
    let (_, action) = Bridge::open("192.168.1.20:9487");
    assert_eq!(action, BridgeAction::Dial("ws://192.168.1.20:9487/".to_string()));
    let (_, action) = Bridge::open("SpotifyPi.Local");
    assert_eq!(action, BridgeAction::Dial("ws://spotifypi.local/".to_string()));
    let (_, action) = Bridge::open("player:80/path");
    assert_eq!(action, BridgeAction::Dial("ws://player/path".to_string()));
}

#[test]
fn commands_are_written_in_order() {
    let mut bridge = connected();
    let commands = [
        Command::GetVolume,
        Command::SetVolume(30),
        Command::NextTrack,
        Command::SetVolume(31),
        Command::Shutdown,
    ];
    let mut written = Vec::new();
    for command in commands {
        match bridge.step(TransportEvent::Outgoing(command)) {
            BridgeAction::Transmit(text) => written.push(text),
            other => panic!("{:?}", other),
        }
    }
    assert_eq!(written, vec!["get_volume", "set_volume 30", "next_track", "set_volume 31", "shutdown"]);
    assert_eq!(bridge.phase(), BridgePhase::Open);
}

#[test]
fn frames_are_reported_in_order() {
    let mut bridge = connected();
    let frames = ["[volume](40)", "garbage", "[error](missing)", "[next_track](ok)"];
    let mut reports = Vec::new();
    for text in frames {
        match bridge.step(frame(text)) {
            BridgeAction::Notify(report) => reports.push(report),
            other => panic!("{:?}", other),
        }
    }
    assert_eq!(
        reports,
        vec![
            WSEventValue::Volume(40),
            WSEventValue::Unknown,
            WSEventValue::Missing,
            WSEventValue::NextTrack(true),
        ]
    );
    assert_eq!(bridge.phase(), BridgePhase::Open);
}

#[test]
fn payload_that_is_not_utf8_is_passed_over() {
    let mut bridge = connected();
    assert_eq!(bridge.step(TransportEvent::Incoming(vec![0xff, 0xfe])), BridgeAction::Idle);
    assert_eq!(bridge.step(TransportEvent::Incoming(vec![b'[', 0xc3, b']'])), BridgeAction::Idle);
    assert_eq!(bridge.phase(), BridgePhase::Open);
    assert_eq!(
        bridge.step(TransportEvent::Incoming("[é](ok)".as_bytes().to_vec())),
        BridgeAction::Notify(WSEventValue::Unknown)
    );
    assert_eq!(
        bridge.step(TransportEvent::Incoming(Vec::new())),
        BridgeAction::Notify(WSEventValue::Unknown)
    );
}

#[test]
fn fault_does_not_end_the_session() {
    let mut bridge = connected();
    assert_eq!(bridge.step(TransportEvent::Fault), BridgeAction::Idle);
    assert_eq!(bridge.phase(), BridgePhase::Open);
    assert_eq!(bridge.step(frame("[volume](2)")), BridgeAction::Notify(WSEventValue::Volume(2)));
    assert_eq!(bridge.step(TransportEvent::Closed), BridgeAction::Notify(WSEventValue::Disconnect));
    assert_eq!(bridge.step(TransportEvent::Closed), BridgeAction::Idle);
}

#[test]
fn events_out_of_their_phase_change_nothing() {
    let mut bridge = dialing();
    assert_eq!(bridge.step(TransportEvent::Outgoing(Command::Reboot)), BridgeAction::Idle);
    assert_eq!(bridge.step(frame("[volume](2)")), BridgeAction::Idle);
    assert_eq!(bridge.step(TransportEvent::Fault), BridgeAction::Idle);
    assert_eq!(bridge.step(TransportEvent::Closed), BridgeAction::Idle);
    assert_eq!(bridge.phase(), BridgePhase::Connecting);

    let mut bridge = connected();
    assert_eq!(bridge.step(TransportEvent::Connected), BridgeAction::Idle);
    assert_eq!(bridge.step(TransportEvent::Refused), BridgeAction::Idle);
    assert_eq!(bridge.phase(), BridgePhase::Open);
}
