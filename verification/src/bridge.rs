//! The connection bridge: one session with the player, from the attempt to
//! connect to the end of the connection.
//!
//! The bridge decides; it does not touch the socket. Whoever runs the
//! session hands it what happened on the transport, one event at a time, and
//! carries out what it answers: dial, write a frame, tell the panel.

use crate::command::Command;
use crate::my_enums::WSEventValue;
use crate::ws::{convert_output_msg, decode_text};
use vstd::prelude::*;
use vstd::utf8::{decode_utf8, valid_utf8};

verus! {

/// How far a session has come.
#[derive(Copy, Clone, Debug, PartialEq, Eq, Structural)]
pub enum BridgePhase {
    /// The handshake has not ended yet.
    Connecting,
    /// Connected: frames go both ways.
    Open,
    /// Over, for good: a bridge does not connect again.
    Finished,
}

/// What happened on the transport.
#[derive(Clone, Debug, PartialEq, Eq)]
pub enum TransportEvent {
    /// The handshake succeeded.
    Connected,
    /// The handshake failed.
    Refused,
    /// The next command was taken from the outgoing queue.
    Outgoing(Command),
    /// A frame arrived, with this payload.
    Incoming(Vec<u8>),
    /// A frame arrived that could not be read.
    Fault,
    /// The outgoing queue or the incoming stream has ended.
    Closed,
}

/// What is to be done next.
#[derive(Clone, Debug, PartialEq, Eq)]
pub enum BridgeAction {
    /// Connect to this address.
    Dial(String),
    /// Hand this report to the panel.
    Notify(WSEventValue),
    /// Write this text to the socket as one frame.
    Transmit(String),
    /// Nothing.
    Idle,
}

/// A transport event as a value of specifications.
pub enum TransportInput {
    Connected,
    Refused,
    Outgoing(Command),
    Incoming(Seq<u8>),
    Fault,
    Closed,
}

/// An action as a value of specifications.
pub enum BridgeOutput {
    Dial(Seq<char>),
    Notify(WSEventValue),
    Transmit(Seq<char>),
    Idle,
}

impl View for TransportEvent {
    type V = TransportInput;

    open spec fn view(&self) -> TransportInput {
        match self {
            TransportEvent::Connected => TransportInput::Connected,
            TransportEvent::Refused => TransportInput::Refused,
            TransportEvent::Outgoing(command) => TransportInput::Outgoing(*command),
            TransportEvent::Incoming(payload) => TransportInput::Incoming(payload@),
            TransportEvent::Fault => TransportInput::Fault,
            TransportEvent::Closed => TransportInput::Closed,
        }
    }
}

impl View for BridgeAction {
    type V = BridgeOutput;

    open spec fn view(&self) -> BridgeOutput {
        match self {
            BridgeAction::Dial(address) => BridgeOutput::Dial(address@),
            BridgeAction::Notify(report) => BridgeOutput::Notify(*report),
            BridgeAction::Transmit(text) => BridgeOutput::Transmit(text@),
            BridgeAction::Idle => BridgeOutput::Idle,
        }
    }
}

/// The address that is parsed for a target `host:port`: the target behind
/// the scheme of the protocol.
pub open spec fn ws_address(target: Seq<char>) -> Seq<char> {
    "ws://"@ + target
}

/// The URL that `url::Url::parse` makes of a text, as the text it is
/// serialized to; `None` where it returns an error.
pub uninterp spec fn parsed_url(input: Seq<char>) -> Option<Seq<char>>;

/// The answer of a bridge to a payload: the report that its text decodes
/// to, and nothing where the payload is not UTF-8.
pub open spec fn payload_output(payload: Seq<u8>) -> BridgeOutput {
    if valid_utf8(payload) {
        BridgeOutput::Notify(decode_text(decode_utf8(payload)))
    } else {
        BridgeOutput::Idle
    }
}

/// How a bridge begins: with a URL it dials, without one it reports the
/// failed connection and is over.
pub open spec fn bridge_start(url: Option<Seq<char>>) -> (BridgePhase, BridgeOutput) {
    match url {
        Some(address) => (BridgePhase::Connecting, BridgeOutput::Dial(address)),
        None => (BridgePhase::Finished, BridgeOutput::Notify(WSEventValue::Connect(false))),
    }
}

/// One step of a session: the phase after the event, and the action it asks
/// for. An event that cannot come in a phase changes nothing.
pub open spec fn bridge_step(phase: BridgePhase, input: TransportInput) -> (
    BridgePhase,
    BridgeOutput,
) {
    match phase {
        BridgePhase::Connecting => match input {
            TransportInput::Connected => (
                BridgePhase::Open,
                BridgeOutput::Notify(WSEventValue::Connect(true)),
            ),
            TransportInput::Refused => (
                BridgePhase::Finished,
                BridgeOutput::Notify(WSEventValue::Connect(false)),
            ),
            _ => (BridgePhase::Connecting, BridgeOutput::Idle),
        },
        BridgePhase::Open => match input {
            TransportInput::Outgoing(command) => (
                BridgePhase::Open,
                BridgeOutput::Transmit(command.wire_text()),
            ),
            TransportInput::Incoming(payload) => (BridgePhase::Open, payload_output(payload)),
            TransportInput::Closed => (
                BridgePhase::Finished,
                BridgeOutput::Notify(WSEventValue::Disconnect),
            ),
            _ => (BridgePhase::Open, BridgeOutput::Idle),
        },
        BridgePhase::Finished => (BridgePhase::Finished, BridgeOutput::Idle),
    }
}

/// The reports that a session hands to the panel, in their order, while it
/// takes `inputs` one after the other, from `phase` on.
pub open spec fn reports(phase: BridgePhase, inputs: Seq<TransportInput>) -> Seq<WSEventValue>
    decreases inputs.len(),
{
    if inputs.len() == 0 {
        Seq::empty()
    } else {
        let (next, output) = bridge_step(phase, inputs[0]);
        let rest = reports(next, inputs.drop_first());
        match output {
            BridgeOutput::Notify(report) => seq![report] + rest,
            _ => rest,
        }
    }
}

/// The frames that a session writes to the socket, in their order, while it
/// takes `inputs` one after the other, from `phase` on.
pub open spec fn written(phase: BridgePhase, inputs: Seq<TransportInput>) -> Seq<Seq<char>>
    decreases inputs.len(),
{
    if inputs.len() == 0 {
        Seq::empty()
    } else {
        let (next, output) = bridge_step(phase, inputs[0]);
        let rest = written(next, inputs.drop_first());
        match output {
            BridgeOutput::Transmit(text) => seq![text] + rest,
            _ => rest,
        }
    }
}

/// The wire texts of the commands that `inputs` take from the queue before
/// the transport closes, in their order.
pub open spec fn queued_texts(inputs: Seq<TransportInput>) -> Seq<Seq<char>>
    decreases inputs.len(),
{
    if inputs.len() == 0 {
        Seq::empty()
    } else {
        match inputs[0] {
            TransportInput::Closed => Seq::empty(),
            TransportInput::Outgoing(command) => seq![command.wire_text()] + queued_texts(
                inputs.drop_first(),
            ),
            _ => queued_texts(inputs.drop_first()),
        }
    }
}

/// No frame decodes to a report about the connection: those come from the
/// bridge alone.
pub proof fn lemma_frames_report_the_player(text: Seq<char>)
    ensures
        !(decode_text(text) is Connect),
        !(decode_text(text) is Disconnect),
{
}

/// A session that is over does nothing more: whatever happens on the
/// transport, it stays over, reports nothing and writes nothing.
pub proof fn lemma_finished_is_final(inputs: Seq<TransportInput>)
    ensures
        forall|input: TransportInput|
            #[trigger] bridge_step(BridgePhase::Finished, input) == (
                BridgePhase::Finished,
                BridgeOutput::Idle,
            ),
        reports(BridgePhase::Finished, inputs) == Seq::<WSEventValue>::empty(),
        written(BridgePhase::Finished, inputs) == Seq::<Seq<char>>::empty(),
    decreases inputs.len(),
{
    if inputs.len() > 0 {
        lemma_finished_is_final(inputs.drop_first());
    }
}

/// While a session is open it never reports `Connect`, and it reports
/// `Disconnect` at most once, as the last of its reports.
pub proof fn lemma_open_session_reports(inputs: Seq<TransportInput>)
    ensures
        forall|i: int|
            0 <= i < reports(BridgePhase::Open, inputs).len() ==> !(#[trigger] reports(
                BridgePhase::Open,
                inputs,
            )[i] is Connect),
        forall|i: int|
            0 <= i < reports(BridgePhase::Open, inputs).len() && #[trigger] reports(
                BridgePhase::Open,
                inputs,
            )[i] is Disconnect ==> i == reports(BridgePhase::Open, inputs).len() - 1,
    decreases inputs.len(),
{
    if inputs.len() > 0 {
        let all = reports(BridgePhase::Open, inputs);
        let (next, output) = bridge_step(BridgePhase::Open, inputs[0]);
        let rest = reports(next, inputs.drop_first());
        if next == BridgePhase::Open {
            lemma_open_session_reports(inputs.drop_first());
        } else {
            lemma_finished_is_final(inputs.drop_first());
        }
        if let TransportInput::Incoming(payload) = inputs[0] {
            lemma_frames_report_the_player(decode_utf8(payload));
        }
        match output {
            BridgeOutput::Notify(report) => {
                assert(all == seq![report] + rest);
                assert forall|i: int| 0 <= i < all.len() implies !(#[trigger] all[i] is Connect)
                    && (all[i] is Disconnect ==> i == all.len() - 1) by {
                    if i > 0 {
                        assert(all[i] == rest[i - 1]);
                    }
                }
            },
            _ => {
                assert(all == rest);
            },
        }
    }
}

/// The reports of a whole session. The first report is the outcome of the
/// connection attempt and no later one is; after a failed attempt nothing
/// else is reported; `Disconnect` is reported at most once, as the last
/// report.
pub proof fn lemma_session_reports(inputs: Seq<TransportInput>)
    ensures
        reports(BridgePhase::Connecting, inputs).len() > 0 ==> reports(
            BridgePhase::Connecting,
            inputs,
        )[0] is Connect,
        forall|i: int|
            1 <= i < reports(BridgePhase::Connecting, inputs).len() ==> !(#[trigger] reports(
                BridgePhase::Connecting,
                inputs,
            )[i] is Connect),
        reports(BridgePhase::Connecting, inputs).len() > 0 && reports(
            BridgePhase::Connecting,
            inputs,
        )[0] == WSEventValue::Connect(false) ==> reports(BridgePhase::Connecting, inputs).len()
            == 1,
        forall|i: int|
            0 <= i < reports(BridgePhase::Connecting, inputs).len() && #[trigger] reports(
                BridgePhase::Connecting,
                inputs,
            )[i] is Disconnect ==> i == reports(BridgePhase::Connecting, inputs).len() - 1,
    decreases inputs.len(),
{
    if inputs.len() > 0 {
        let all = reports(BridgePhase::Connecting, inputs);
        let (next, output) = bridge_step(BridgePhase::Connecting, inputs[0]);
        let rest = reports(next, inputs.drop_first());
        match next {
            BridgePhase::Connecting => {
                lemma_session_reports(inputs.drop_first());
                assert(all == rest);
            },
            BridgePhase::Open => {
                lemma_open_session_reports(inputs.drop_first());
                assert(all == seq![WSEventValue::Connect(true)] + rest);
                assert forall|i: int| 1 <= i < all.len() implies !(#[trigger] all[i] is Connect)
                    && (all[i] is Disconnect ==> i == all.len() - 1) by {
                    assert(all[i] == rest[i - 1]);
                }
            },
            BridgePhase::Finished => {
                lemma_finished_is_final(inputs.drop_first());
                assert(all == seq![WSEventValue::Connect(false)] + rest);
            },
        }
    }
}

/// Commands go out in the order in which they were queued: what an open
/// session writes is the wire text of each command it takes from the queue
/// before the transport closes, one frame for each, in that order.
pub proof fn lemma_commands_go_out_in_order(inputs: Seq<TransportInput>)
    ensures
        written(BridgePhase::Open, inputs) == queued_texts(inputs),
    decreases inputs.len(),
{
    if inputs.len() > 0 {
        let (next, output) = bridge_step(BridgePhase::Open, inputs[0]);
        if next == BridgePhase::Open {
            lemma_commands_go_out_in_order(inputs.drop_first());
        } else {
            lemma_finished_is_final(inputs.drop_first());
        }
    }
}

/// `String::from_utf8` of std: `Ok` exactly for a payload that is UTF-8, and
/// then with the text that the payload encodes.
#[verifier::external_body]
fn payload_text(payload: Vec<u8>) -> (r: Option<String>)
    ensures
        r is Some == valid_utf8(payload@),
        r matches Some(text) ==> text@ == decode_utf8(payload@),
{
    match String::from_utf8(payload) {
        Ok(text) => Some(text),
        Err(_) => None,
    }
}

/// `url::Url::parse`, and the text that the URL is serialized to.
///
/// Trusted: the outcome depends on the input alone; what it is, is only
/// named.
#[verifier::external_body]
fn parse_url(input: &str) -> (r: Option<String>)
    ensures
        r is Some == parsed_url(input@) is Some,
        r matches Some(address) ==> parsed_url(input@) == Some(address@),
{
    match url::Url::parse(input) {
        Ok(parsed) => Some(String::from(parsed)),
        Err(_) => None,
    }
}

/// One session with the player.
#[derive(Debug)]
pub struct Bridge {
    phase: BridgePhase,
}

impl Bridge {
    /// How far the session has come.
    pub closed spec fn spec_phase(&self) -> BridgePhase {
        self.phase
    }

    /// How far the session has come.
    #[verifier::when_used_as_spec(spec_phase)]
    pub fn phase(&self) -> (phase: BridgePhase)
        ensures
            phase == self.spec_phase(),
    {
        self.phase
    }

    /// Whether the session is over.
    pub fn is_finished(&self) -> (over: bool)
        ensures
            over == (self.phase() == BridgePhase::Finished),
    {
        match self.phase {
            BridgePhase::Finished => true,
            _ => false,
        }
    }

    /// Begins a session with the outcome of parsing its address.
    pub fn start(url: Option<String>) -> (begun: (Bridge, BridgeAction))
        ensures
            (begun.0.phase(), begun.1@) == bridge_start(
                match url {
                    Some(address) => Some(address@),
                    None => None,
                },
            ),
    {
        match url {
            Some(address) => (Bridge { phase: BridgePhase::Connecting }, BridgeAction::Dial(address)),
            None => (
                Bridge { phase: BridgePhase::Finished },
                BridgeAction::Notify(WSEventValue::Connect(false)),
            ),
        }
    }

    /// Begins a session with the player at `target`, given as `host:port`.
    /// A target that makes no URL is a failed connection.
    pub fn open(target: &str) -> (begun: (Bridge, BridgeAction))
        ensures
            (begun.0.phase(), begun.1@) == bridge_start(parsed_url(ws_address(target@))),
    {
        let address = String::from_str("ws://").concat(target);
        Bridge::start(parse_url(address.as_str()))
    }

    /// Takes one event of the transport and says what is to be done.
    pub fn step(&mut self, event: TransportEvent) -> (action: BridgeAction)
        ensures
            (final(self).phase(), action@) == bridge_step(old(self).phase(), event@),
    {
        match self.phase {
            BridgePhase::Connecting => match event {
                TransportEvent::Connected => {
                    self.phase = BridgePhase::Open;
                    BridgeAction::Notify(WSEventValue::Connect(true))
                },
                TransportEvent::Refused => {
                    self.phase = BridgePhase::Finished;
                    BridgeAction::Notify(WSEventValue::Connect(false))
                },
                _ => BridgeAction::Idle,
            },
            BridgePhase::Open => match event {
                TransportEvent::Outgoing(command) => BridgeAction::Transmit(command.encode()),
                TransportEvent::Incoming(payload) => match payload_text(payload) {
                    Some(text) => BridgeAction::Notify(convert_output_msg(text)),
                    None => BridgeAction::Idle,
                },
                TransportEvent::Closed => {
                    self.phase = BridgePhase::Finished;
                    BridgeAction::Notify(WSEventValue::Disconnect)
                },
                _ => BridgeAction::Idle,
            },
            BridgePhase::Finished => BridgeAction::Idle,
        }
    }
}

} // verus!
