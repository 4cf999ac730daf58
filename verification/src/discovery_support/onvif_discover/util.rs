//! Building the probe, reading its replies, and steering the probing loop.

use vstd::prelude::*;
use vstd::string::*;
use crate::discovery_support::onvif_discover::common::Probe;
use crate::discovery_support::onvif_discover::common::ProbeMatch;
use crate::discovery_support::onvif_discover::probe_types::NETWORK_VIDEO_TRANSMITTER;
use crate::discovery_support::onvif_discover::to_deserialize;
use crate::discovery_support::onvif_discover::to_serialize;
use crate::text::clone_texts;
use crate::text::split_whitespace;
use crate::text::words;

verus! {

/// The WS-Addressing action of a probe.
pub const PROBE_ACTION: &'static str = "http://schemas.xmlsoap.org/ws/2005/04/discovery/Probe";

/// The WS-Addressing destination of a probe.
pub const PROBE_TO: &'static str = "urn:schemas-xmlsoap-org:ws:2005:04:discovery";

/// The multicast group that probes are sent to.
pub const MULTICAST_IPV4_ADDRESS: [u8; 4] = [239, 255, 255, 250];

/// The port that probes are sent to.
pub const MULTICAST_PORT: u16 = 3702;

/// How long one send or one receive on the socket may block, in
/// milliseconds.
pub const SOCKET_TIMEOUT_MILLIS: u64 = 200;

/// The size of the buffer that receives one reply, in bytes.
pub const RECEIVE_BUFFER_SIZE: usize = 16 * 1024;

/// The capacity of the channels that carry the completion and the
/// cancellation signal.
pub const SIGNAL_CHANNEL_CAPACITY: usize = 2;

/// Calls `uuid::Uuid::new_v4` and writes the identifier as text. Claimed:
/// the text, in hyphenated form, has 36 characters. Which identifier comes
/// back is left open. `new_v4` does not return where the operating system
/// gives no random bytes.
#[verifier::external_body]
fn random_uuid() -> (text: String)
    ensures
        text@.len() == 36,
{
    uuid::Uuid::new_v4().to_string()
}

/// The message identifier made of a UUID written as text.
pub open spec fn message_id_of(uuid_text: Seq<char>) -> Seq<char> {
    "uuid:"@ + uuid_text
}

/// Makes the message identifier of a probe out of a UUID written as text.
pub fn message_id(uuid_text: &str) -> (id: String)
    ensures
        id@ == message_id_of(uuid_text@),
{
    let mut id = String::from_str("uuid:");
    id.append(uuid_text);
    id
}

/// A message identifier for one probe, made of a random UUID.
pub fn new_message_id() -> (id: String)
    ensures
        exists|uuid_text: Seq<char>| uuid_text.len() == 36 && id@ == message_id_of(uuid_text),
{
    let uuid_text = random_uuid();
    message_id(uuid_text.as_str())
}

/// Builds the probe that asks for network video transmitters, under the
/// message identifier `uuid_string`.
pub fn create_onvif_discovery_message(uuid_string: &str) -> (envelope: to_serialize::Envelope)
    ensures
        envelope.header.message_id@ == uuid_string@,
        envelope.header.action@ == PROBE_ACTION@,
        envelope.header.reply_to@ == PROBE_TO@,
        envelope.body.probe.probe_types.deep_view() == seq![NETWORK_VIDEO_TRANSMITTER@],
{
    let probe_types: Vec<String> = vec![String::from_str(NETWORK_VIDEO_TRANSMITTER)];
    assert(probe_types.deep_view() =~= seq![NETWORK_VIDEO_TRANSMITTER@]);
    to_serialize::Envelope {
        header: to_serialize::Header {
            message_id: String::from_str(uuid_string),
            action: String::from_str(PROBE_ACTION),
            reply_to: String::from_str(PROBE_TO),
        },
        body: to_serialize::Body { probe: Probe { probe_types } },
    }
}

/// The service addresses that a list of answers names: the words of each
/// `xaddrs`, answer after answer.
pub open spec fn uris_of(matches: Seq<ProbeMatch>) -> Seq<Seq<char>>
    decreases matches.len(),
{
    if matches.len() == 0 {
        Seq::empty()
    } else {
        uris_of(matches.drop_last()) + words(matches.last().xaddrs@)
    }
}

/// Collects the service addresses that a reply to a probe names, in the
/// order in which the reply lists them.
pub fn get_device_uris_from_discovery_response(
    discovery_response: &to_deserialize::Envelope,
) -> (uris: Vec<String>)
    ensures
        uris.deep_view() == uris_of(discovery_response.body.probe_matches.probe_match@),
{
    let matches = &discovery_response.body.probe_matches.probe_match;
    let mut uris: Vec<String> = Vec::new();
    let mut i: usize = 0;
    assert(matches@.take(0) =~= Seq::empty());
    while i < matches.len()
        invariant
            i <= matches@.len(),
            uris.deep_view() == uris_of(matches@.take(i as int)),
        decreases matches@.len() - i,
    {
        let mut addrs = split_whitespace(matches[i].xaddrs.as_str());
        proof {
            assert(matches@.take(i + 1).drop_last() == matches@.take(i as int));
            assert(matches@.take(i + 1).last() == matches@[i as int]);
        }
        let ghost before = uris.deep_view();
        let ghost added = addrs.deep_view();
        uris.append(&mut addrs);
        assert(uris.deep_view() =~= before + added);
        i = i + 1;
    }
    assert(matches@.take(i as int) == matches@);
    uris
}

/// Where a probe stands.
#[derive(Clone, Copy, Debug, PartialEq, Eq, Structural)]
pub enum ProbePhase {
    /// The socket is being set up and the probe sent.
    Sending,
    /// Replies are being collected.
    Receiving,
    /// The probe has ended; what was collected is its result.
    Finished,
    /// The probe has ended on an error of the socket.
    Failed,
}

/// How a send or a receive on the socket failed.
#[derive(Clone, Copy, Debug, PartialEq, Eq, Structural)]
pub enum IoFailure {
    /// The call gave up waiting: it would have blocked, or timed out.
    TimedOut,
    /// Any other error.
    Other,
}

/// What a look at the cancellation channel found.
#[derive(Clone, Copy, Debug, PartialEq, Eq, Structural)]
pub enum CancelCheck {
    /// The caller has asked the probe to stop.
    Cancelled,
    /// The caller is gone.
    Disconnected,
    /// Nothing has been asked yet.
    Pending,
}

/// What happened on the socket of a probe.
#[derive(Debug)]
pub enum ProbeEvent {
    /// Binding the socket, setting its timeouts or joining the multicast
    /// group failed.
    SetupFailed,
    /// The probe was sent.
    Sent,
    /// Sending the probe failed.
    SendFailed(IoFailure),
    /// A reply arrived.
    Reply(to_deserialize::Envelope),
    /// Something arrived that is no reply to a probe.
    UnreadableReply,
    /// No reply arrived in time; the cancellation channel was looked at.
    ReceiveTimedOut(CancelCheck),
    /// Receiving failed otherwise.
    ReceiveFailed,
}

/// What the probing loop is to do next.
#[derive(Clone, Copy, Debug, PartialEq, Eq, Structural)]
pub enum ProbeAction {
    /// Set up the socket and send the probe.
    Send,
    /// Wait for the next reply.
    Receive,
    /// Stop, and report what was collected.
    Finish,
    /// Stop, and report the error.
    Fail,
}

/// The probe could not use its socket.
#[derive(Clone, Copy, Debug, PartialEq, Eq, Structural)]
pub struct NetworkError {}

/// A probe in progress: where it stands and the addresses collected so far,
/// in the order of arrival.
#[derive(Debug)]
pub struct ProbeState {
    pub phase: ProbePhase,
    pub devices: Vec<String>,
}

/// The phase that follows `phase` on `event`. A probe that timed out on
/// sending has finished, with no responders; any other failure of the socket
/// is fatal. While receiving, a cancellation or a disconnected caller, seen
/// after a receive that timed out, finishes the probe, and so does a
/// datagram that is no reply: the probe stops collecting and keeps what it
/// has. A probe that has ended stays as it is.
pub open spec fn next_phase(phase: ProbePhase, event: ProbeEvent) -> ProbePhase {
    match phase {
        ProbePhase::Sending => match event {
            ProbeEvent::Sent => ProbePhase::Receiving,
            ProbeEvent::SendFailed(IoFailure::TimedOut) => ProbePhase::Finished,
            ProbeEvent::SendFailed(IoFailure::Other) => ProbePhase::Failed,
            ProbeEvent::SetupFailed => ProbePhase::Failed,
            _ => ProbePhase::Sending,
        },
        ProbePhase::Receiving => match event {
            ProbeEvent::ReceiveTimedOut(CancelCheck::Pending) => ProbePhase::Receiving,
            ProbeEvent::ReceiveTimedOut(_) => ProbePhase::Finished,
            ProbeEvent::UnreadableReply => ProbePhase::Finished,
            ProbeEvent::ReceiveFailed => ProbePhase::Failed,
            _ => ProbePhase::Receiving,
        },
        ProbePhase::Finished => ProbePhase::Finished,
        ProbePhase::Failed => ProbePhase::Failed,
    }
}

/// The addresses collected after `event`: those of a reply that arrives
/// while receiving are added at the end, and nothing else changes them.
pub open spec fn next_devices(
    phase: ProbePhase,
    devices: Seq<Seq<char>>,
    event: ProbeEvent,
) -> Seq<Seq<char>> {
    match (phase, event) {
        (ProbePhase::Receiving, ProbeEvent::Reply(envelope)) => devices + uris_of(
            envelope.body.probe_matches.probe_match@,
        ),
        _ => devices,
    }
}

/// What the loop does in `phase`.
pub open spec fn action_in(phase: ProbePhase) -> ProbeAction {
    match phase {
        ProbePhase::Sending => ProbeAction::Send,
        ProbePhase::Receiving => ProbeAction::Receive,
        ProbePhase::Finished => ProbeAction::Finish,
        ProbePhase::Failed => ProbeAction::Fail,
    }
}

impl ProbeState {
    /// A probe that has yet to be sent.
    pub fn new() -> (state: ProbeState)
        ensures
            state.phase == ProbePhase::Sending,
            state.devices@.len() == 0,
    {
        ProbeState { phase: ProbePhase::Sending, devices: Vec::new() }
    }

    /// Takes note of `event` and says what to do next.
    pub fn step(&mut self, event: ProbeEvent) -> (action: ProbeAction)
        ensures
            final(self).phase == next_phase(old(self).phase, event),
            final(self).devices.deep_view() == next_devices(
                old(self).phase,
                old(self).devices.deep_view(),
                event,
            ),
            action == action_in(final(self).phase),
            old(self).devices.deep_view().is_prefix_of(final(self).devices.deep_view()),
            old(self).phase == ProbePhase::Finished || old(self).phase == ProbePhase::Failed
                ==> final(self).phase == old(self).phase && final(self).devices.deep_view() == old(
                self,
            ).devices.deep_view(),
    {
        match self.phase {
            ProbePhase::Sending => match event {
                ProbeEvent::Sent => {
                    self.phase = ProbePhase::Receiving;
                },
                ProbeEvent::SendFailed(IoFailure::TimedOut) => {
                    self.phase = ProbePhase::Finished;
                },
                ProbeEvent::SendFailed(IoFailure::Other) => {
                    self.phase = ProbePhase::Failed;
                },
                ProbeEvent::SetupFailed => {
                    self.phase = ProbePhase::Failed;
                },
                _ => {},
            },
            ProbePhase::Receiving => match event {
                ProbeEvent::Reply(envelope) => {
                    let mut uris = get_device_uris_from_discovery_response(&envelope);
                    let ghost before = self.devices.deep_view();
                    let ghost added = uris.deep_view();
                    self.devices.append(&mut uris);
                    assert(self.devices.deep_view() =~= before + added);
                },
                ProbeEvent::ReceiveTimedOut(CancelCheck::Pending) => {},
                ProbeEvent::ReceiveTimedOut(_) => {
                    self.phase = ProbePhase::Finished;
                },
                ProbeEvent::UnreadableReply => {
                    self.phase = ProbePhase::Finished;
                },
                ProbeEvent::ReceiveFailed => {
                    self.phase = ProbePhase::Failed;
                },
                _ => {},
            },
            ProbePhase::Finished => {},
            ProbePhase::Failed => {},
        }
        match self.phase {
            ProbePhase::Sending => ProbeAction::Send,
            ProbePhase::Receiving => ProbeAction::Receive,
            ProbePhase::Finished => ProbeAction::Finish,
            ProbePhase::Failed => ProbeAction::Fail,
        }
    }

    /// The result of the probe as it stands: the addresses collected so far,
    /// unless the socket has failed.
    pub fn snapshot(&self) -> (result: Result<Vec<String>, NetworkError>)
        ensures
            self.phase == ProbePhase::Failed <==> result is Err,
            result matches Ok(devices) ==> devices.deep_view() == self.devices.deep_view(),
    {
        match self.phase {
            ProbePhase::Failed => Err(NetworkError {  }),
            _ => Ok(clone_texts(&self.devices)),
        }
    }
}

} // verus!
