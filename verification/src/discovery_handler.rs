//! The service side of a discovery session: what it writes for the worker,
//! how it consumes what the worker reports, and what its polling task does
//! on each event.

use vstd::prelude::*;
use vstd::string::*;
use crate::json::json_parse;
use crate::marshallers::discover_response_marshaller::DiscoverResponse;
use crate::marshallers::discover_response_marshaller::MarshalError;
use crate::marshallers::discover_response_marshaller::from_json_to_discover_response;
use crate::marshallers::discover_response_marshaller::lemma_response_round_trip;
use crate::marshallers::discover_response_marshaller::response_of_parsed;
use crate::marshallers::discover_response_marshaller::response_tree;
use crate::models::device::DeviceView;
use crate::models::device::device_views;
use crate::sandbox_bridge::SandboxBridge;
use crate::sandbox_bridge::SandboxBridgeView;
use crate::sandbox_bridge::with_output;

pub use crate::models::request::DebugEchoDiscoveryDetails;

verus! {

/// The time between two looks at the output artifact, in seconds.
pub const DISCOVERY_INTERVAL_SECS: u64 = 4;

/// How many responses may wait for the consumer.
pub const DISCOVERED_DEVICES_CHANNEL_CAPACITY: usize = 4;

/// Where the worker writes the devices it found.
pub const OUTPUT_FILE_PATH: &'static str = "/tmp/wde-dir/out.out";

/// Where the service writes the discovery details.
pub const INPUT_FILE_PATH: &'static str = "/tmp/wde-dir/in.in";

/// Where the availability marker is kept.
pub const AVAILABILITY_FILE_PATH: &'static str = "/tmp/wde-dir/debug-echo-availability.txt";

/// The availability marker of devices that can be discovered.
pub const ONLINE: &'static str = "ONLINE";

/// The availability marker of devices that cannot be discovered.
pub const OFFLINE: &'static str = "OFFLINE";

/// Publishes the discovery details, as JSON, in place of any earlier ones.
pub fn write_input_file(bridge: &mut SandboxBridge, debug_echo_discovery_details: String)
    ensures
        final(bridge)@ == (SandboxBridgeView {
            input: Some(debug_echo_discovery_details@),
            ..old(bridge)@
        }),
{
    bridge.input = Some(debug_echo_discovery_details);
}

/// Writes the availability marker that the worker is to observe.
pub fn write_availability_file(bridge: &mut SandboxBridge, text: &str)
    ensures
        final(bridge)@ == (SandboxBridgeView { availability: Some(text@), ..old(bridge)@ }),
{
    bridge.availability = Some(String::from_str(text));
}

/// Whether the worker has reported a result that is yet to be consumed.
pub fn has_output(bridge: &SandboxBridge) -> (ready: bool)
    ensures
        ready == bridge@.output is Some,
{
    bridge.output.is_some()
}

/// What consuming the output artifact yields: nothing where there is none,
/// else the devices that its text holds or the reason why it holds none.
pub open spec fn consumed(output: Option<Seq<char>>) -> Option<
    Result<Seq<DeviceView>, MarshalError>,
> {
    match output {
        None => None,
        Some(text) => Some(response_of_parsed(json_parse(text))),
    }
}

/// The session after its output artifact was consumed: the artifact is
/// gone, whatever it held.
pub open spec fn after_consuming(bridge: SandboxBridgeView) -> SandboxBridgeView {
    SandboxBridgeView { output: None, ..bridge }
}

/// `got` is what `expected` names.
pub open spec fn is_consumed(
    got: Option<Result<DiscoverResponse, MarshalError>>,
    expected: Option<Result<Seq<DeviceView>, MarshalError>>,
) -> bool {
    match got {
        None => expected is None,
        Some(Ok(response)) => expected == Some(
            Ok::<Seq<DeviceView>, MarshalError>(device_views(response.devices@)),
        ),
        Some(Err(e)) => expected == Some(Err::<Seq<DeviceView>, MarshalError>(e)),
    }
}

/// Reads the output artifact, decodes it and removes it. An artifact that
/// does not decode is removed as well.
pub fn read_output_file(bridge: &mut SandboxBridge) -> (response: Result<
    DiscoverResponse,
    MarshalError,
>)
    requires
        old(bridge)@.output is Some,
    ensures
        is_consumed(Some(response), consumed(old(bridge)@.output)),
        final(bridge)@ == after_consuming(old(bridge)@),
{
    let contents = bridge.output.take();
    match contents {
        Some(text) => from_json_to_discover_response(text.as_str()),
        None => Err(MarshalError::NotJson),
    }
}

/// Consumes the output artifact if there is one: nothing comes back where
/// there is none, and after the call there is none.
pub fn try_consume_response(bridge: &mut SandboxBridge) -> (response: Option<
    Result<DiscoverResponse, MarshalError>,
>)
    ensures
        is_consumed(response, consumed(old(bridge)@.output)),
        response is Some <==> old(bridge)@.output is Some,
        final(bridge)@ == after_consuming(old(bridge)@),
        consumed(final(bridge)@.output) is None,
{
    if !has_output(bridge) {
        return None;
    }
    Some(read_output_file(bridge))
}

/// An output that was written once is consumed exactly once: the first
/// consumption yields what the text holds and removes it, whatever the
/// session held before; the next one yields nothing and changes nothing.
/// Neither touches the input or the availability marker.
pub proof fn lemma_consumed_exactly_once(bridge: SandboxBridgeView, text: Seq<char>)
    ensures
        consumed(with_output(bridge, text).output) == Some(response_of_parsed(json_parse(text))),
        consumed(after_consuming(with_output(bridge, text)).output) is None,
        after_consuming(after_consuming(with_output(bridge, text))) == after_consuming(
            with_output(bridge, text),
        ),
        after_consuming(with_output(bridge, text)).input == bridge.input,
        after_consuming(with_output(bridge, text)).availability == bridge.availability,
{
}

/// Where a discovery session stands.
#[derive(Clone, Copy, Debug, PartialEq, Eq, Structural)]
pub enum DiscoverState {
    /// No request has arrived.
    Idle,
    /// A request has arrived; its details are being read.
    AwaitingDetails,
    /// The polling task waits for the next tick.
    Polling,
    /// A result is ready and is being handed to the consumer.
    Emitting,
    /// The consumer is gone; the polling task has ended.
    Terminated,
}

/// What happened in a discovery session.
#[derive(Clone, Copy, Debug, PartialEq, Eq, Structural)]
pub enum DiscoverEvent {
    /// A `Discover` call arrived.
    RequestArrived,
    /// The details of the request were read.
    DetailsAccepted,
    /// The details of the request do not have the expected shape.
    DetailsRejected,
    /// The interval has passed. A worker's result is ready, or it is not.
    Tick { output_ready: bool },
    /// The output artifact did not decode; it was removed and nothing was
    /// handed over.
    OutputDiscarded,
    /// The consumer took the response.
    Delivered,
    /// The response could not be handed over: the consumer has disconnected.
    ConsumerGone,
}

/// What the service is to do next.
#[derive(Clone, Copy, Debug, PartialEq, Eq, Structural)]
pub enum DiscoverAction {
    /// Wait for a request.
    AwaitRequest,
    /// Read the details of the request.
    ReadDetails,
    /// Answer the request with an invalid-argument error.
    RejectRequest,
    /// Publish the details and the availability marker, then start polling.
    Bootstrap,
    /// Wait for the next tick.
    Wait,
    /// Consume the output artifact and hand the response to the consumer.
    Emit,
    /// End the polling task.
    Stop,
}

/// The state that follows `state` on `event`. An event that does not
/// belong to a state leaves it as it is.
pub open spec fn next_state(state: DiscoverState, event: DiscoverEvent) -> DiscoverState {
    match (state, event) {
        (DiscoverState::Idle, DiscoverEvent::RequestArrived) => DiscoverState::AwaitingDetails,
        (DiscoverState::AwaitingDetails, DiscoverEvent::DetailsAccepted) => DiscoverState::Polling,
        (DiscoverState::AwaitingDetails, DiscoverEvent::DetailsRejected) => DiscoverState::Idle,
        (DiscoverState::Polling, DiscoverEvent::Tick { output_ready }) => if output_ready {
            DiscoverState::Emitting
        } else {
            DiscoverState::Polling
        },
        (DiscoverState::Emitting, DiscoverEvent::Delivered) => DiscoverState::Polling,
        (DiscoverState::Emitting, DiscoverEvent::OutputDiscarded) => DiscoverState::Polling,
        (DiscoverState::Emitting, DiscoverEvent::ConsumerGone) => DiscoverState::Terminated,
        _ => state,
    }
}

/// What the service does on `event` in `state`.
pub open spec fn action_on(state: DiscoverState, event: DiscoverEvent) -> DiscoverAction {
    match (state, event) {
        (DiscoverState::Idle, DiscoverEvent::RequestArrived) => DiscoverAction::ReadDetails,
        (DiscoverState::AwaitingDetails, DiscoverEvent::DetailsAccepted) => DiscoverAction::Bootstrap,
        (DiscoverState::AwaitingDetails, DiscoverEvent::DetailsRejected) => DiscoverAction::RejectRequest,
        (DiscoverState::Polling, DiscoverEvent::Tick { output_ready }) => if output_ready {
            DiscoverAction::Emit
        } else {
            DiscoverAction::Wait
        },
        (DiscoverState::Emitting, DiscoverEvent::Delivered) => DiscoverAction::Wait,
        (DiscoverState::Emitting, DiscoverEvent::OutputDiscarded) => DiscoverAction::Wait,
        (DiscoverState::Emitting, DiscoverEvent::ConsumerGone) => DiscoverAction::Stop,
        (DiscoverState::Idle, _) => DiscoverAction::AwaitRequest,
        (DiscoverState::AwaitingDetails, _) => DiscoverAction::ReadDetails,
        (DiscoverState::Polling, _) => DiscoverAction::Wait,
        (DiscoverState::Emitting, _) => DiscoverAction::Emit,
        (DiscoverState::Terminated, _) => DiscoverAction::Stop,
    }
}

/// Takes note of `event`: the state that follows, and what to do next. The
/// session terminates only when a response cannot be handed to the consumer,
/// and then it stays terminated.
pub fn discover_step(state: DiscoverState, event: DiscoverEvent) -> (next: (
    DiscoverState,
    DiscoverAction,
))
    ensures
        next.0 == next_state(state, event),
        next.1 == action_on(state, event),
        next.0 == DiscoverState::Terminated <==> state == DiscoverState::Terminated || (state
            == DiscoverState::Emitting && event == DiscoverEvent::ConsumerGone),
        next.1 == DiscoverAction::Stop <==> next.0 == DiscoverState::Terminated,
{
    match state {
        DiscoverState::Idle => match event {
            DiscoverEvent::RequestArrived => (
                DiscoverState::AwaitingDetails,
                DiscoverAction::ReadDetails,
            ),
            _ => (DiscoverState::Idle, DiscoverAction::AwaitRequest),
        },
        DiscoverState::AwaitingDetails => match event {
            DiscoverEvent::DetailsAccepted => (DiscoverState::Polling, DiscoverAction::Bootstrap),
            DiscoverEvent::DetailsRejected => (DiscoverState::Idle, DiscoverAction::RejectRequest),
            _ => (DiscoverState::AwaitingDetails, DiscoverAction::ReadDetails),
        },
        DiscoverState::Polling => match event {
            DiscoverEvent::Tick { output_ready } => {
                if output_ready {
                    (DiscoverState::Emitting, DiscoverAction::Emit)
                } else {
                    (DiscoverState::Polling, DiscoverAction::Wait)
                }
            },
            _ => (DiscoverState::Polling, DiscoverAction::Wait),
        },
        DiscoverState::Emitting => match event {
            DiscoverEvent::Delivered => (DiscoverState::Polling, DiscoverAction::Wait),
            DiscoverEvent::OutputDiscarded => (DiscoverState::Polling, DiscoverAction::Wait),
            DiscoverEvent::ConsumerGone => (DiscoverState::Terminated, DiscoverAction::Stop),
            _ => (DiscoverState::Emitting, DiscoverAction::Emit),
        },
        DiscoverState::Terminated => (DiscoverState::Terminated, DiscoverAction::Stop),
    }
}

/// Where the worker's output is the wire form of `devices`, consuming it
/// yields exactly those devices.
pub proof fn lemma_consumes_what_was_reported(text: Seq<char>, devices: Seq<DeviceView>)
    ensures
        json_parse(text) == Some(response_tree(devices)) ==> consumed(Some(text)) == Some(
            Ok::<Seq<DeviceView>, MarshalError>(devices),
        ),
{
    lemma_response_round_trip(devices);
}

/// The state of a session after a run of events.
pub open spec fn state_after(state: DiscoverState, events: Seq<DiscoverEvent>) -> DiscoverState
    decreases events.len(),
{
    if events.len() == 0 {
        state
    } else {
        next_state(state_after(state, events.drop_last()), events.last())
    }
}

/// How many responses the consumer took during a run of events: one for
/// each delivery that the session was emitting for.
pub open spec fn deliveries(state: DiscoverState, events: Seq<DiscoverEvent>) -> nat
    decreases events.len(),
{
    if events.len() == 0 {
        0
    } else {
        let before = state_after(state, events.drop_last());
        let taken: nat = if before == DiscoverState::Emitting && events.last()
            == DiscoverEvent::Delivered {
            1
        } else {
            0
        };
        deliveries(state, events.drop_last()) + taken
    }
}

/// `n` ticks at each of which a result is ready and the consumer takes it.
pub open spec fn ready_ticks(n: nat) -> Seq<DiscoverEvent>
    decreases n,
{
    if n == 0 {
        Seq::empty()
    } else {
        ready_ticks((n - 1) as nat).push(DiscoverEvent::Tick { output_ready: true }).push(
            DiscoverEvent::Delivered,
        )
    }
}

/// A run of events goes on from where an earlier run ended.
pub proof fn lemma_runs_compose(
    state: DiscoverState,
    first: Seq<DiscoverEvent>,
    second: Seq<DiscoverEvent>,
)
    ensures
        state_after(state, first + second) == state_after(state_after(state, first), second),
        deliveries(state, first + second) == deliveries(state, first) + deliveries(
            state_after(state, first),
            second,
        ),
    decreases second.len(),
{
    if second.len() == 0 {
        assert(first + second =~= first);
    } else {
        lemma_runs_compose(state, first, second.drop_last());
        assert((first + second).drop_last() =~= first + second.drop_last());
        assert((first + second).last() == second.last());
    }
}

/// A terminated session stays terminated and hands nothing over.
pub proof fn lemma_terminated_is_final(events: Seq<DiscoverEvent>)
    ensures
        state_after(DiscoverState::Terminated, events) == DiscoverState::Terminated,
        deliveries(DiscoverState::Terminated, events) == 0,
    decreases events.len(),
{
    if events.len() > 0 {
        lemma_terminated_is_final(events.drop_last());
    }
}

/// A polling session hands over exactly one response per tick at which a
/// result is ready, for as long as the consumer takes them; when the
/// consumer is gone it terminates, and nothing is handed over after that,
/// whatever happens later.
pub proof fn lemma_one_response_per_tick(n: nat, later: Seq<DiscoverEvent>)
    ensures
        state_after(DiscoverState::Polling, ready_ticks(n)) == DiscoverState::Polling,
        deliveries(DiscoverState::Polling, ready_ticks(n)) == n,
        state_after(
            DiscoverState::Polling,
            ready_ticks(n).push(DiscoverEvent::Tick { output_ready: true }).push(
                DiscoverEvent::ConsumerGone,
            ) + later,
        ) == DiscoverState::Terminated,
        deliveries(
            DiscoverState::Polling,
            ready_ticks(n).push(DiscoverEvent::Tick { output_ready: true }).push(
                DiscoverEvent::ConsumerGone,
            ) + later,
        ) == n,
    decreases n,
{
    let ticks = ready_ticks(n);
    if n > 0 {
        lemma_one_response_per_tick((n - 1) as nat, Seq::empty());
        let before = ready_ticks((n - 1) as nat);
        let asked = before.push(DiscoverEvent::Tick { output_ready: true });
        assert(asked.drop_last() =~= before);
        assert(ticks.drop_last() =~= asked);
        assert(ticks.last() == DiscoverEvent::Delivered);
        assert(state_after(DiscoverState::Polling, asked) == DiscoverState::Emitting);
        assert(deliveries(DiscoverState::Polling, asked) == n - 1);
        assert(state_after(DiscoverState::Polling, ticks) == DiscoverState::Polling);
        assert(deliveries(DiscoverState::Polling, ticks) == n);
    }
    assert(state_after(DiscoverState::Polling, ticks) == DiscoverState::Polling);
    assert(deliveries(DiscoverState::Polling, ticks) == n);
    let ticked = ticks.push(DiscoverEvent::Tick { output_ready: true });
    let gone = ticked.push(DiscoverEvent::ConsumerGone);
    assert(ticked.drop_last() =~= ticks);
    assert(ticked.last() == DiscoverEvent::Tick { output_ready: true });
    assert(gone.drop_last() =~= ticked);
    assert(gone.last() == DiscoverEvent::ConsumerGone);
    assert(state_after(DiscoverState::Polling, ticked) == DiscoverState::Emitting);
    assert(deliveries(DiscoverState::Polling, ticked) == n);
    assert(state_after(DiscoverState::Polling, gone) == DiscoverState::Terminated);
    assert(deliveries(DiscoverState::Polling, gone) == n);
    lemma_runs_compose(DiscoverState::Polling, gone, later);
    lemma_terminated_is_final(later);
}

} // verus!
