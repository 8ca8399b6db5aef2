//! The negotiation as a state machine without I/O.
//!
//! A driver owns the byte stream. It begins with [`start`], performs the
//! [`Action`] it is given, reports what came of it as an [`Event`] to [`step`],
//! and goes on until the action is [`Action::Stop`]. The state then is
//! [`State::Connected`] or [`State::Failed`], never anything between.

use crate::address::{Address, AddressView};
use crate::error::Failure;
use crate::message::{
    spec_parse_response, Request, RequestView, Response, ResponseView, CMD_CONNECT, REP_SUCCEEDED,
    RESERVED, VERSION,
};
use vstd::prelude::*;

verus! {

/// Method octet for "no authentication required", the one method offered.
pub const METHOD_NO_AUTH: u8 = 0x00;

/// Length of the server's method selection message.
pub const METHOD_SELECTION_LEN: usize = 2;

/// Most bytes that are read for a relay response.
pub const MAX_RESPONSE_LEN: usize = 512;

/// Where a negotiation stands.
#[derive(Debug, PartialEq, Eq)]
pub enum State {
    /// Nothing has been agreed; the greeting goes out and its answer is awaited.
    Start,
    /// The server accepted the method; the relay request goes out.
    MethodNegotiated,
    /// The relay request was written; the relay response is awaited.
    RelayRequested,
    /// The server granted the request; the stream is a tunnel to the target.
    /// Holds the server's response with the bound address and port.
    Connected(Response),
    /// The negotiation ended without a tunnel, for this reason.
    Failed(Failure),
}

/// Mathematical model of a [`State`].
pub enum StateView {
    Start,
    MethodNegotiated,
    RelayRequested,
    Connected(ResponseView),
    Failed(Failure),
}

impl View for State {
    type V = StateView;

    open spec fn view(&self) -> StateView {
        match self {
            State::Start => StateView::Start,
            State::MethodNegotiated => StateView::MethodNegotiated,
            State::RelayRequested => StateView::RelayRequested,
            State::Connected(response) => StateView::Connected(response@),
            State::Failed(reason) => StateView::Failed(*reason),
        }
    }
}

impl StateView {
    /// Whether the negotiation is over.
    pub open spec fn is_terminal(self) -> bool {
        self is Connected || self is Failed
    }
}

/// What the byte stream did with the last [`Action`].
#[derive(Debug, PartialEq, Eq)]
pub enum Event {
    /// Every byte of the last [`Action::Send`] was written.
    Sent,
    /// These bytes were read for the last [`Action::ReceiveExact`] or [`Action::Receive`].
    Received(Vec<u8>),
    /// The stream reported an error.
    TransportFailed,
}

/// Mathematical model of an [`Event`].
pub enum EventView {
    Sent,
    Received(Seq<u8>),
    TransportFailed,
}

impl View for Event {
    type V = EventView;

    open spec fn view(&self) -> EventView {
        match self {
            Event::Sent => EventView::Sent,
            Event::Received(bytes) => EventView::Received(bytes@),
            Event::TransportFailed => EventView::TransportFailed,
        }
    }
}

/// What the driver is to do next.
#[derive(Debug, PartialEq, Eq)]
pub enum Action {
    /// Write all of these bytes, then report [`Event::Sent`].
    Send(Vec<u8>),
    /// Read exactly this many bytes, then report them as [`Event::Received`].
    ReceiveExact(usize),
    /// Read once, at most this many bytes, then report them as [`Event::Received`].
    Receive(usize),
    /// No further I/O: the negotiation is over.
    Stop,
}

/// Mathematical model of an [`Action`].
pub enum ActionView {
    Send(Seq<u8>),
    ReceiveExact(nat),
    Receive(nat),
    Stop,
}

impl View for Action {
    type V = ActionView;

    open spec fn view(&self) -> ActionView {
        match self {
            Action::Send(bytes) => ActionView::Send(bytes@),
            Action::ReceiveExact(n) => ActionView::ReceiveExact(*n as nat),
            Action::Receive(n) => ActionView::Receive(*n as nat),
            Action::Stop => ActionView::Stop,
        }
    }
}

/// The greeting: version 5, one method offered, "no authentication".
pub open spec fn spec_greeting() -> Seq<u8> {
    seq![VERSION, 1u8, METHOD_NO_AUTH]
}

/// Why a method selection message does not let the negotiation go on, or
/// `None` where it does. The message has two octets; the version must be 5 and
/// the method must be the one offered.
pub open spec fn spec_method_failure(reply: Seq<u8>) -> Option<Failure> {
    if reply.len() != METHOD_SELECTION_LEN {
        Some(Failure::MalformedResponse)
    } else if reply[0] != VERSION {
        Some(Failure::ProtocolMismatch)
    } else if reply[1] != METHOD_NO_AUTH {
        Some(Failure::NoAcceptableMethod)
    } else {
        None
    }
}

/// What the bytes read for the relay response amount to. Bytes that hold no
/// whole response are malformed; a reply code other than zero is a rejection
/// with that code, whatever else the response holds; a grant under a version
/// other than 5 is a protocol mismatch; any other response is the grant.
pub open spec fn spec_relay_outcome(buf: Seq<u8>) -> Result<ResponseView, Failure> {
    match spec_parse_response(buf) {
        None => Err(Failure::MalformedResponse),
        Some(response) => {
            if response.rep != REP_SUCCEEDED {
                Err(Failure::RelayRejected(response.rep))
            } else if response.ver != VERSION {
                Err(Failure::ProtocolMismatch)
            } else {
                Ok(response)
            }
        },
    }
}

/// The CONNECT request for a target and a port.
pub open spec fn spec_connect_request(target: AddressView, port: u16) -> RequestView {
    RequestView {
        ver: VERSION,
        cmd: CMD_CONNECT,
        rsv: RESERVED,
        atyp: target.tag(),
        dst_addr: target,
        dst_port: port,
    }
}

/// The transition function: the state after `event`, and what to do next.
///
/// A state that is over stays as it is. A stream error ends the negotiation
/// from any other state, and so does an event that the state does not await.
/// The relay request is built as soon as the method is agreed: a target
/// without a wire form ends the negotiation there, before anything of the
/// request is written.
pub open spec fn spec_step(state: StateView, event: EventView, target: AddressView, port: u16) -> (
    StateView,
    ActionView,
) {
    match (state, event) {
        (StateView::Connected(_), _) | (StateView::Failed(_), _) => (state, ActionView::Stop),
        (StateView::Start, EventView::Sent) => (
            StateView::Start,
            ActionView::ReceiveExact(METHOD_SELECTION_LEN as nat),
        ),
        (StateView::Start, EventView::Received(reply)) => match spec_method_failure(reply) {
            Some(reason) => (StateView::Failed(reason), ActionView::Stop),
            None => if target.encodable() {
                (
                    StateView::MethodNegotiated,
                    ActionView::Send(spec_connect_request(target, port).wire()),
                )
            } else {
                (StateView::Failed(Failure::AddressEncodingError), ActionView::Stop)
            },
        },
        (StateView::MethodNegotiated, EventView::Sent) => (
            StateView::RelayRequested,
            ActionView::Receive(MAX_RESPONSE_LEN as nat),
        ),
        (StateView::RelayRequested, EventView::Received(buf)) => match spec_relay_outcome(buf) {
            Ok(response) => (StateView::Connected(response), ActionView::Stop),
            Err(reason) => (StateView::Failed(reason), ActionView::Stop),
        },
        _ => (StateView::Failed(Failure::TransportError), ActionView::Stop),
    }
}

/// The greeting that opens a negotiation.
pub fn greeting() -> (bytes: Vec<u8>)
    ensures
        bytes@ == spec_greeting(),
{
    let bytes: Vec<u8> = vec![VERSION, 1u8, METHOD_NO_AUTH];
    bytes
}

/// Judges the server's method selection message.
pub fn method_selection(reply: &[u8]) -> (r: Result<(), Failure>)
    ensures
        match spec_method_failure(reply@) {
            Some(reason) => r == Err::<(), Failure>(reason),
            None => r is Ok,
        },
{
    if reply.len() != METHOD_SELECTION_LEN {
        Err(Failure::MalformedResponse)
    } else if reply[0] != VERSION {
        Err(Failure::ProtocolMismatch)
    } else if reply[1] != METHOD_NO_AUTH {
        Err(Failure::NoAcceptableMethod)
    } else {
        Ok(())
    }
}

/// Decodes and judges the bytes read for the relay response.
pub fn relay_outcome(buf: &[u8]) -> (r: Result<Response, Failure>)
    ensures
        match spec_relay_outcome(buf@) {
            Ok(model) => r matches Ok(response) && response@ == model,
            Err(reason) => r matches Err(e) && e == reason,
        },
{
    match Response::from_bytes(buf) {
        None => Err(Failure::MalformedResponse),
        Some(response) => {
            if response.rep != REP_SUCCEEDED {
                Err(Failure::RelayRejected(response.rep))
            } else if response.ver != VERSION {
                Err(Failure::ProtocolMismatch)
            } else {
                Ok(response)
            }
        },
    }
}

/// Opens a negotiation: the first state and the first thing to do.
pub fn start() -> (first: (State, Action))
    ensures
        first.0@ == StateView::Start,
        first.1@ == ActionView::Send(spec_greeting()),
{
    (State::Start, Action::Send(greeting()))
}

/// Takes the negotiation one step further.
pub fn step(state: State, event: &Event, target: &Address, port: u16) -> (next: (State, Action))
    ensures
        (next.0@, next.1@) == spec_step(state@, event@, target@, port),
{
    match state {
        State::Connected(response) => (State::Connected(response), Action::Stop),
        State::Failed(reason) => (State::Failed(reason), Action::Stop),
        State::Start => match event {
            Event::Sent => (State::Start, Action::ReceiveExact(METHOD_SELECTION_LEN)),
            Event::Received(reply) => match method_selection(reply.as_slice()) {
                Err(reason) => (State::Failed(reason), Action::Stop),
                Ok(()) => match Request::connect(target.clone(), port).to_bytes() {
                    Ok(bytes) => (State::MethodNegotiated, Action::Send(bytes)),
                    Err(_) => (State::Failed(Failure::AddressEncodingError), Action::Stop),
                },
            },
            Event::TransportFailed => (State::Failed(Failure::TransportError), Action::Stop),
        },
        State::MethodNegotiated => match event {
            Event::Sent => (State::RelayRequested, Action::Receive(MAX_RESPONSE_LEN)),
            _ => (State::Failed(Failure::TransportError), Action::Stop),
        },
        State::RelayRequested => match event {
            Event::Received(buf) => match relay_outcome(buf.as_slice()) {
                Ok(response) => (State::Connected(response), Action::Stop),
                Err(reason) => (State::Failed(reason), Action::Stop),
            },
            _ => (State::Failed(Failure::TransportError), Action::Stop),
        },
    }
}

/// Whether `event` is an outcome that a driver may report for `action`: the
/// completion that the action asks for, or a stream error.
pub open spec fn spec_answers(action: ActionView, event: EventView) -> bool {
    match action {
        ActionView::Send(_) => event is Sent || event is TransportFailed,
        ActionView::ReceiveExact(n) => event is TransportFailed || (event matches EventView::Received(
            bytes,
        ) && bytes.len() == n),
        ActionView::Receive(most) => event is TransportFailed || (event matches EventView::Received(
            bytes,
        ) && bytes.len() <= most),
        ActionView::Stop => false,
    }
}

/// Whether `action` is what a negotiation for `target` and `port` asks for
/// while it is in `state`.
pub open spec fn spec_pending(state: StateView, action: ActionView, target: AddressView, port: u16) -> bool {
    match state {
        StateView::Start => action == ActionView::Send(spec_greeting()) || action
            == ActionView::ReceiveExact(METHOD_SELECTION_LEN as nat),
        StateView::MethodNegotiated => target.encodable() && action == ActionView::Send(
            spec_connect_request(target, port).wire(),
        ),
        StateView::RelayRequested => action == ActionView::Receive(MAX_RESPONSE_LEN as nat),
        StateView::Connected(_) | StateView::Failed(_) => action is Stop,
    }
}

/// Most steps that a negotiation can still take.
pub open spec fn spec_steps_left(state: StateView, action: ActionView) -> nat {
    match state {
        StateView::Start => if action is Send {
            4
        } else {
            3
        },
        StateView::MethodNegotiated => 2,
        StateView::RelayRequested => 1,
        StateView::Connected(_) | StateView::Failed(_) => 0,
    }
}

/// A negotiation opens with an action that is pending in its first state.
pub proof fn lemma_start_is_pending(target: AddressView, port: u16)
    ensures
        spec_pending(StateView::Start, ActionView::Send(spec_greeting()), target, port),
{
}

/// With a driver that answers each action with its own outcome, the
/// negotiation stays in step with it: what is asked next belongs to the new
/// state, each step brings the end nearer, so that no negotiation takes more
/// than four, and a transport error is reported only when the stream failed.
pub proof fn lemma_faithful_driver(
    state: StateView,
    action: ActionView,
    event: EventView,
    target: AddressView,
    port: u16,
)
    requires
        spec_pending(state, action, target, port),
        spec_answers(action, event),
    ensures
        ({
            let (next, then) = spec_step(state, event, target, port);
            &&& spec_pending(next, then, target, port)
            &&& spec_steps_left(next, then) < spec_steps_left(state, action) <= 4
            &&& next == StateView::Failed(Failure::TransportError) ==> event is TransportFailed
        }),
{
}

/// A negotiation that is over stays as it is, and asks for nothing more.
pub proof fn lemma_terminal_states_absorb(state: StateView, event: EventView, target: AddressView, port: u16)
    requires
        state.is_terminal(),
    ensures
        spec_step(state, event, target, port) == (state, ActionView::Stop),
{
}

/// Every step either ends the negotiation and asks for nothing more, or
/// leaves it open and asks for I/O: no state between success and failure is
/// ever handed out.
pub proof fn lemma_stop_exactly_when_over(state: StateView, event: EventView, target: AddressView, port: u16)
    ensures
        spec_step(state, event, target, port).0.is_terminal() <==> spec_step(
            state,
            event,
            target,
            port,
        ).1 is Stop,
{
}

/// The phases follow one another in order: a step stays in its state, moves
/// to the next one, or fails; none is skipped.
pub proof fn lemma_phases_in_order(state: StateView, event: EventView, target: AddressView, port: u16)
    ensures
        ({
            let next = spec_step(state, event, target, port).0;
            match state {
                StateView::Start => next is Start || next is MethodNegotiated || next is Failed,
                StateView::MethodNegotiated => next is RelayRequested || next is Failed,
                StateView::RelayRequested => next is Connected || next is Failed,
                StateView::Connected(_) => next == state,
                StateView::Failed(_) => next == state,
            }
        }),
{
}

/// A stream error ends the negotiation from every state that is not over.
pub proof fn lemma_transport_failure_ends(state: StateView, target: AddressView, port: u16)
    requires
        !state.is_terminal(),
    ensures
        spec_step(state, EventView::TransportFailed, target, port) == (
            StateView::Failed(Failure::TransportError),
            ActionView::Stop,
        ),
{
}

/// The negotiation succeeds only on a relay response that decodes, grants the
/// request and carries version 5; the state then holds that response.
pub proof fn lemma_connected_only_when_granted(
    state: StateView,
    event: EventView,
    target: AddressView,
    port: u16,
)
    requires
        !state.is_terminal(),
        spec_step(state, event, target, port).0 is Connected,
    ensures
        state is RelayRequested,
        event matches EventView::Received(buf) && spec_parse_response(buf) matches Some(response)
            && response.rep == REP_SUCCEEDED && response.ver == VERSION && spec_step(
            state,
            event,
            target,
            port,
        ).0 == StateView::Connected(response),
{
}

/// A relay response that decodes and carries a reply code other than zero
/// fails the negotiation with that code, whatever its other fields hold.
pub proof fn lemma_rejection_carries_reply_code(buf: Seq<u8>, target: AddressView, port: u16)
    requires
        spec_parse_response(buf) is Some,
        buf[1] != REP_SUCCEEDED,
    ensures
        spec_step(StateView::RelayRequested, EventView::Received(buf), target, port) == (
            StateView::Failed(Failure::RelayRejected(buf[1])),
            ActionView::Stop,
        ),
{
}

/// A method selection message other than version 5 with the method offered
/// never lets the negotiation go on.
pub proof fn lemma_method_must_be_offered(reply: Seq<u8>, target: AddressView, port: u16)
    requires
        reply != seq![VERSION, METHOD_NO_AUTH],
    ensures
        spec_step(StateView::Start, EventView::Received(reply), target, port).0 is Failed,
{
    if reply.len() == 2 && reply[0] == VERSION && reply[1] == METHOD_NO_AUTH {
        assert(reply =~= seq![VERSION, METHOD_NO_AUTH]);
    }
}

} // verus!
