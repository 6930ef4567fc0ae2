//! Decisions of the network layer: which WebSocket frames reach the game, when a connection's
//! reader stops, which endpoints a listener may bind to, and how accepting a connection ends.
use vstd::prelude::*;

use vstd::std_specs::convert::FromSpecImpl;

verus! {

/// A frame received from a WebSocket peer.
#[derive(Debug)]
pub enum IncomingMessage {
    /// A text frame.
    Text(String),
    /// A binary frame: the only kind that carries game data.
    Binary(Vec<u8>),
    /// A ping.
    Ping(Vec<u8>),
    /// A pong.
    Pong(Vec<u8>),
    /// The peer closes the connection.
    Close,
    /// A raw frame.
    Frame,
}

/// Whether the reading loop of a connection should end.
#[derive(Debug, Clone, Copy, PartialEq, Eq, Structural)]
pub struct ShouldCloseReceiver(pub bool);

impl ShouldCloseReceiver {
    /// The answer this value carries.
    pub open spec fn spec_closes(self) -> bool {
        self.0
    }
}

impl From<ShouldCloseReceiver> for bool {
    fn from(value: ShouldCloseReceiver) -> (closes: bool) {
        value.0
    }
}

impl FromSpecImpl<ShouldCloseReceiver> for bool {
    open spec fn obeys_from_spec() -> bool {
        true
    }

    open spec fn from_spec(value: ShouldCloseReceiver) -> bool {
        value.0
    }
}

/// The data of a frame that goes on to the game: that of a binary frame, and no other.
pub open spec fn forwarded_data(message: IncomingMessage) -> Option<Seq<u8>> {
    match message {
        IncomingMessage::Binary(data) => Some(data@),
        _ => None,
    }
}

/// Whether a frame ends the reading loop: a close, or anything that is neither data nor a
/// control frame.
pub open spec fn closes_reader(message: IncomingMessage) -> bool {
    match message {
        IncomingMessage::Binary(_) | IncomingMessage::Ping(_) | IncomingMessage::Pong(_) => false,
        _ => true,
    }
}

/// Processes one frame from the peer: returns the data to queue for the game, if any, and
/// whether the reading loop should end.
pub fn parse_message_type(message: IncomingMessage) -> (handling: (Option<Vec<u8>>, ShouldCloseReceiver))
    ensures
        match handling.0 {
            Some(data) => forwarded_data(message) == Some(data@),
            None => forwarded_data(message) is None,
        },
        handling.1.spec_closes() == closes_reader(message),
{
    match message {
        IncomingMessage::Binary(data) => (Some(data), ShouldCloseReceiver(false)),
        IncomingMessage::Ping(_) => (None, ShouldCloseReceiver(false)),
        IncomingMessage::Pong(_) => (None, ShouldCloseReceiver(false)),
        IncomingMessage::Close => (None, ShouldCloseReceiver(true)),
        _ => (None, ShouldCloseReceiver(true)),
    }
}

/// What a connection's incoming stream yielded.
#[derive(Debug)]
pub enum StreamEvent {
    /// A frame.
    Message(IncomingMessage),
    /// The stream is exhausted.
    Exhausted,
    /// Reading failed.
    Failed,
}

/// Processes one step of a connection's reading loop: returns the data to queue for the game,
/// if any, and whether the loop ends. It ends on a frame that closes the reader, when the stream
/// is exhausted, and when reading fails.
pub fn handle_incoming_message(event: StreamEvent) -> (step: (Option<Vec<u8>>, bool))
    ensures
        match event {
            StreamEvent::Message(message) => {
                &&& match step.0 {
                    Some(data) => forwarded_data(message) == Some(data@),
                    None => forwarded_data(message) is None,
                }
                &&& step.1 == closes_reader(message)
            },
            _ => step.0 is None && step.1,
        },
{
    match event {
        StreamEvent::Message(message) => {
            let (data, should_close) = parse_message_type(message);
            (data, bool::from(should_close))
        },
        StreamEvent::Exhausted => (None, true),
        StreamEvent::Failed => (None, true),
    }
}

/// Why a listener may not bind to an endpoint.
#[derive(Debug, Clone, Copy, PartialEq, Eq, Structural)]
pub enum BindError {
    /// The interface is empty.
    EmptyInterface,
    /// The port number is zero.
    ZeroPort,
}

impl BindError {
    /// Returns the text that describes the error.
    pub fn message(&self) -> (text: &'static str)
        ensures
            *self == BindError::EmptyInterface ==> text@ == "Interface cannot be empty"@,
            *self == BindError::ZeroPort ==> text@ == "Port number must be a positive integer"@,
    {
        match self {
            BindError::EmptyInterface => "Interface cannot be empty",
            BindError::ZeroPort => "Port number must be a positive integer",
        }
    }
}

/// Checks the endpoint a listener is asked to bind to: the interface must not be empty, and the
/// port must not be zero.
pub fn validate_endpoint(interface: &str, port: u16) -> (checked: Result<(), BindError>)
    ensures
        interface@.len() == 0 ==> checked == Err::<(), BindError>(BindError::EmptyInterface),
        interface@.len() != 0 && port == 0 ==> checked == Err::<(), BindError>(BindError::ZeroPort),
        interface@.len() != 0 && port != 0 ==> checked is Ok,
{
    if interface.is_empty() {
        return Err(BindError::EmptyInterface);
    }
    if port == 0 {
        Err(BindError::ZeroPort)
    } else {
        Ok(())
    }
}

/// How one attempt at accepting a WebSocket connection ended, with the peer's address `A` where
/// the attempt failed after the TCP connection was accepted.
#[derive(Debug)]
pub enum NewConnectionResult<C, A> {
    /// The WebSocket handshake completed.
    Established(C),
    /// The WebSocket handshake failed.
    HandshakeFailed(A),
    /// The WebSocket handshake did not complete in time.
    Timeout(A),
    /// The listener itself failed and cannot accept connections any more.
    ListenerError,
}

/// What a listener that waits for a successful connection does after one attempt.
#[derive(Debug)]
pub enum AcceptStep<C> {
    /// Hand over the connection.
    Accepted(C),
    /// Wait for the next connection.
    Retry,
    /// Give up: the listener failed.
    Failed,
}

/// Decides what a listener that waits for a successful connection does after an attempt: a
/// completed handshake is handed over, a failed or late handshake is skipped, and an error of
/// the listener ends the wait.
pub fn accept_step<C, A>(result: NewConnectionResult<C, A>) -> (step: AcceptStep<C>)
    ensures
        match result {
            NewConnectionResult::Established(connection) => step == AcceptStep::Accepted(connection),
            NewConnectionResult::ListenerError => step is Failed,
            _ => step is Retry,
        },
{
    match result {
        NewConnectionResult::Established(connection) => AcceptStep::Accepted(connection),
        NewConnectionResult::HandshakeFailed(_) => AcceptStep::Retry,
        NewConnectionResult::Timeout(_) => AcceptStep::Retry,
        NewConnectionResult::ListenerError => AcceptStep::Failed,
    }
}

/// Decides what a single accept yields: the connection if its handshake completed, and nothing
/// otherwise.
pub fn accept_once_result<C, A>(result: NewConnectionResult<C, A>) -> (connection: Option<C>)
    ensures
        match result {
            NewConnectionResult::Established(c) => connection == Some(c),
            _ => connection is None,
        },
{
    match result {
        NewConnectionResult::Established(connection) => Some(connection),
        _ => None,
    }
}

/// Classifies how a WebSocket handshake with the peer at `addr` ended: `Ok(Ok(c))` is a
/// completed handshake, `Ok(Err(_))` a failed one, and `Err(_)` a timeout.
pub fn classify_handshake<C, E, T, A>(outcome: Result<Result<C, E>, T>, addr: A) -> (result:
    NewConnectionResult<C, A>)
    ensures
        match outcome {
            Ok(Ok(connection)) => result == NewConnectionResult::<C, A>::Established(connection),
            Ok(Err(_)) => result == NewConnectionResult::<C, A>::HandshakeFailed(addr),
            Err(_) => result == NewConnectionResult::<C, A>::Timeout(addr),
        },
{
    match outcome {
        Ok(Ok(connection)) => NewConnectionResult::Established(connection),
        Ok(Err(_)) => NewConnectionResult::HandshakeFailed(addr),
        Err(_) => NewConnectionResult::Timeout(addr),
    }
}

/// Takes the receiving half of a channel out of its slot. It can be taken once: the slot is
/// empty afterwards.
pub fn take_channel<T>(slot: &mut Option<T>) -> (channel: T)
    requires
        *old(slot) is Some,
    ensures
        Some(channel) == *old(slot),
        *final(slot) is None,
{
    slot.take().unwrap()
}

} // verus!
