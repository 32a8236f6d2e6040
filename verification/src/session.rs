//! The vocabulary between a command server and the driver that performs its
//! I/O: the server answers each event with the next action to perform.

use vstd::prelude::*;
use crate::decoder::{frame_view, FrameView};
use crate::error::{HandlerError, ServerError};
use crate::handler::{frame_outcome, HandlerRegistry};

verus! {

/// Where a server stands in the life of its session.
#[derive(Debug, Clone, Copy, PartialEq, Eq, Structural)]
pub enum Phase {
    /// No session is open.
    Disconnected,
    /// A connection is being opened.
    Connecting,
    /// The subscription request is on its way.
    Subscribing,
    /// The subscription request is sent and its acknowledgement awaited.
    AwaitingAck,
    /// Subscribed; commands are being received.
    Receiving,
    /// A liveness probe is on its way.
    Probing,
}

/// How an MQTT session reaches its broker.
#[derive(Debug, Clone, Copy, PartialEq, Eq, Structural)]
pub enum TransportMode {
    /// A plain socket.
    Plain,
    /// TLS with the platform's trusted roots and no client certificate.
    Tls,
    /// WebSocket.
    Ws,
    /// WebSocket over TLS, with the same trust as `Tls`.
    Wss,
}

/// Delivery guarantee of a subscription.
#[derive(Debug, Clone, Copy, PartialEq, Eq, Structural)]
pub enum QoS {
    AtMostOnce,
    AtLeastOnce,
    ExactlyOnce,
}

/// Read timeout of a TCP session, in seconds.
pub const TCP_READ_TIMEOUT_SECS: u64 = 60;

/// Write timeout of a TCP session, in seconds.
pub const TCP_WRITE_TIMEOUT_SECS: u64 = 1;

/// Keep-alive interval of an MQTT session, in seconds.
pub const MQTT_KEEP_ALIVE_SECS: u64 = 5;

/// Capacity of the request queue of an MQTT session.
pub const MQTT_REQUEST_CAPACITY: usize = 1;

/// The session that a driver is asked to open.
#[derive(Debug)]
pub enum Session {
    /// A TCP connection with the given timeouts.
    Tcp { host: String, port: u16, read_timeout_secs: u64, write_timeout_secs: u64 },
    /// An MQTT session.
    Mqtt {
        client_id: String,
        host: String,
        port: u16,
        mode: TransportMode,
        keep_alive_secs: u64,
        capacity: usize,
    },
}

/// A `Session` as the contracts see it.
pub enum SessionView {
    Tcp { host: Seq<char>, port: u16, read_timeout_secs: u64, write_timeout_secs: u64 },
    Mqtt {
        client_id: Seq<char>,
        host: Seq<char>,
        port: u16,
        mode: TransportMode,
        keep_alive_secs: u64,
        capacity: usize,
    },
}

impl View for Session {
    type V = SessionView;

    open spec fn view(&self) -> SessionView {
        match *self {
            Session::Tcp { host, port, read_timeout_secs, write_timeout_secs } => SessionView::Tcp {
                host: host@,
                port,
                read_timeout_secs,
                write_timeout_secs,
            },
            Session::Mqtt {
                client_id,
                host,
                port,
                mode,
                keep_alive_secs,
                capacity,
            } => SessionView::Mqtt {
                client_id: client_id@,
                host: host@,
                port,
                mode,
                keep_alive_secs,
                capacity,
            },
        }
    }
}

/// What the driver has to do next.
#[derive(Debug)]
pub enum Action {
    /// Drop the session that is open, if any, and open this one.
    Connect(Session),
    /// Write these bytes to the session.
    Send(Vec<u8>),
    /// Subscribe the session to a topic.
    Subscribe { topic: String, qos: QoS },
    /// Wait for the next delivery.
    Receive,
    /// End the run with this error.
    Stop(ServerError),
}

/// An `Action` as the contracts see it.
pub enum ActionView {
    Connect(SessionView),
    Send(Seq<u8>),
    Subscribe { topic: Seq<char>, qos: QoS },
    Receive,
    Stop(ServerError),
}

impl View for Action {
    type V = ActionView;

    open spec fn view(&self) -> ActionView {
        match *self {
            Action::Connect(session) => ActionView::Connect(session@),
            Action::Send(bytes) => ActionView::Send(bytes@),
            Action::Subscribe { topic, qos } => ActionView::Subscribe { topic: topic@, qos },
            Action::Receive => ActionView::Receive,
            Action::Stop(error) => ActionView::Stop(error),
        }
    }
}

/// What the driver reports back after it performed an action.
#[derive(Debug)]
pub enum Event {
    /// The session asked for is open.
    Connected,
    /// The bytes are written, or the subscription is requested.
    Sent,
    /// A delivery arrived: a chunk read from a stream, or the payload of a publish.
    Data(Vec<u8>),
    /// Something arrived that carries no command, such as an acknowledgement.
    Other,
    /// Nothing arrived within the read timeout.
    TimedOut,
    /// The transport failed; the text describes how.
    Failed(String),
}

/// The step that follows the dispatch of a frame: go on receiving after
/// success, stop with the handler's failure otherwise.
pub open spec fn after_dispatch_spec(outcome: Result<(), HandlerError>) -> (Phase, ActionView) {
    match outcome {
        Ok(_) => (Phase::Receiving, ActionView::Receive),
        Err(e) => (Phase::Disconnected, ActionView::Stop(ServerError::Handler(e))),
    }
}

/// The step that follows the dispatch of a frame.
pub fn after_dispatch(outcome: Result<(), HandlerError>) -> (step: (Phase, Action))
    ensures
        (step.0, step.1@) == after_dispatch_spec(outcome),
{
    match outcome {
        Ok(_) => (Phase::Receiving, Action::Receive),
        Err(e) => (Phase::Disconnected, Action::Stop(ServerError::Handler(e))),
    }
}

/// How a server in phase `Receiving` may answer a delivery that decodes to
/// `frame`. It stops with the error where the delivery could not be decoded.
/// Otherwise it dispatches the frame: it goes on
/// receiving where the handlers allow the dispatch to succeed, and stops with a
/// handler's failure where they allow the dispatch to end in that failure.
pub open spec fn serves<H: Fn(&str) -> Result<(), HandlerError>>(
    handlers: Map<Seq<char>, H>,
    frame: Result<FrameView, ServerError>,
    next: Phase,
    action: ActionView,
) -> bool {
    match frame {
        Err(e) => next == Phase::Disconnected && action == ActionView::Stop(e),
        Ok(f) => match action {
            ActionView::Receive => next == Phase::Receiving && frame_outcome(handlers, f, Ok(())),
            ActionView::Stop(ServerError::Handler(e)) => next == Phase::Disconnected
                && frame_outcome(handlers, f, Err(e)),
            _ => false,
        },
    }
}

/// Dispatches a decoded delivery and gives the step that follows.
pub fn serve<H: Fn(&str) -> Result<(), HandlerError>>(
    handlers: &HandlerRegistry<H>,
    frame: Result<Vec<(String, String)>, ServerError>,
) -> (step: (Phase, Action))
    ensures
        serves(
            handlers@,
            match frame {
                Ok(f) => Ok(frame_view(f@)),
                Err(e) => Err(e),
            },
            step.0,
            step.1@,
        ),
{
    match frame {
        Ok(f) => {
            let outcome = handlers.dispatch_frame(&f);
            assert(outcome is Ok ==> outcome->Ok_0 == ());
            after_dispatch(outcome)
        },
        Err(e) => (Phase::Disconnected, Action::Stop(e)),
    }
}

} // verus!
