//! The TCP binding: a line protocol with a subscription handshake and
//! liveness probes.

use vstd::prelude::*;
use vstd::utf8::encode_utf8;
use crate::config::Server;
use crate::decoder::{chunk_frame_spec, decode_chunk};
use crate::error::{HandlerError, ServerError};
use crate::handler::{accepts_all, HandlerRegistry};
use crate::session::{
    serve, serves, Action, ActionView, Event, Phase, Session, SessionView, TCP_READ_TIMEOUT_SECS,
    TCP_WRITE_TIMEOUT_SECS,
};
use crate::text::bytes_equal;

verus! {

/// Settings of the TCP binding.
#[derive(Debug)]
pub struct TcpServerConfig {
    pub host: String,
    pub port: u16,
    pub topic: String,
    pub uid: String,
}

impl Default for TcpServerConfig {
    fn default() -> (config: Self)
        ensures
            config.host@ == Seq::<char>::empty(),
            config.port == 0,
            config.topic@ == Seq::<char>::empty(),
            config.uid@ == Seq::<char>::empty(),
    {
        TcpServerConfig { host: String::new(), port: 0, topic: String::new(), uid: String::new() }
    }
}

/// The subscription request: `cmd=1&uid=<uid>&topic=<topic>` and a line end.
pub open spec fn handshake_text(uid: Seq<char>, topic: Seq<char>) -> Seq<char> {
    "cmd=1&uid="@ + uid + "&topic="@ + topic + "\r\n"@
}

/// The bytes of the subscription request.
pub open spec fn handshake_request(config: TcpServerConfig) -> Seq<u8> {
    encode_utf8(handshake_text(config.uid@, config.topic@))
}

/// The one reply that acknowledges a subscription.
pub open spec fn handshake_ack() -> Seq<u8> {
    encode_utf8("cmd=1&res=1\r\n"@)
}

/// The liveness probe.
pub open spec fn ping_request() -> Seq<u8> {
    encode_utf8("ping\r\n"@)
}

/// The session that a TCP server opens.
pub open spec fn tcp_session(config: TcpServerConfig) -> SessionView {
    SessionView::Tcp {
        host: config.host@,
        port: config.port,
        read_timeout_secs: TCP_READ_TIMEOUT_SECS,
        write_timeout_secs: TCP_WRITE_TIMEOUT_SECS,
    }
}

/// The answers of the TCP binding.
///
/// Once connected the server sends the subscription request and awaits the
/// acknowledgement. With the acknowledgement it starts receiving. While
/// receiving it dispatches each chunk, and answers a read timeout with one
/// liveness probe, after which it receives again. A transport failure in an
/// open or opening session, a missing or wrong acknowledgement: the session is
/// given up and opened anew. An event that the phase does not admit ends the run.
pub open spec fn tcp_transition<H: Fn(&str) -> Result<(), HandlerError>>(
    config: TcpServerConfig,
    handlers: Map<Seq<char>, H>,
    phase: Phase,
    event: Event,
    next: Phase,
    action: ActionView,
) -> bool {
    let reconnects = next == Phase::Connecting && action == ActionView::Connect(
        tcp_session(config),
    );
    match (phase, event) {
        (Phase::Disconnected, _) => next == Phase::Disconnected && action == ActionView::Stop(
            ServerError::Protocol,
        ),
        (_, Event::Failed(_)) => reconnects,
        (Phase::Connecting, Event::Connected) => next == Phase::Subscribing && action
            == ActionView::Send(handshake_request(config)),
        (Phase::Subscribing, Event::Sent) => next == Phase::AwaitingAck && action
            == ActionView::Receive,
        (Phase::AwaitingAck, Event::Data(reply)) => if reply@ == handshake_ack() {
            next == Phase::Receiving && action == ActionView::Receive
        } else {
            reconnects
        },
        (Phase::AwaitingAck, Event::TimedOut) => reconnects,
        (Phase::Receiving, Event::Data(chunk)) => serves(
            handlers,
            chunk_frame_spec(chunk@),
            next,
            action,
        ),
        (Phase::Receiving, Event::TimedOut) => next == Phase::Probing && action
            == ActionView::Send(ping_request()),
        (Phase::Probing, Event::Sent) => next == Phase::Receiving && action == ActionView::Receive,
        _ => next == Phase::Disconnected && action == ActionView::Stop(ServerError::Protocol),
    }
}

/// A command server over the TCP binding.
pub struct TcpServer<H: Fn(&str) -> Result<(), HandlerError>> {
    config: TcpServerConfig,
    handlers: HandlerRegistry<H>,
    phase: Phase,
}

impl<H: Fn(&str) -> Result<(), HandlerError>> TcpServer<H> {
    /// The settings that the server was made with.
    pub closed spec fn config(&self) -> TcpServerConfig {
        self.config
    }

    /// A server for `config`, disconnected and without handlers.
    pub fn new(config: TcpServerConfig) -> (server: Self)
        ensures
            server.config() == config,
            server.handlers() == Map::<Seq<char>, H>::empty(),
            server.phase() == Phase::Disconnected,
    {
        TcpServer { config, handlers: HandlerRegistry::new(), phase: Phase::Disconnected }
    }

    /// The session to open: the configured endpoint with the binding's timeouts.
    pub fn connection(&self) -> (session: Session)
        ensures
            session@ == tcp_session(self.config()),
    {
        Session::Tcp {
            host: self.config.host.clone(),
            port: self.config.port,
            read_timeout_secs: TCP_READ_TIMEOUT_SECS,
            write_timeout_secs: TCP_WRITE_TIMEOUT_SECS,
        }
    }

    /// The bytes of the subscription request for the configured identity and topic.
    pub fn subscribe_request(&self) -> (bytes: Vec<u8>)
        ensures
            bytes@ == handshake_request(self.config()),
    {
        let mut text = String::from_str("cmd=1&uid=");
        text.append(self.config.uid.as_str());
        text.append("&topic=");
        text.append(self.config.topic.as_str());
        text.append("\r\n");
        text.as_str().as_bytes_vec()
    }

    /// Whether `reply` is the acknowledgement of a subscription.
    pub fn acknowledges(reply: &Vec<u8>) -> (yes: bool)
        ensures
            yes == (reply@ == handshake_ack()),
    {
        bytes_equal(reply.as_slice(), "cmd=1&res=1\r\n".as_bytes())
    }

    /// The bytes of a liveness probe.
    pub fn ping() -> (bytes: Vec<u8>)
        ensures
            bytes@ == ping_request(),
    {
        "ping\r\n".as_bytes_vec()
    }

    /// The phase that the session is in.
    pub fn current_phase(&self) -> (phase: Phase)
        ensures
            phase == self.phase(),
    {
        self.phase
    }
}

impl<H: Fn(&str) -> Result<(), HandlerError>> Server<H> for TcpServer<H> {
    closed spec fn handlers(&self) -> Map<Seq<char>, H> {
        self.handlers@
    }

    closed spec fn phase(&self) -> Phase {
        self.phase
    }

    open spec fn session(&self) -> SessionView {
        tcp_session(self.config())
    }

    open spec fn transition(&self, event: Event, next: Phase, action: ActionView) -> bool {
        tcp_transition(self.config(), self.handlers(), self.phase(), event, next, action)
    }

    fn register_handler(&mut self, keyword: &str, handler: H)
        ensures
            final(self).config() == old(self).config(),
    {
        self.handlers.register(keyword, handler);
    }

    fn start(&mut self) -> (action: Action)
        ensures
            final(self).config() == old(self).config(),
    {
        self.phase = Phase::Connecting;
        Action::Connect(self.connection())
    }

    fn step(&mut self, event: Event) -> (action: Action)
        ensures
            final(self).config() == old(self).config(),
    {
        let (next, action) = match (self.phase, event) {
            (Phase::Disconnected, _) => (Phase::Disconnected, Action::Stop(ServerError::Protocol)),
            (_, Event::Failed(_)) => (Phase::Connecting, Action::Connect(self.connection())),
            (Phase::Connecting, Event::Connected) => (
                Phase::Subscribing,
                Action::Send(self.subscribe_request()),
            ),
            (Phase::Subscribing, Event::Sent) => (Phase::AwaitingAck, Action::Receive),
            (Phase::AwaitingAck, Event::Data(reply)) => if Self::acknowledges(&reply) {
                (Phase::Receiving, Action::Receive)
            } else {
                (Phase::Connecting, Action::Connect(self.connection()))
            },
            (Phase::AwaitingAck, Event::TimedOut) => (
                Phase::Connecting,
                Action::Connect(self.connection()),
            ),
            (Phase::Receiving, Event::Data(chunk)) => serve(&self.handlers, decode_chunk(chunk)),
            (Phase::Receiving, Event::TimedOut) => (Phase::Probing, Action::Send(Self::ping())),
            (Phase::Probing, Event::Sent) => (Phase::Receiving, Action::Receive),
            _ => (Phase::Disconnected, Action::Stop(ServerError::Protocol)),
        };
        self.phase = next;
        action
    }
}

} // verus!
