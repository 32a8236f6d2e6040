//! The MQTT bindings.

use vstd::prelude::*;
use crate::config::Server;
use crate::decoder::{decode_payload, payload_frame_spec};
use crate::error::{HandlerError, ServerError};
use crate::handler::{accepts_all, HandlerRegistry};
use crate::session::{
    serve, serves, Action, ActionView, Event, Phase, QoS, Session, SessionView, TransportMode,
    MQTT_KEEP_ALIVE_SECS, MQTT_REQUEST_CAPACITY,
};

verus! {

/// Settings of the plain MQTT binding.
#[derive(Debug)]
pub struct PlainMqttServerConfig {
    pub host: String,
    pub port: u16,
    pub topic: String,
    pub uid: String,
}

/// Settings of the MQTT binding over TLS.
#[derive(Debug)]
pub struct TlsMqttServerConfig {
    pub host: String,
    pub port: u16,
    pub topic: String,
    pub uid: String,
}

/// Settings of the MQTT binding over WebSocket.
#[derive(Debug)]
pub struct WsMqttServerConfig {
    pub host: String,
    pub port: u16,
    pub topic: String,
    pub uid: String,
}

/// Settings of the MQTT binding over WebSocket and TLS.
#[derive(Debug)]
pub struct WssMqttServerConfig {
    pub host: String,
    pub port: u16,
    pub topic: String,
    pub uid: String,
}

impl Default for PlainMqttServerConfig {
    fn default() -> (config: Self)
        ensures
            config.host@ == Seq::<char>::empty(),
            config.port == 0,
            config.topic@ == Seq::<char>::empty(),
            config.uid@ == Seq::<char>::empty(),
    {
        PlainMqttServerConfig { host: String::new(), port: 0, topic: String::new(), uid: String::new() }
    }
}

impl Default for TlsMqttServerConfig {
    fn default() -> (config: Self)
        ensures
            config.host@ == Seq::<char>::empty(),
            config.port == 0,
            config.topic@ == Seq::<char>::empty(),
            config.uid@ == Seq::<char>::empty(),
    {
        TlsMqttServerConfig { host: String::new(), port: 0, topic: String::new(), uid: String::new() }
    }
}

impl Default for WsMqttServerConfig {
    fn default() -> (config: Self)
        ensures
            config.host@ == Seq::<char>::empty(),
            config.port == 0,
            config.topic@ == Seq::<char>::empty(),
            config.uid@ == Seq::<char>::empty(),
    {
        WsMqttServerConfig { host: String::new(), port: 0, topic: String::new(), uid: String::new() }
    }
}

impl Default for WssMqttServerConfig {
    fn default() -> (config: Self)
        ensures
            config.host@ == Seq::<char>::empty(),
            config.port == 0,
            config.topic@ == Seq::<char>::empty(),
            config.uid@ == Seq::<char>::empty(),
    {
        WssMqttServerConfig { host: String::new(), port: 0, topic: String::new(), uid: String::new() }
    }
}

/// Settings of an MQTT binding; the variant selects the transport.
#[derive(Debug)]
pub enum MqttServerConfig {
    Plain(PlainMqttServerConfig),
    TLS(TlsMqttServerConfig),
    WS(WsMqttServerConfig),
    WSS(WssMqttServerConfig),
}

impl Default for MqttServerConfig {
    fn default() -> (config: Self)
        ensures
            config is Plain,
            config.spec_host() == Seq::<char>::empty(),
            config.spec_port() == 0,
            config.spec_topic() == Seq::<char>::empty(),
            config.spec_uid() == Seq::<char>::empty(),
    {
        MqttServerConfig::Plain(PlainMqttServerConfig::default())
    }
}

impl MqttServerConfig {
    /// The client identity.
    pub open spec fn spec_uid(&self) -> Seq<char> {
        match *self {
            MqttServerConfig::Plain(config) => config.uid@,
            MqttServerConfig::TLS(config) => config.uid@,
            MqttServerConfig::WS(config) => config.uid@,
            MqttServerConfig::WSS(config) => config.uid@,
        }
    }

    /// The broker's host.
    pub open spec fn spec_host(&self) -> Seq<char> {
        match *self {
            MqttServerConfig::Plain(config) => config.host@,
            MqttServerConfig::TLS(config) => config.host@,
            MqttServerConfig::WS(config) => config.host@,
            MqttServerConfig::WSS(config) => config.host@,
        }
    }

    /// The broker's port.
    pub open spec fn spec_port(&self) -> u16 {
        match *self {
            MqttServerConfig::Plain(config) => config.port,
            MqttServerConfig::TLS(config) => config.port,
            MqttServerConfig::WS(config) => config.port,
            MqttServerConfig::WSS(config) => config.port,
        }
    }

    /// The topic to subscribe to.
    pub open spec fn spec_topic(&self) -> Seq<char> {
        match *self {
            MqttServerConfig::Plain(config) => config.topic@,
            MqttServerConfig::TLS(config) => config.topic@,
            MqttServerConfig::WS(config) => config.topic@,
            MqttServerConfig::WSS(config) => config.topic@,
        }
    }

    /// The transport that the variant selects.
    pub open spec fn spec_mode(&self) -> TransportMode {
        match *self {
            MqttServerConfig::Plain(_) => TransportMode::Plain,
            MqttServerConfig::TLS(_) => TransportMode::Tls,
            MqttServerConfig::WS(_) => TransportMode::Ws,
            MqttServerConfig::WSS(_) => TransportMode::Wss,
        }
    }

    /// The client identity.
    pub fn uid(&self) -> (uid: &str)
        ensures
            uid@ == self.spec_uid(),
    {
        match self {
            MqttServerConfig::Plain(config) => config.uid.as_str(),
            MqttServerConfig::TLS(config) => config.uid.as_str(),
            MqttServerConfig::WS(config) => config.uid.as_str(),
            MqttServerConfig::WSS(config) => config.uid.as_str(),
        }
    }

    /// The broker's host.
    pub fn host(&self) -> (host: &str)
        ensures
            host@ == self.spec_host(),
    {
        match self {
            MqttServerConfig::Plain(config) => config.host.as_str(),
            MqttServerConfig::TLS(config) => config.host.as_str(),
            MqttServerConfig::WS(config) => config.host.as_str(),
            MqttServerConfig::WSS(config) => config.host.as_str(),
        }
    }

    /// The broker's port.
    pub fn port(&self) -> (port: u16)
        ensures
            port == self.spec_port(),
    {
        match self {
            MqttServerConfig::Plain(config) => config.port,
            MqttServerConfig::TLS(config) => config.port,
            MqttServerConfig::WS(config) => config.port,
            MqttServerConfig::WSS(config) => config.port,
        }
    }

    /// The topic to subscribe to.
    pub fn topic(&self) -> (topic: &str)
        ensures
            topic@ == self.spec_topic(),
    {
        match self {
            MqttServerConfig::Plain(config) => config.topic.as_str(),
            MqttServerConfig::TLS(config) => config.topic.as_str(),
            MqttServerConfig::WS(config) => config.topic.as_str(),
            MqttServerConfig::WSS(config) => config.topic.as_str(),
        }
    }

    /// The transport that the variant selects.
    pub fn mode(&self) -> (mode: TransportMode)
        ensures
            mode == self.spec_mode(),
    {
        match self {
            MqttServerConfig::Plain(_) => TransportMode::Plain,
            MqttServerConfig::TLS(_) => TransportMode::Tls,
            MqttServerConfig::WS(_) => TransportMode::Ws,
            MqttServerConfig::WSS(_) => TransportMode::Wss,
        }
    }
}

/// The session that an MQTT server opens: the configured identity and broker,
/// the transport of the variant, the binding's keep-alive and queue capacity.
pub open spec fn mqtt_session(config: MqttServerConfig) -> SessionView {
    SessionView::Mqtt {
        client_id: config.spec_uid(),
        host: config.spec_host(),
        port: config.spec_port(),
        mode: config.spec_mode(),
        keep_alive_secs: MQTT_KEEP_ALIVE_SECS,
        capacity: MQTT_REQUEST_CAPACITY,
    }
}

/// The answers of the MQTT bindings.
///
/// Once the session is set up the server subscribes to the configured topic,
/// with delivery at least once, and then receives. It dispatches the payload
/// of each publish and passes over everything else that arrives. The first
/// transport failure ends the run, and so does an event that the phase does
/// not admit.
pub open spec fn mqtt_transition<H: Fn(&str) -> Result<(), HandlerError>>(
    config: MqttServerConfig,
    handlers: Map<Seq<char>, H>,
    phase: Phase,
    event: Event,
    next: Phase,
    action: ActionView,
) -> bool {
    match (phase, event) {
        (Phase::Disconnected, _) => next == Phase::Disconnected && action == ActionView::Stop(
            ServerError::Protocol,
        ),
        (_, Event::Failed(reason)) => next == Phase::Disconnected && action == ActionView::Stop(
            ServerError::Transport(reason),
        ),
        (Phase::Connecting, Event::Connected) => next == Phase::Subscribing && action
            == (ActionView::Subscribe { topic: config.spec_topic(), qos: QoS::AtLeastOnce }),
        (Phase::Subscribing, Event::Sent) => next == Phase::Receiving && action
            == ActionView::Receive,
        (Phase::Receiving, Event::Data(payload)) => serves(
            handlers,
            payload_frame_spec(payload@),
            next,
            action,
        ),
        (Phase::Receiving, Event::Other) => next == Phase::Receiving && action
            == ActionView::Receive,
        _ => next == Phase::Disconnected && action == ActionView::Stop(ServerError::Protocol),
    }
}

/// A command server over one of the MQTT bindings.
pub struct MqttServer<H: Fn(&str) -> Result<(), HandlerError>> {
    config: MqttServerConfig,
    handlers: HandlerRegistry<H>,
    phase: Phase,
}

impl<H: Fn(&str) -> Result<(), HandlerError>> MqttServer<H> {
    /// The settings that the server was made with.
    pub closed spec fn config(&self) -> MqttServerConfig {
        self.config
    }

    /// A server for `config`, disconnected and without handlers.
    pub fn new(config: MqttServerConfig) -> (server: Self)
        ensures
            server.config() == config,
            server.handlers() == Map::<Seq<char>, H>::empty(),
            server.phase() == Phase::Disconnected,
    {
        MqttServer { config, handlers: HandlerRegistry::new(), phase: Phase::Disconnected }
    }

    /// The session to open.
    pub fn connection(&self) -> (session: Session)
        ensures
            session@ == mqtt_session(self.config()),
    {
        Session::Mqtt {
            client_id: self.config.uid().to_owned(),
            host: self.config.host().to_owned(),
            port: self.config.port(),
            mode: self.config.mode(),
            keep_alive_secs: MQTT_KEEP_ALIVE_SECS,
            capacity: MQTT_REQUEST_CAPACITY,
        }
    }

    /// The phase that the session is in.
    pub fn current_phase(&self) -> (phase: Phase)
        ensures
            phase == self.phase(),
    {
        self.phase
    }
}

impl<H: Fn(&str) -> Result<(), HandlerError>> Server<H> for MqttServer<H> {
    closed spec fn handlers(&self) -> Map<Seq<char>, H> {
        self.handlers@
    }

    closed spec fn phase(&self) -> Phase {
        self.phase
    }

    open spec fn session(&self) -> SessionView {
        mqtt_session(self.config())
    }

    open spec fn transition(&self, event: Event, next: Phase, action: ActionView) -> bool {
        mqtt_transition(self.config(), self.handlers(), self.phase(), event, next, action)
    }

    fn register_handler(&mut self, keyword: &str, handler: H)
        ensures
            final(self).config() == old(self).config(),
    {
        self.handlers.register(keyword, handler);
    }

    fn start(&mut self) -> (action: Action)
        ensures
            final(self).config() == old(self).config(),
    {
        self.phase = Phase::Connecting;
        Action::Connect(self.connection())
    }

    fn step(&mut self, event: Event) -> (action: Action)
        ensures
            final(self).config() == old(self).config(),
    {
        let (next, action) = match (self.phase, event) {
            (Phase::Disconnected, _) => (Phase::Disconnected, Action::Stop(ServerError::Protocol)),
            (_, Event::Failed(reason)) => (
                Phase::Disconnected,
                Action::Stop(ServerError::Transport(reason)),
            ),
            (Phase::Connecting, Event::Connected) => (
                Phase::Subscribing,
                Action::Subscribe { topic: self.config.topic().to_owned(), qos: QoS::AtLeastOnce },
            ),
            (Phase::Subscribing, Event::Sent) => (Phase::Receiving, Action::Receive),
            (Phase::Receiving, Event::Data(payload)) => serve(
                &self.handlers,
                decode_payload(payload),
            ),
            (Phase::Receiving, Event::Other) => (Phase::Receiving, Action::Receive),
            _ => (Phase::Disconnected, Action::Stop(ServerError::Protocol)),
        };
        self.phase = next;
        action
    }
}

} // verus!
