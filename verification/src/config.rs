//! The command server abstraction and the configuration that selects a binding.

use vstd::prelude::*;
use crate::config_mqtt::{
    PlainMqttServerConfig, TlsMqttServerConfig, WsMqttServerConfig, WssMqttServerConfig,
};
use crate::config_tcp::TcpServerConfig;
use crate::error::HandlerError;
use crate::handler::accepts_all;
use crate::session::{Action, ActionView, Event, Phase, SessionView};

verus! {

/// A command server: a handler registry and the session logic of one
/// transport binding. The server performs no I/O itself. Its driver calls
/// `start`, performs the action it is given, reports what happened to `step`,
/// and goes on with the action that `step` answers, until that is `Stop`.
pub trait Server<H: Fn(&str) -> Result<(), HandlerError>> {
    /// The registered handlers, by command key.
    spec fn handlers(&self) -> Map<Seq<char>, H>;

    /// The phase that the session is in.
    spec fn phase(&self) -> Phase;

    /// The session that this server opens.
    spec fn session(&self) -> SessionView;

    /// Whether the server, as it stands, may answer `event` by moving to phase
    /// `next` and asking for `action`.
    spec fn transition(&self, event: Event, next: Phase, action: ActionView) -> bool;

    /// Registers `handler` for `keyword`, in place of any handler registered for it before.
    fn register_handler(&mut self, keyword: &str, handler: H)
        requires
            accepts_all(handler),
        ensures
            final(self).handlers() == old(self).handlers().insert(keyword@, handler),
            final(self).phase() == old(self).phase(),
            final(self).session() == old(self).session(),
    ;

    /// Begins a run: asks for the session to be opened.
    fn start(&mut self) -> (action: Action)
        ensures
            action@ == ActionView::Connect(old(self).session()),
            final(self).phase() == Phase::Connecting,
            final(self).handlers() == old(self).handlers(),
            final(self).session() == old(self).session(),
    ;

    /// Answers an event with the next action. The registry and the
    /// configuration stay as they are; a run ends exactly when the session is given up.
    fn step(&mut self, event: Event) -> (action: Action)
        ensures
            old(self).transition(event, final(self).phase(), action@),
            final(self).handlers() == old(self).handlers(),
            final(self).session() == old(self).session(),
    ;
}

/// The configuration of an agent: one transport binding with its settings.
#[derive(Debug)]
pub enum LocalConfig {
    Tcp(TcpServerConfig),
    PlainMqtt(PlainMqttServerConfig),
    TlsMqtt(TlsMqttServerConfig),
    WsMqtt(WsMqttServerConfig),
    WssMqtt(WssMqttServerConfig),
}

/// The tag that names each binding in a configuration file.
pub open spec fn proto_spec(config: LocalConfig) -> Seq<char> {
    match config {
        LocalConfig::Tcp(_) => "tcp"@,
        LocalConfig::PlainMqtt(_) => "mqtt"@,
        LocalConfig::TlsMqtt(_) => "mqtt-tls"@,
        LocalConfig::WsMqtt(_) => "mqtt-ws"@,
        LocalConfig::WssMqtt(_) => "mqtt-wss"@,
    }
}

impl LocalConfig {
    /// The tag of the binding that this configuration selects.
    pub fn proto(&self) -> (tag: &'static str)
        ensures
            tag@ == proto_spec(*self),
    {
        match self {
            LocalConfig::Tcp(_) => "tcp",
            LocalConfig::PlainMqtt(_) => "mqtt",
            LocalConfig::TlsMqtt(_) => "mqtt-tls",
            LocalConfig::WsMqtt(_) => "mqtt-ws",
            LocalConfig::WssMqtt(_) => "mqtt-wss",
        }
    }
}

} // verus!
