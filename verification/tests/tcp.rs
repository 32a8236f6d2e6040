use remote_shutdown::config::Server;
use remote_shutdown::config_tcp::{TcpServer, TcpServerConfig};
use remote_shutdown::error::{HandlerError, ServerError};
use remote_shutdown::session::{Action, Event, Phase, Session};
use std::cell::RefCell;
use std::rc::Rc;

type BoxedHandler = Box<dyn Fn(&str) -> Result<(), HandlerError>>;
type Log = Rc<RefCell<Vec<String>>>;

fn config() -> TcpServerConfig {
    TcpServerConfig {
        host: "bemfa.example".to_string(),
        port: 8344,
        topic: "light".to_string(),
        uid: "123456789".to_string(),
    }
}

fn recording_server(log: &Log) -> TcpServer<BoxedHandler> {
    let mut server: TcpServer<BoxedHandler> = TcpServer::new(config());
    let log = log.clone();
    server.register_handler(
        "off",
        Box::new(move |value: &str| {
            log.borrow_mut().push(value.to_string());
            Ok(())
        }),
    );
    server
}

fn subscribed(server: &mut TcpServer<BoxedHandler>) {
    assert!(matches!(server.start(), Action::Connect(_)));
    assert!(matches!(server.step(Event::Connected), Action::Send(_)));
    assert!(matches!(server.step(Event::Sent), Action::Receive));
    assert!(matches!(server.step(Event::Data(b"cmd=1&res=1\r\n".to_vec())), Action::Receive));
    assert_eq!(server.current_phase(), Phase::Receiving);
}

fn assert_reconnects(action: Action) {
    match action {
        Action::Connect(Session::Tcp { host, port, read_timeout_secs, write_timeout_secs }) => {
            assert_eq!(host, "bemfa.example");
            assert_eq!(port, 8344);
            assert_eq!(read_timeout_secs, 60);
            assert_eq!(write_timeout_secs, 1);
        }
        other => panic!("expected a TCP connect, got {:?}", other),
    }
}

#[test]
fn tcp_server_starts_disconnected() {
    let server: TcpServer<BoxedHandler> = TcpServer::new(config());
    assert_eq!(server.current_phase(), Phase::Disconnected);
}

#[test]
fn tcp_start_asks_for_the_configured_endpoint() {
    let mut server: TcpServer<BoxedHandler> = TcpServer::new(config());
    assert_reconnects(server.start());
    assert_eq!(server.current_phase(), Phase::Connecting);
}

#[test]
fn tcp_handshake_request_names_identity_and_topic() {
    let server: TcpServer<BoxedHandler> = TcpServer::new(config());
    assert_eq!(server.subscribe_request(), b"cmd=1&uid=123456789&topic=light\r\n".to_vec());
    let anonymous: TcpServer<BoxedHandler> = TcpServer::new(TcpServerConfig::default());
    assert_eq!(anonymous.subscribe_request(), b"cmd=1&uid=&topic=\r\n".to_vec());
}

#[test]
fn tcp_handshake_succeeds_on_the_exact_acknowledgement() {
    let log: Log = Rc::new(RefCell::new(Vec::new()));
    let mut server = recording_server(&log);
    server.start();
    match server.step(Event::Connected) {
        Action::Send(bytes) => assert_eq!(bytes, b"cmd=1&uid=123456789&topic=light\r\n".to_vec()),
        other => panic!("expected the subscription request, got {:?}", other),
    }
    assert_eq!(server.current_phase(), Phase::Subscribing);
    assert!(matches!(server.step(Event::Sent), Action::Receive));
    assert_eq!(server.current_phase(), Phase::AwaitingAck);
    assert!(matches!(server.step(Event::Data(b"cmd=1&res=1\r\n".to_vec())), Action::Receive));
    assert_eq!(server.current_phase(), Phase::Receiving);
    assert!(log.borrow().is_empty());
}

#[test]
fn tcp_handshake_fails_on_any_other_reply() {
    for reply in [
        &b"cmd=1&res=0\r\n"[..],
        &b"cmd=1&res=1"[..],
        &b"cmd=1&res=1\r\n\r\n"[..],
        &b" cmd=1&res=1\r\n"[..],
        &b"msg=off=1"[..],
        &b""[..],
    ] {
        let log: Log = Rc::new(RefCell::new(Vec::new()));
        let mut server = recording_server(&log);
        server.start();
        server.step(Event::Connected);
        server.step(Event::Sent);
        assert_reconnects(server.step(Event::Data(reply.to_vec())));
        assert_eq!(server.current_phase(), Phase::Connecting);
        assert!(log.borrow().is_empty());
    }
}

#[test]
fn tcp_acknowledges_only_the_literal_reply() {
    assert!(TcpServer::<BoxedHandler>::acknowledges(&b"cmd=1&res=1\r\n".to_vec()));
    assert!(!TcpServer::<BoxedHandler>::acknowledges(&b"cmd=1&res=1\n".to_vec()));
    assert!(!TcpServer::<BoxedHandler>::acknowledges(&b"cmd=2&res=1\r\n".to_vec()));
    assert!(!TcpServer::<BoxedHandler>::acknowledges(&Vec::new()));
}

#[test]
fn tcp_handshake_timeout_reconnects() {
    let mut server: TcpServer<BoxedHandler> = TcpServer::new(config());
    server.start();
    server.step(Event::Connected);
    server.step(Event::Sent);
    assert_reconnects(server.step(Event::TimedOut));
    assert_eq!(server.current_phase(), Phase::Connecting);
}

#[test]
fn tcp_read_timeout_sends_one_ping_and_goes_on() {
    let log: Log = Rc::new(RefCell::new(Vec::new()));
    let mut server = recording_server(&log);
    subscribed(&mut server);
    match server.step(Event::TimedOut) {
        Action::Send(bytes) => assert_eq!(bytes, b"ping\r\n".to_vec()),
        other => panic!("expected a ping, got {:?}", other),
    }
    assert_eq!(server.current_phase(), Phase::Probing);
    assert!(matches!(server.step(Event::Sent), Action::Receive));
    assert_eq!(server.current_phase(), Phase::Receiving);
    assert!(log.borrow().is_empty());
    assert_eq!(TcpServer::<BoxedHandler>::ping(), b"ping\r\n".to_vec());
}

#[test]
fn tcp_chunk_with_marker_is_dispatched() {
    let log: Log = Rc::new(RefCell::new(Vec::new()));
    let mut server = recording_server(&log);
    subscribed(&mut server);
    let action = server.step(Event::Data(b"cmd=2&uid=1&topic=light&msg=off=now&x=1\r\n".to_vec()));
    assert!(matches!(action, Action::Receive));
    assert_eq!(server.current_phase(), Phase::Receiving);
    assert_eq!(*log.borrow(), vec!["now".to_string()]);
}

#[test]
fn tcp_chunk_without_marker_is_discarded() {
    let log: Log = Rc::new(RefCell::new(Vec::new()));
    let mut server = recording_server(&log);
    subscribed(&mut server);
    assert!(matches!(server.step(Event::Data(b"off=now\r\n".to_vec())), Action::Receive));
    assert!(matches!(server.step(Event::Data(b"cmd=0&res=1\r\n".to_vec())), Action::Receive));
    assert_eq!(server.current_phase(), Phase::Receiving);
    assert!(log.borrow().is_empty());
}

#[test]
fn tcp_handler_failure_ends_the_run() {
    let mut server: TcpServer<BoxedHandler> = TcpServer::new(config());
    server.register_handler("off", Box::new(|_value: &str| Err(HandlerError::new("no rights"))));
    subscribed(&mut server);
    match server.step(Event::Data(b"msg=off".to_vec())) {
        Action::Stop(ServerError::Handler(error)) => assert_eq!(error.message, "no rights"),
        other => panic!("expected the handler's failure, got {:?}", other),
    }
    assert_eq!(server.current_phase(), Phase::Disconnected);
}

#[test]
fn tcp_invalid_utf8_ends_the_run() {
    let log: Log = Rc::new(RefCell::new(Vec::new()));
    let mut server = recording_server(&log);
    subscribed(&mut server);
    let action = server.step(Event::Data(vec![b'm', b's', b'g', b'=', 0xff, 0xff]));
    assert!(matches!(action, Action::Stop(ServerError::Decode)));
    assert_eq!(server.current_phase(), Phase::Disconnected);
    assert!(log.borrow().is_empty());
}

#[test]
fn tcp_transport_failure_reconnects_in_every_open_phase() {
    for steps in 0..5 {
        let mut server: TcpServer<BoxedHandler> = TcpServer::new(config());
        server.start();
        let events = [
            Event::Connected,
            Event::Sent,
            Event::Data(b"cmd=1&res=1\r\n".to_vec()),
            Event::TimedOut,
        ];
        for event in events.into_iter().take(steps) {
            server.step(event);
        }
        assert_reconnects(server.step(Event::Failed("connection reset".to_string())));
        assert_eq!(server.current_phase(), Phase::Connecting);
    }
}

#[test]
fn tcp_reconnect_restarts_the_handshake() {
    let log: Log = Rc::new(RefCell::new(Vec::new()));
    let mut server = recording_server(&log);
    subscribed(&mut server);
    assert_reconnects(server.step(Event::Failed("broken pipe".to_string())));
    assert!(matches!(server.step(Event::Connected), Action::Send(_)));
    assert!(matches!(server.step(Event::Sent), Action::Receive));
    assert!(matches!(server.step(Event::Data(b"cmd=1&res=1\r\n".to_vec())), Action::Receive));
    assert!(matches!(server.step(Event::Data(b"msg=off=2".to_vec())), Action::Receive));
    assert_eq!(*log.borrow(), vec!["2".to_string()]);
}

#[test]
fn tcp_event_out_of_turn_ends_the_run() {
    let mut server: TcpServer<BoxedHandler> = TcpServer::new(config());
    assert!(matches!(server.step(Event::Connected), Action::Stop(ServerError::Protocol)));
    assert_eq!(server.current_phase(), Phase::Disconnected);
    assert!(matches!(
        server.step(Event::Failed("late".to_string())),
        Action::Stop(ServerError::Protocol)
    ));
    server.start();
    assert!(matches!(
        server.step(Event::Data(b"msg=off".to_vec())),
        Action::Stop(ServerError::Protocol)
    ));
    assert_eq!(server.current_phase(), Phase::Disconnected);
    let mut receiving: TcpServer<BoxedHandler> = TcpServer::new(config());
    subscribed(&mut receiving);
    assert!(matches!(receiving.step(Event::Other), Action::Stop(ServerError::Protocol)));
}

#[test]
fn tcp_later_registration_replaces_the_handler() {
    let log: Log = Rc::new(RefCell::new(Vec::new()));
    let mut server: TcpServer<BoxedHandler> = TcpServer::new(config());
    server.register_handler("off", Box::new(|_value: &str| Err(HandlerError::new("old"))));
    let sink = log.clone();
    server.register_handler(
        "off",
        Box::new(move |value: &str| {
            sink.borrow_mut().push(value.to_string());
            Ok(())
        }),
    );
    subscribed(&mut server);
    assert!(matches!(server.step(Event::Data(b"msg=off=1".to_vec())), Action::Receive));
    assert_eq!(*log.borrow(), vec!["1".to_string()]);
}

#[test]
fn tcp_server_works_as_a_trait_object() {
    let log: Log = Rc::new(RefCell::new(Vec::new()));
    let mut server: Box<dyn Server<BoxedHandler>> = Box::new(recording_server(&log));
    assert!(matches!(server.start(), Action::Connect(Session::Tcp { .. })));
    assert!(matches!(server.step(Event::Connected), Action::Send(_)));
}
