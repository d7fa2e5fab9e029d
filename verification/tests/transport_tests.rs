use std::cell::RefCell;
use std::rc::Rc;

use mumble_core::config::{MumbleConfig, DEFAULT_PORT};
use mumble_core::control::{
    ControlConnector, ControlHandshake, ControlMessage, ControlSession, HandshakeRequest,
    UserStateCommand,
};
use mumble_core::errors::TransportError;
use mumble_core::events::TransportEvent;
use mumble_core::transport::{is_blank, MumbleTransport};
use mumble_core::types::ConnState;

#[derive(Default)]
struct TestControlConnector {
    last_request: Rc<RefCell<Option<HandshakeRequest>>>,
    fail: bool,
}

impl ControlConnector for TestControlConnector {
    fn handshake(&mut self, request: HandshakeRequest) -> Result<ControlHandshake, TransportError> {
        *self.last_request.borrow_mut() = Some(request);
        if self.fail {
            return Err(TransportError::Protocol("handshake failed".to_string()));
        }
        Ok(ControlHandshake { messages: Vec::new(), session: None })
    }
}

struct TestControlConnectorWithMessages {
    last_request: Rc<RefCell<Option<HandshakeRequest>>>,
    messages: Vec<ControlMessage>,
}

impl ControlConnector for TestControlConnectorWithMessages {
    fn handshake(&mut self, request: HandshakeRequest) -> Result<ControlHandshake, TransportError> {
        *self.last_request.borrow_mut() = Some(request);
        Ok(ControlHandshake { messages: self.messages.clone(), session: None })
    }
}

struct TestControlConnectorWithSession {
    last_request: Rc<RefCell<Option<HandshakeRequest>>>,
    messages: Vec<ControlMessage>,
    session: TestControlSession,
}

impl ControlConnector for TestControlConnectorWithSession {
    fn handshake(&mut self, request: HandshakeRequest) -> Result<ControlHandshake, TransportError> {
        *self.last_request.borrow_mut() = Some(request);
        Ok(ControlHandshake {
            messages: self.messages.clone(),
            session: Some(Box::new(TestControlSession {
                commands: Rc::clone(&self.session.commands),
                fail: self.session.fail,
            })),
        })
    }
}

struct TestControlSession {
    commands: Rc<RefCell<Vec<UserStateCommand>>>,
    fail: bool,
}

impl TestControlSession {
    fn new(commands: Rc<RefCell<Vec<UserStateCommand>>>) -> Self {
        Self { commands, fail: false }
    }
}

impl ControlSession for TestControlSession {
    fn send_user_state(&mut self, command: UserStateCommand) -> Result<(), TransportError> {
        if self.fail {
            return Err(TransportError::Protocol("send failed".to_string()));
        }
        self.commands.borrow_mut().push(command);
        Ok(())
    }
}

/// Connect transitions through connecting and connected states.
#[test]
fn connect_transitions_state_and_emits_events() {
    let config = MumbleConfig::new("localhost".to_string(), DEFAULT_PORT, "tester".to_string());
    let mut transport = MumbleTransport::new(config);

    transport.connect().expect("connect failed");

    assert_eq!(transport.conn_state(), ConnState::Connected);
    let events = transport.take_events();
    assert_eq!(events.len(), 2);
    assert!(matches!(
        events[0],
        TransportEvent::ConnectionState(ConnState::Connecting)
    ));
    assert!(matches!(
        events[1],
        TransportEvent::ConnectionState(ConnState::Connected)
    ));
}

/// Repeated connect calls are no-ops after the first connection.
#[test]
fn connect_is_idempotent() {
    let config = MumbleConfig::new("localhost".to_string(), DEFAULT_PORT, "tester".to_string());
    let mut transport = MumbleTransport::new(config);

    transport.connect().expect("connect failed");
    transport.take_events();

    transport.connect().expect("second connect failed");
    assert!(transport.take_events().is_empty());
}

/// take_events drains the event queue after connect.
#[test]
fn take_events_drains_after_connect() {
    let config = MumbleConfig::new("server".to_string(), DEFAULT_PORT, "tester".to_string());
    let mut transport = MumbleTransport::new(config);

    transport.connect().expect("connect failed");
    assert_eq!(transport.take_events().len(), 2);
    assert!(transport.take_events().is_empty());
}

/// Connect rejects blank server values.
#[test]
fn connect_rejects_empty_server() {
    let config = MumbleConfig::new("".to_string(), DEFAULT_PORT, "tester".to_string());
    let mut transport = MumbleTransport::new(config);

    let err = transport.connect().expect_err("expected connect to fail");
    assert!(matches!(err, TransportError::InvalidConfig(_)));
}

/// Connect rejects blank username values.
#[test]
fn connect_rejects_empty_username() {
    let config = MumbleConfig::new("server".to_string(), DEFAULT_PORT, "".to_string());
    let mut transport = MumbleTransport::new(config);

    let err = transport.connect().expect_err("expected connect to fail");
    assert!(matches!(err, TransportError::InvalidConfig(_)));
}

/// Whitespace-only configuration fields are as blank as empty ones, and a
/// rejected connect leaves the state machine disconnected with no events.
#[test]
fn connect_rejects_whitespace_server() {
    let config = MumbleConfig::new("   ".to_string(), DEFAULT_PORT, "tester".to_string());
    let mut transport = MumbleTransport::new(config);

    let err = transport.connect().expect_err("expected connect to fail");
    assert!(matches!(err, TransportError::InvalidConfig(_)));
    assert_eq!(transport.conn_state(), ConnState::Disconnected);
    assert!(transport.take_events().is_empty());
}

/// Connect sends the expected handshake request to the connector.
#[test]
fn connect_sends_handshake_request() {
    let config = MumbleConfig::new(
        "voice.example".to_string(),
        DEFAULT_PORT,
        "tester".to_string(),
    );
    let capture = Rc::new(RefCell::new(None));
    let connector = TestControlConnector { last_request: Rc::clone(&capture), fail: false };
    let mut transport = MumbleTransport::with_connector(config, Box::new(connector));

    transport.connect().expect("connect failed");

    let request = capture.borrow().clone().expect("missing request");
    assert_eq!(
        request,
        HandshakeRequest {
            server: "voice.example".to_string(),
            port: DEFAULT_PORT,
            username: "tester".to_string(),
            password: None,
        }
    );
}

/// Handshake failure transitions to error state and emits error events.
#[test]
fn connect_emits_error_on_handshake_failure() {
    let config = MumbleConfig::new(
        "voice.example".to_string(),
        DEFAULT_PORT,
        "tester".to_string(),
    );
    let capture = Rc::new(RefCell::new(None));
    let connector = TestControlConnector { last_request: Rc::clone(&capture), fail: true };
    let mut transport = MumbleTransport::with_connector(config, Box::new(connector));

    let err = transport.connect().expect_err("expected connect to fail");
    assert!(matches!(err, TransportError::Protocol(_)));

    let events = transport.take_events();
    assert!(matches!(
        events.as_slice(),
        [
            TransportEvent::ConnectionState(ConnState::Connecting),
            TransportEvent::ConnectionState(ConnState::Error),
            TransportEvent::Error(_),
        ]
    ));
}

/// Server sync control messages update the stored session id.
#[test]
fn connect_applies_server_sync() {
    let config = MumbleConfig::new(
        "voice.example".to_string(),
        DEFAULT_PORT,
        "tester".to_string(),
    );
    let capture = Rc::new(RefCell::new(None));
    let messages = vec![ControlMessage::ServerSync { session: 42 }];
    let connector = TestControlConnectorWithMessages {
        last_request: Rc::clone(&capture),
        messages,
    };
    let mut transport = MumbleTransport::with_connector(config, Box::new(connector));

    transport.connect().expect("connect failed");

    assert_eq!(transport.session_id(), Some(42));
}

/// Channel state messages update cached channels and emit events.
#[test]
fn connect_applies_channel_state() {
    let config = MumbleConfig::new(
        "voice.example".to_string(),
        DEFAULT_PORT,
        "tester".to_string(),
    );
    let capture = Rc::new(RefCell::new(None));
    let messages = vec![ControlMessage::ChannelState {
        id: 1,
        name: "Lobby".to_string(),
        parent_id: None,
    }];
    let connector = TestControlConnectorWithMessages {
        last_request: Rc::clone(&capture),
        messages,
    };
    let mut transport = MumbleTransport::with_connector(config, Box::new(connector));

    transport.connect().expect("connect failed");

    let events = transport
        .take_events()
        .into_iter()
        .filter_map(|event| match event {
            TransportEvent::Channels(channels) => Some(channels),
            _ => None,
        })
        .collect::<Vec<_>>();

    assert_eq!(events.len(), 1);
    assert_eq!(events[0][0].name, "Lobby");
}

/// User state messages update cached users and emit events.
#[test]
fn connect_applies_user_state() {
    let config = MumbleConfig::new(
        "voice.example".to_string(),
        DEFAULT_PORT,
        "tester".to_string(),
    );
    let capture = Rc::new(RefCell::new(None));
    let messages = vec![ControlMessage::UserState {
        id: 42,
        name: "Alice".to_string(),
        channel_id: 1,
        muted: false,
        deafened: false,
        talking: true,
    }];
    let connector = TestControlConnectorWithMessages {
        last_request: Rc::clone(&capture),
        messages,
    };
    let mut transport = MumbleTransport::with_connector(config, Box::new(connector));

    transport.connect().expect("connect failed");

    let events = transport
        .take_events()
        .into_iter()
        .filter_map(|event| match event {
            TransportEvent::Users(users) => Some(users),
            _ => None,
        })
        .collect::<Vec<_>>();

    assert_eq!(events.len(), 1);
    assert_eq!(events[0][0].name, "Alice");
    assert!(events[0][0].talking);
}

/// Server sync plus self user state updates the current channel id.
#[test]
fn connect_sets_current_channel_for_self() {
    let config = MumbleConfig::new(
        "voice.example".to_string(),
        DEFAULT_PORT,
        "tester".to_string(),
    );
    let capture = Rc::new(RefCell::new(None));
    let messages = vec![
        ControlMessage::ServerSync { session: 7 },
        ControlMessage::UserState {
            id: 7,
            name: "Self".to_string(),
            channel_id: 2,
            muted: false,
            deafened: false,
            talking: false,
        },
    ];
    let connector = TestControlConnectorWithMessages {
        last_request: Rc::clone(&capture),
        messages,
    };
    let mut transport = MumbleTransport::with_connector(config, Box::new(connector));

    transport.connect().expect("connect failed");

    assert_eq!(transport.current_channel_id(), Some(2));
}

/// An Io failure from the connector surfaces as the returned error and as
/// an error event.
#[test]
fn connect_propagates_io_error() {
    struct IoFailConnector;

    impl ControlConnector for IoFailConnector {
        fn handshake(
            &mut self,
            _request: HandshakeRequest,
        ) -> Result<ControlHandshake, TransportError> {
            Err(TransportError::Io("stream reset".to_string()))
        }
    }

    let config = MumbleConfig::new(
        "voice.example".to_string(),
        DEFAULT_PORT,
        "tester".to_string(),
    );
    let mut transport = MumbleTransport::with_connector(config, Box::new(IoFailConnector));

    let err = transport.connect().expect_err("expected connect to fail");
    assert!(matches!(err, TransportError::Io(_)));
    assert_eq!(transport.conn_state(), ConnState::Error);
    let events = transport.take_events();
    assert!(matches!(
        events.as_slice(),
        [
            TransportEvent::ConnectionState(ConnState::Connecting),
            TransportEvent::ConnectionState(ConnState::Error),
            TransportEvent::Error(text),
        ] if text == "io error: stream reset"
    ));
}

/// Join fails when the transport is disconnected.
#[test]
fn join_channel_rejects_when_disconnected() {
    let config = MumbleConfig::new(
        "voice.example".to_string(),
        DEFAULT_PORT,
        "tester".to_string(),
    );
    let mut transport = MumbleTransport::new(config);

    let err = transport.join_channel(1).expect_err("expected join to fail");
    assert!(matches!(err, TransportError::Disconnected));
}

/// Join fails when session id is missing after connection.
#[test]
fn join_channel_rejects_missing_session() {
    let config = MumbleConfig::new(
        "voice.example".to_string(),
        DEFAULT_PORT,
        "tester".to_string(),
    );
    let mut transport = MumbleTransport::new(config);
    transport.connect().expect("connect failed");
    transport.take_events();

    let err = transport.join_channel(1).expect_err("expected join to fail");
    assert!(matches!(err, TransportError::Protocol(_)));
    assert!(transport.take_events().is_empty());
}

/// Join fails when the target channel is not in the cache.
#[test]
fn join_channel_rejects_unknown_channel() {
    let config = MumbleConfig::new(
        "voice.example".to_string(),
        DEFAULT_PORT,
        "tester".to_string(),
    );
    let capture = Rc::new(RefCell::new(None));
    let messages = vec![
        ControlMessage::ServerSync { session: 42 },
        ControlMessage::UserState {
            id: 42,
            name: "Self".to_string(),
            channel_id: 1,
            muted: false,
            deafened: false,
            talking: false,
        },
        ControlMessage::ChannelState {
            id: 1,
            name: "Lobby".to_string(),
            parent_id: None,
        },
    ];
    let connector = TestControlConnectorWithMessages {
        last_request: Rc::clone(&capture),
        messages,
    };
    let mut transport = MumbleTransport::with_connector(config, Box::new(connector));
    transport.connect().expect("connect failed");
    transport.take_events();
    transport.take_events();

    let err = transport.join_channel(99).expect_err("expected join to fail");
    assert!(matches!(err, TransportError::Protocol(_)));
    assert!(transport.take_events().is_empty());
}

/// Join fails when the self user state is missing in the cache.
#[test]
fn join_channel_rejects_missing_self_user() {
    let config = MumbleConfig::new(
        "voice.example".to_string(),
        DEFAULT_PORT,
        "tester".to_string(),
    );
    let capture = Rc::new(RefCell::new(None));
    let messages = vec![
        ControlMessage::ServerSync { session: 7 },
        ControlMessage::ChannelState {
            id: 2,
            name: "Ops".to_string(),
            parent_id: None,
        },
    ];
    let connector = TestControlConnectorWithMessages {
        last_request: Rc::clone(&capture),
        messages,
    };
    let mut transport = MumbleTransport::with_connector(config, Box::new(connector));
    transport.connect().expect("connect failed");
    transport.take_events();

    let err = transport.join_channel(2).expect_err("expected join to fail");
    assert!(matches!(err, TransportError::Protocol(_)));
    assert!(transport.take_events().is_empty());
}

/// Join updates the cached self user channel and emits a user snapshot.
#[test]
fn join_channel_updates_self_channel() {
    let config = MumbleConfig::new(
        "voice.example".to_string(),
        DEFAULT_PORT,
        "tester".to_string(),
    );
    let capture = Rc::new(RefCell::new(None));
    let commands = Rc::new(RefCell::new(Vec::new()));
    let messages = vec![
        ControlMessage::ServerSync { session: 7 },
        ControlMessage::UserState {
            id: 7,
            name: "Self".to_string(),
            channel_id: 1,
            muted: false,
            deafened: false,
            talking: false,
        },
        ControlMessage::ChannelState {
            id: 1,
            name: "Lobby".to_string(),
            parent_id: None,
        },
        ControlMessage::ChannelState {
            id: 2,
            name: "Ops".to_string(),
            parent_id: None,
        },
    ];
    let connector = TestControlConnectorWithSession {
        last_request: Rc::clone(&capture),
        messages,
        session: TestControlSession::new(Rc::clone(&commands)),
    };
    let mut transport = MumbleTransport::with_connector(config, Box::new(connector));
    transport.connect().expect("connect failed");

    transport.join_channel(2).expect("join failed");

    assert_eq!(transport.current_channel_id(), Some(2));
    let users_events = transport
        .take_events()
        .into_iter()
        .filter_map(|event| match event {
            TransportEvent::Users(users) => Some(users),
            _ => None,
        })
        .collect::<Vec<_>>();
    assert_eq!(users_events.len(), 2);
    assert_eq!(users_events[0][0].channel_id, 1);
    assert_eq!(users_events[1][0].channel_id, 2);
}

/// Join fails when the control session is not available.
#[test]
fn join_channel_rejects_missing_control_session() {
    let config = MumbleConfig::new(
        "voice.example".to_string(),
        DEFAULT_PORT,
        "tester".to_string(),
    );
    let capture = Rc::new(RefCell::new(None));
    let messages = vec![
        ControlMessage::ServerSync { session: 7 },
        ControlMessage::UserState {
            id: 7,
            name: "Self".to_string(),
            channel_id: 1,
            muted: false,
            deafened: false,
            talking: false,
        },
        ControlMessage::ChannelState {
            id: 2,
            name: "Ops".to_string(),
            parent_id: None,
        },
    ];
    let connector = TestControlConnectorWithMessages {
        last_request: Rc::clone(&capture),
        messages,
    };
    let mut transport = MumbleTransport::with_connector(config, Box::new(connector));
    transport.connect().expect("connect failed");
    transport.take_events();

    let err = transport.join_channel(2).expect_err("expected join to fail");
    assert!(matches!(err, TransportError::Protocol(_)));
    assert!(transport.take_events().is_empty());
}

/// Join sends the expected user state command to the control session.
#[test]
fn join_channel_sends_user_state_command() {
    let config = MumbleConfig::new(
        "voice.example".to_string(),
        DEFAULT_PORT,
        "tester".to_string(),
    );
    let capture = Rc::new(RefCell::new(None));
    let commands = Rc::new(RefCell::new(Vec::new()));
    let messages = vec![
        ControlMessage::ServerSync { session: 7 },
        ControlMessage::UserState {
            id: 7,
            name: "Self".to_string(),
            channel_id: 1,
            muted: false,
            deafened: false,
            talking: false,
        },
        ControlMessage::ChannelState {
            id: 1,
            name: "Lobby".to_string(),
            parent_id: None,
        },
        ControlMessage::ChannelState {
            id: 2,
            name: "Ops".to_string(),
            parent_id: None,
        },
    ];
    let connector = TestControlConnectorWithSession {
        last_request: Rc::clone(&capture),
        messages,
        session: TestControlSession::new(Rc::clone(&commands)),
    };
    let mut transport = MumbleTransport::with_connector(config, Box::new(connector));
    transport.connect().expect("connect failed");
    transport.take_events();

    transport.join_channel(2).expect("join failed");

    let commands = commands.borrow();
    assert_eq!(commands.len(), 1);
    assert_eq!(
        commands[0],
        UserStateCommand {
            session_id: 7,
            channel_id: 2,
            muted: None,
            deafened: None,
        }
    );
}

/// A failing send leaves the cache, current channel and event log
/// untouched.
#[test]
fn join_channel_send_failure_leaves_state() {
    let config = MumbleConfig::new(
        "voice.example".to_string(),
        DEFAULT_PORT,
        "tester".to_string(),
    );
    let capture = Rc::new(RefCell::new(None));
    let commands = Rc::new(RefCell::new(Vec::new()));
    let messages = vec![
        ControlMessage::ServerSync { session: 7 },
        ControlMessage::UserState {
            id: 7,
            name: "Self".to_string(),
            channel_id: 1,
            muted: false,
            deafened: false,
            talking: false,
        },
        ControlMessage::ChannelState {
            id: 2,
            name: "Ops".to_string(),
            parent_id: None,
        },
    ];
    let connector = TestControlConnectorWithSession {
        last_request: Rc::clone(&capture),
        messages,
        session: TestControlSession { commands: Rc::clone(&commands), fail: true },
    };
    let mut transport = MumbleTransport::with_connector(config, Box::new(connector));
    transport.connect().expect("connect failed");
    transport.take_events();

    let err = transport.join_channel(2).expect_err("expected join to fail");
    assert!(matches!(err, TransportError::Protocol(_)));
    assert_eq!(transport.current_channel_id(), Some(1));
    assert!(transport.take_events().is_empty());
}

/// Blankness is emptiness after trimming: whitespace-only strings are
/// blank, strings with any other character are not.
#[test]
fn is_blank_matches_trimmed_emptiness() {
    assert!(is_blank(""));
    assert!(is_blank("   "));
    assert!(is_blank("\t\n"));
    assert!(!is_blank(" x "));
    assert!(!is_blank("server"));
}
