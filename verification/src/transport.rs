//! The transport: a connection state machine that owns the state cache,
//! the event log, and the live control session.

use vstd::prelude::*;
use crate::config::MumbleConfig;
use crate::control::{
    ControlConnector, ControlMessage, ControlMessageView, ControlSession, HandshakeRequest,
    NoopControlConnector, UserStateCommand,
};
use crate::errors::{error_text, TransportError};
use crate::events::{EventView, TransportEvent};
use crate::state::{
    has_channel_id, has_user_id, spec_apply_channel, spec_apply_user, ChannelStateUpdate,
    ChannelUpdateView, StateCache, UserStateUpdate, UserUpdateView,
};
use crate::types::{ChannelView, ConnState, UserView};

verus! {

/// What `str::trim` leaves of a string: the characters with leading and
/// trailing whitespace removed, a function of the characters alone.
pub uninterp spec fn trimmed_of(s: Seq<char>) -> Seq<char>;

/// Relies on str::trim: returns the slice with leading and trailing
/// whitespace removed; trimming an empty string yields an empty string.
#[verifier::external_body]
fn trim(s: &str) -> (r: &str)
    ensures
        r@ == trimmed_of(s@),
        s@.len() == 0 ==> r@.len() == 0,
{
    s.trim()
}

/// Decides whether a configuration field is blank: empty or whitespace
/// only. This is the executable form of the blankness tests in
/// [`MumbleTransport::connect`]'s contract.
pub fn is_blank(s: &str) -> (r: bool)
    ensures
        r == (trimmed_of(s@).len() == 0),
        s@.len() == 0 ==> r,
{
    trim(s).is_empty()
}

/// The server field is blank: empty or whitespace only.
pub open spec fn server_blank(c: MumbleConfig) -> bool {
    trimmed_of(c.server@).len() == 0
}

/// The username field is blank: empty or whitespace only.
pub open spec fn username_blank(c: MumbleConfig) -> bool {
    trimmed_of(c.username@).len() == 0
}

/// The parts of a transport that folding one control message reads and
/// writes: the cache contents, the session identity, and the event log.
#[verifier::ext_equal]
pub ghost struct SessionFold {
    pub channels: Seq<ChannelView>,
    pub users: Seq<UserView>,
    pub session_id: Option<u32>,
    pub current_channel_id: Option<u32>,
    pub events: Seq<EventView>,
}

/// Folding one control message: a server sync records the own session
/// identifier; a channel state merges into the cache and appends a full
/// channels snapshot event; a user state merges into the cache, appends a
/// full users snapshot event, and, when the id equals the already-recorded
/// own session id, moves the tracked current channel.
pub open spec fn fold_message(f: SessionFold, m: ControlMessageView) -> SessionFold {
    match m {
        ControlMessageView::ServerSync { session } => SessionFold {
            session_id: Some(session),
            ..f
        },
        ControlMessageView::ChannelState { id, name, parent_id } => {
            let channels = spec_apply_channel(
                f.channels,
                ChannelUpdateView { id, name: Some(name), parent_id },
            );
            SessionFold { channels, events: f.events.push(EventView::Channels(channels)), ..f }
        },
        ControlMessageView::UserState { id, name, channel_id, muted, deafened, talking } => {
            let users = spec_apply_user(
                f.users,
                UserUpdateView {
                    id,
                    name: Some(name),
                    channel_id: Some(channel_id),
                    muted: Some(muted),
                    deafened: Some(deafened),
                    talking: Some(talking),
                },
            );
            let current_channel_id = if f.session_id == Some(id) {
                Some(channel_id)
            } else {
                f.current_channel_id
            };
            SessionFold {
                users,
                current_channel_id,
                events: f.events.push(EventView::Users(users)),
                ..f
            }
        },
    }
}

/// Folding a burst of control messages in receipt order.
pub open spec fn fold_messages(f: SessionFold, ms: Seq<ControlMessageView>) -> SessionFold
    decreases ms.len(),
{
    if ms.len() == 0 {
        f
    } else {
        fold_messages(fold_message(f, ms[0]), ms.skip(1))
    }
}

/// Folding distributes over appending one message at the end.
proof fn lemma_fold_push(f: SessionFold, ms: Seq<ControlMessageView>, m: ControlMessageView)
    ensures
        fold_messages(f, ms.push(m)) == fold_message(fold_messages(f, ms), m),
    decreases ms.len(),
{
    if ms.len() == 0 {
        assert(ms.push(m)[0] == m);
        assert(ms.push(m).skip(1) =~= Seq::<ControlMessageView>::empty());
        assert(fold_messages(f, ms.push(m)) == fold_messages(
            fold_message(f, m),
            Seq::<ControlMessageView>::empty(),
        ));
    } else {
        assert(ms.push(m)[0] == ms[0]);
        assert(ms.push(m).skip(1) =~= ms.skip(1).push(m));
        assert(fold_messages(f, ms.push(m)) == fold_messages(
            fold_message(f, ms[0]),
            ms.skip(1).push(m),
        ));
        lemma_fold_push(fold_message(f, ms[0]), ms.skip(1), m);
        assert(fold_messages(f, ms) == fold_messages(fold_message(f, ms[0]), ms.skip(1)));
    }
}

/// The transport's observable state is the same before and after an
/// operation: connection state, cache contents, session identity, event
/// log, session capability presence, and configuration.
pub open spec fn transport_unchanged(pre: MumbleTransport, post: MumbleTransport) -> bool {
    &&& post.conn_state_spec() == pre.conn_state_spec()
    &&& post.channels_view() == pre.channels_view()
    &&& post.users_view() == pre.users_view()
    &&& post.session_id_spec() == pre.session_id_spec()
    &&& post.current_channel_id_spec() == pre.current_channel_id_spec()
    &&& post.events_view() == pre.events_view()
    &&& post.has_session() == pre.has_session()
    &&& post.config_spec() == pre.config_spec()
}

/// A successful connect folded the burst `msgs` that the connector
/// returned: starting from the prior state plus the `Connecting` event,
/// the cache, session identity and event log are the fold's outcome,
/// followed by the final `Connected` event.
pub open spec fn connect_folds(
    pre: MumbleTransport,
    post: MumbleTransport,
    msgs: Seq<ControlMessageView>,
) -> bool {
    let f = fold_messages(
        SessionFold {
            channels: pre.channels_view(),
            users: pre.users_view(),
            session_id: pre.session_id_spec(),
            current_channel_id: pre.current_channel_id_spec(),
            events: pre.events_view().push(EventView::ConnectionState(ConnState::Connecting)),
        },
        msgs,
    );
    &&& post.channels_view() == f.channels
    &&& post.users_view() == f.users
    &&& post.session_id_spec() == f.session_id
    &&& post.current_channel_id_spec() == f.current_channel_id
    &&& post.events_view() == f.events.push(EventView::ConnectionState(ConnState::Connected))
}

/// Client-side session manager: drives the connection state machine,
/// folds inbound control messages into the state cache, appends events
/// for the consumer, and issues outbound commands.
pub struct MumbleTransport {
    config: MumbleConfig,
    conn_state: ConnState,
    events: Vec<TransportEvent>,
    control: Box<dyn ControlConnector>,
    state: StateCache,
    session_id: Option<u32>,
    current_channel_id: Option<u32>,
    control_session: Option<Box<dyn ControlSession>>,
}

impl MumbleTransport {
    /// The connection state the transport is in.
    pub closed spec fn conn_state_spec(self) -> ConnState {
        self.conn_state
    }

    /// The cached channel records, sorted ascending by id.
    pub closed spec fn channels_view(self) -> Seq<ChannelView> {
        self.state.channels_view()
    }

    /// The cached user records, sorted ascending by id.
    pub closed spec fn users_view(self) -> Seq<UserView> {
        self.state.users_view()
    }

    /// The own session identifier, known once a server sync arrived.
    pub closed spec fn session_id_spec(self) -> Option<u32> {
        self.session_id
    }

    /// The tracked current channel, known once the own user state is.
    pub closed spec fn current_channel_id_spec(self) -> Option<u32> {
        self.current_channel_id
    }

    /// The events appended since the last drain, oldest first.
    pub closed spec fn events_view(self) -> Seq<EventView> {
        self.events.deep_view()
    }

    /// Whether a live control session is held.
    pub closed spec fn has_session(self) -> bool {
        self.control_session is Some
    }

    /// The configuration the transport was built with.
    pub closed spec fn config_spec(self) -> MumbleConfig {
        self.config
    }

    /// The fold-relevant part of the transport's state.
    pub open spec fn fold_state(self) -> SessionFold {
        SessionFold {
            channels: self.channels_view(),
            users: self.users_view(),
            session_id: self.session_id_spec(),
            current_channel_id: self.current_channel_id_spec(),
            events: self.events_view(),
        }
    }

    /// A transport over the placeholder connector: connects cleanly but
    /// receives no messages and no session.
    pub fn new(config: MumbleConfig) -> (r: Self)
        ensures
            r.conn_state_spec() == ConnState::Disconnected,
            r.channels_view() == Seq::<ChannelView>::empty(),
            r.users_view() == Seq::<UserView>::empty(),
            r.session_id_spec() is None,
            r.current_channel_id_spec() is None,
            r.events_view() == Seq::<EventView>::empty(),
            !r.has_session(),
            r.config_spec() == config,
    {
        Self::with_connector(config, Box::new(NoopControlConnector))
    }

    /// A transport over the given connector, initially disconnected with
    /// an empty cache and an empty event log.
    pub fn with_connector(config: MumbleConfig, control: Box<dyn ControlConnector>) -> (r: Self)
        ensures
            r.conn_state_spec() == ConnState::Disconnected,
            r.channels_view() == Seq::<ChannelView>::empty(),
            r.users_view() == Seq::<UserView>::empty(),
            r.session_id_spec() is None,
            r.current_channel_id_spec() is None,
            r.events_view() == Seq::<EventView>::empty(),
            !r.has_session(),
            r.config_spec() == config,
    {
        let r = MumbleTransport {
            config,
            conn_state: ConnState::Disconnected,
            events: Vec::new(),
            control,
            state: StateCache::new(),
            session_id: None,
            current_channel_id: None,
            control_session: None,
        };
        proof {
            assert(r.events_view() =~= Seq::<EventView>::empty());
        }
        r
    }

    /// The connection state the transport is in.
    pub fn conn_state(&self) -> (r: ConnState)
        ensures
            r == self.conn_state_spec(),
    {
        self.conn_state
    }

    /// Atomically returns and clears all events accumulated since the
    /// last drain, oldest first; a drained event is never re-delivered.
    pub fn take_events(&mut self) -> (r: Vec<TransportEvent>)
        ensures
            r.deep_view() == old(self).events_view(),
            final(self).events_view() == Seq::<EventView>::empty(),
            final(self).conn_state_spec() == old(self).conn_state_spec(),
            final(self).channels_view() == old(self).channels_view(),
            final(self).users_view() == old(self).users_view(),
            final(self).session_id_spec() == old(self).session_id_spec(),
            final(self).current_channel_id_spec() == old(self).current_channel_id_spec(),
            final(self).has_session() == old(self).has_session(),
            final(self).config_spec() == old(self).config_spec(),
    {
        let mut out: Vec<TransportEvent> = Vec::new();
        core::mem::swap(&mut out, &mut self.events);
        proof {
            assert(self.events_view() =~= Seq::<EventView>::empty());
        }
        out
    }

    /// The own session identifier, `None` until a server sync arrived.
    pub fn session_id(&self) -> (r: Option<u32>)
        ensures
            r == self.session_id_spec(),
    {
        self.session_id
    }

    /// The tracked current channel, `None` until the own user state is
    /// known.
    pub fn current_channel_id(&self) -> (r: Option<u32>)
        ensures
            r == self.current_channel_id_spec(),
    {
        self.current_channel_id
    }

    /// Connects: validates the configuration, performs the handshake,
    /// folds the returned burst into the cache in receipt order, and ends
    /// `Connected` — or ends `Error` when the handshake fails. Calling
    /// again while not `Disconnected` is a no-op that succeeds. On
    /// success the session slot holds whatever session the connector
    /// returned; the connector is behind an uncontracted capability
    /// trait, so no clause can pin which.
    pub fn connect(&mut self) -> (r: Result<(), TransportError>)
        ensures
            old(self).conn_state_spec() != ConnState::Disconnected ==> r is Ok
                && transport_unchanged(*old(self), *final(self)),
            old(self).conn_state_spec() == ConnState::Disconnected && server_blank(
                old(self).config_spec(),
            ) ==> (r matches Err(TransportError::InvalidConfig(d)) && d@ == "server is required"@)
                && transport_unchanged(*old(self), *final(self)),
            old(self).conn_state_spec() == ConnState::Disconnected && !server_blank(
                old(self).config_spec(),
            ) && username_blank(old(self).config_spec()) ==> (r matches Err(
                TransportError::InvalidConfig(d),
            ) && d@ == "username is required"@) && transport_unchanged(*old(self), *final(self)),
            old(self).conn_state_spec() == ConnState::Disconnected && !server_blank(
                old(self).config_spec(),
            ) && !username_blank(old(self).config_spec()) ==> match r {
                Ok(_) => final(self).conn_state_spec() == ConnState::Connected && exists|
                    msgs: Seq<ControlMessageView>,
                |
                    connect_folds(*old(self), *final(self), msgs),
                Err(e) => {
                    &&& final(self).conn_state_spec() == ConnState::Error
                    &&& final(self).events_view() == old(self).events_view() + seq![
                        EventView::ConnectionState(ConnState::Connecting),
                        EventView::ConnectionState(ConnState::Error),
                        EventView::Error(error_text(e)),
                    ]
                    &&& final(self).channels_view() == old(self).channels_view()
                    &&& final(self).users_view() == old(self).users_view()
                    &&& final(self).session_id_spec() == old(self).session_id_spec()
                    &&& final(self).current_channel_id_spec() == old(
                        self,
                    ).current_channel_id_spec()
                    &&& final(self).has_session() == old(self).has_session()
                },
            },
            final(self).config_spec() == old(self).config_spec(),
    {
        if self.conn_state != ConnState::Disconnected {
            return Ok(());
        }
        if is_blank(self.config.server.as_str()) {
            return Err(TransportError::InvalidConfig("server is required".to_owned()));
        }
        if is_blank(self.config.username.as_str()) {
            return Err(TransportError::InvalidConfig("username is required".to_owned()));
        }
        self.set_conn_state(ConnState::Connecting);
        let request = HandshakeRequest {
            server: self.config.server.clone(),
            port: self.config.port,
            username: self.config.username.clone(),
            password: match &self.config.password {
                Some(p) => Some(p.clone()),
                None => None,
            },
        };
        let outcome = self.control.handshake(request);
        match outcome {
            Ok(handshake) => {
                self.control_session = handshake.session;
                let messages = handshake.messages;
                let ghost msgs_v = messages.deep_view();
                let ghost base = self.fold_state();
                let mut i: usize = 0;
                proof {
                    assert(msgs_v.take(0) =~= Seq::<ControlMessageView>::empty());
                }
                while i < messages.len()
                    invariant
                        i <= messages@.len(),
                        msgs_v == messages.deep_view(),
                        self.conn_state_spec() == ConnState::Connecting,
                        self.config_spec() == old(self).config_spec(),
                        self.fold_state() == fold_messages(base, msgs_v.take(i as int)),
                    decreases messages@.len() - i,
                {
                    let message = messages[i].clone();
                    proof {
                        assert(message@ == msgs_v[i as int]);
                        assert(msgs_v.take(i + 1) =~= msgs_v.take(i as int).push(
                            msgs_v[i as int],
                        ));
                        lemma_fold_push(base, msgs_v.take(i as int), msgs_v[i as int]);
                    }
                    self.apply_control_message(message);
                    i += 1;
                }
                proof {
                    assert(msgs_v.take(messages@.len() as int) =~= msgs_v);
                }
                self.set_conn_state(ConnState::Connected);
                proof {
                    assert(connect_folds(*old(self), *self, msgs_v));
                }
                Ok(())
            },
            Err(error) => {
                self.set_conn_state(ConnState::Error);
                let ghost pre_error_events = self.events_view();
                let text = error.message();
                let ghost text_v = text@;
                self.events.push(TransportEvent::Error(text));
                proof {
                    assert(text_v == error_text(error));
                    assert(self.events_view() =~= pre_error_events.push(EventView::Error(text_v)));
                    assert(self.events_view() =~= old(self).events_view() + seq![
                        EventView::ConnectionState(ConnState::Connecting),
                        EventView::ConnectionState(ConnState::Error),
                        EventView::Error(error_text(error)),
                    ]);
                }
                Err(error)
            },
        }
    }

    /// Joins a channel: validates the cached invariants, sends exactly one
    /// update-self command, and only on a successful send applies the move
    /// locally and appends a users snapshot event. Every validation
    /// failure leaves the transport unchanged and emits no events.
    pub fn join_channel(&mut self, channel_id: u32) -> (r: Result<(), TransportError>)
        ensures
            old(self).conn_state_spec() != ConnState::Connected ==> (
            r matches Err(TransportError::Disconnected)) && transport_unchanged(
                *old(self),
                *final(self),
            ),
            old(self).conn_state_spec() == ConnState::Connected && old(self).session_id_spec()
                is None ==> (r matches Err(TransportError::Protocol(d)) && d@
                == "missing session id"@) && transport_unchanged(*old(self), *final(self)),
            old(self).conn_state_spec() == ConnState::Connected && old(self).session_id_spec()
                is Some && !has_channel_id(old(self).channels_view(), channel_id) ==> (
            r matches Err(TransportError::Protocol(d)) && d@ == "unknown channel"@)
                && transport_unchanged(*old(self), *final(self)),
            old(self).conn_state_spec() == ConnState::Connected && old(self).session_id_spec()
                is Some && has_channel_id(old(self).channels_view(), channel_id) && !has_user_id(
                old(self).users_view(),
                old(self).session_id_spec()->0,
            ) ==> (r matches Err(TransportError::Protocol(d)) && d@ == "missing self user state"@)
                && transport_unchanged(*old(self), *final(self)),
            old(self).conn_state_spec() == ConnState::Connected && old(self).session_id_spec()
                is Some && has_channel_id(old(self).channels_view(), channel_id) && has_user_id(
                old(self).users_view(),
                old(self).session_id_spec()->0,
            ) && !old(self).has_session() ==> (r matches Err(TransportError::Protocol(d)) && d@
                == "control session unavailable"@) && transport_unchanged(*old(self), *final(self)),
            old(self).conn_state_spec() == ConnState::Connected && old(self).session_id_spec()
                is Some && has_channel_id(old(self).channels_view(), channel_id) && has_user_id(
                old(self).users_view(),
                old(self).session_id_spec()->0,
            ) && old(self).has_session() ==> match r {
                Ok(_) => {
                    &&& final(self).users_view() == spec_apply_user(
                        old(self).users_view(),
                        UserUpdateView {
                            id: old(self).session_id_spec()->0,
                            name: None,
                            channel_id: Some(channel_id),
                            muted: None,
                            deafened: None,
                            talking: None,
                        },
                    )
                    &&& final(self).current_channel_id_spec() == Some(channel_id)
                    &&& final(self).events_view() == old(self).events_view().push(
                        EventView::Users(final(self).users_view()),
                    )
                    &&& final(self).channels_view() == old(self).channels_view()
                    &&& final(self).session_id_spec() == old(self).session_id_spec()
                    &&& final(self).conn_state_spec() == old(self).conn_state_spec()
                    &&& final(self).has_session()
                },
                Err(_) => transport_unchanged(*old(self), *final(self)),
            },
            final(self).config_spec() == old(self).config_spec(),
    {
        if self.conn_state != ConnState::Connected {
            return Err(TransportError::Disconnected);
        }
        let session_id = match self.session_id {
            Some(session_id) => session_id,
            None => {
                return Err(TransportError::Protocol("missing session id".to_owned()));
            },
        };
        if self.state.channel(channel_id).is_none() {
            return Err(TransportError::Protocol("unknown channel".to_owned()));
        }
        if self.state.user(session_id).is_none() {
            return Err(TransportError::Protocol("missing self user state".to_owned()));
        }
        let sent = match &mut self.control_session {
            Some(session) => session.send_user_state(
                UserStateCommand { session_id, channel_id, muted: None, deafened: None },
            ),
            None => {
                return Err(TransportError::Protocol("control session unavailable".to_owned()));
            },
        };
        match sent {
            Ok(_) => {},
            Err(e) => {
                return Err(e);
            },
        }
        self.state.apply_user_state(
            UserStateUpdate {
                id: session_id,
                name: None,
                channel_id: Some(channel_id),
                muted: None,
                deafened: None,
                talking: None,
            },
        );
        self.current_channel_id = Some(channel_id);
        let users = self.state.users();
        self.events.push(TransportEvent::Users(users));
        Ok(())
    }

    /// Moves to `next` and appends the matching state-change event.
    fn set_conn_state(&mut self, next: ConnState)
        ensures
            final(self).conn_state_spec() == next,
            final(self).events_view() == old(self).events_view().push(
                EventView::ConnectionState(next),
            ),
            final(self).channels_view() == old(self).channels_view(),
            final(self).users_view() == old(self).users_view(),
            final(self).session_id_spec() == old(self).session_id_spec(),
            final(self).current_channel_id_spec() == old(self).current_channel_id_spec(),
            final(self).has_session() == old(self).has_session(),
            final(self).config_spec() == old(self).config_spec(),
    {
        self.conn_state = next;
        self.events.push(TransportEvent::ConnectionState(next));
    }

    /// Folds one control message into the transport exactly as
    /// `fold_message` describes; connection state, configuration and the
    /// session slot are untouched.
    fn apply_control_message(&mut self, message: ControlMessage)
        ensures
            final(self).fold_state() == fold_message(old(self).fold_state(), message@),
            final(self).conn_state_spec() == old(self).conn_state_spec(),
            final(self).has_session() == old(self).has_session(),
            final(self).config_spec() == old(self).config_spec(),
    {
        match message {
            ControlMessage::ServerSync { session } => {
                self.session_id = Some(session);
                proof {
                    assert(self.fold_state() =~= fold_message(
                        old(self).fold_state(),
                        ControlMessageView::ServerSync { session },
                    ));
                }
            },
            ControlMessage::ChannelState { id, name, parent_id } => {
                let ghost name_v = name@;
                self.state.apply_channel_state(
                    ChannelStateUpdate { id, name: Some(name), parent_id },
                );
                let channels = self.state.channels();
                self.events.push(TransportEvent::Channels(channels));
                proof {
                    assert(self.events_view() =~= old(self).events_view().push(
                        EventView::Channels(self.channels_view()),
                    ));
                    assert(self.fold_state() =~= fold_message(
                        old(self).fold_state(),
                        ControlMessageView::ChannelState { id, name: name_v, parent_id },
                    ));
                }
            },
            ControlMessage::UserState { id, name, channel_id, muted, deafened, talking } => {
                let is_own = match self.session_id {
                    Some(session_id) => session_id == id,
                    None => false,
                };
                if is_own {
                    self.current_channel_id = Some(channel_id);
                }
                let ghost name_v = name@;
                self.state.apply_user_state(
                    UserStateUpdate {
                        id,
                        name: Some(name),
                        channel_id: Some(channel_id),
                        muted: Some(muted),
                        deafened: Some(deafened),
                        talking: Some(talking),
                    },
                );
                let users = self.state.users();
                self.events.push(TransportEvent::Users(users));
                proof {
                    assert(self.events_view() =~= old(self).events_view().push(
                        EventView::Users(self.users_view()),
                    ));
                    assert(self.fold_state() =~= fold_message(
                        old(self).fold_state(),
                        ControlMessageView::UserState {
                            id,
                            name: name_v,
                            channel_id,
                            muted,
                            deafened,
                            talking,
                        },
                    ));
                }
            },
        }
    }
}

} // verus!
