//! Control-protocol abstractions: typed packets, the packet mapper, and
//! the connector and session capabilities a transport is built on.
//!
//! The byte-level wire encoding is out of scope here: implementations of
//! [`ControlTransport`] exchange already-decoded typed packets, and the
//! mapper below turns them into fully-validated domain messages.

use vstd::prelude::*;
use crate::errors::TransportError;

verus! {

/// A fully-validated domain-level inbound control message. Produced only
/// by [`map_control_packet`]; no partially-filled value exists.
#[derive(Debug, PartialEq, Eq)]
pub enum ControlMessage {
    ServerSync { session: u32 },
    ChannelState { id: u32, name: String, parent_id: Option<u32> },
    UserState { id: u32, name: String, channel_id: u32, muted: bool, deafened: bool, talking: bool },
}

/// Mathematical model of a [`ControlMessage`].
pub ghost enum ControlMessageView {
    ServerSync { session: u32 },
    ChannelState { id: u32, name: Seq<char>, parent_id: Option<u32> },
    UserState {
        id: u32,
        name: Seq<char>,
        channel_id: u32,
        muted: bool,
        deafened: bool,
        talking: bool,
    },
}

impl View for ControlMessage {
    type V = ControlMessageView;

    open spec fn view(&self) -> ControlMessageView {
        match self {
            ControlMessage::ServerSync { session } => ControlMessageView::ServerSync {
                session: *session,
            },
            ControlMessage::ChannelState { id, name, parent_id } => ControlMessageView::ChannelState {
                id: *id,
                name: name@,
                parent_id: *parent_id,
            },
            ControlMessage::UserState { id, name, channel_id, muted, deafened, talking } => ControlMessageView::UserState {
                id: *id,
                name: name@,
                channel_id: *channel_id,
                muted: *muted,
                deafened: *deafened,
                talking: *talking,
            },
        }
    }
}

impl DeepView for ControlMessage {
    type V = ControlMessageView;

    open spec fn deep_view(&self) -> ControlMessageView {
        self@
    }
}

impl Clone for ControlMessage {
    fn clone(&self) -> (res: Self)
        ensures
            res@ == self@,
    {
        match self {
            ControlMessage::ServerSync { session } => ControlMessage::ServerSync {
                session: *session,
            },
            ControlMessage::ChannelState { id, name, parent_id } => ControlMessage::ChannelState {
                id: *id,
                name: name.clone(),
                parent_id: *parent_id,
            },
            ControlMessage::UserState {
                id,
                name,
                channel_id,
                muted,
                deafened,
                talking,
            } => ControlMessage::UserState {
                id: *id,
                name: name.clone(),
                channel_id: *channel_id,
                muted: *muted,
                deafened: *deafened,
                talking: *talking,
            },
        }
    }
}

/// The one outbound command a live session can send: an update of the own
/// user's channel and flags.
#[derive(Clone, Copy, Debug, PartialEq, Eq, Structural)]
pub struct UserStateCommand {
    pub session_id: u32,
    pub channel_id: u32,
    pub muted: Option<bool>,
    pub deafened: Option<bool>,
}

/// A typed inbound packet as decoded from the wire, fields optional
/// exactly as the wire leaves them. The library models here what its
/// logic reads of a decoded packet; kinds it never reads are `Other`.
#[derive(Clone, Debug, PartialEq, Eq)]
pub enum RawControlPacket {
    ServerSync { session: Option<u32> },
    ChannelState { channel_id: Option<u32>, name: Option<String>, parent: Option<u32> },
    UserState {
        session: Option<u32>,
        name: Option<String>,
        channel_id: Option<u32>,
        self_mute: Option<bool>,
        self_deaf: Option<bool>,
    },
    Other,
}

/// Mathematical model of a [`RawControlPacket`].
pub ghost enum RawControlPacketView {
    ServerSync { session: Option<u32> },
    ChannelState { channel_id: Option<u32>, name: Option<Seq<char>>, parent: Option<u32> },
    UserState {
        session: Option<u32>,
        name: Option<Seq<char>>,
        channel_id: Option<u32>,
        self_mute: Option<bool>,
        self_deaf: Option<bool>,
    },
    Other,
}

impl View for RawControlPacket {
    type V = RawControlPacketView;

    open spec fn view(&self) -> RawControlPacketView {
        match self {
            RawControlPacket::ServerSync { session } => RawControlPacketView::ServerSync {
                session: *session,
            },
            RawControlPacket::ChannelState { channel_id, name, parent } => RawControlPacketView::ChannelState {
                channel_id: *channel_id,
                name: match name {
                    Some(n) => Some(n@),
                    None => None,
                },
                parent: *parent,
            },
            RawControlPacket::UserState {
                session,
                name,
                channel_id,
                self_mute,
                self_deaf,
            } => RawControlPacketView::UserState {
                session: *session,
                name: match name {
                    Some(n) => Some(n@),
                    None => None,
                },
                channel_id: *channel_id,
                self_mute: *self_mute,
                self_deaf: *self_deaf,
            },
            RawControlPacket::Other => RawControlPacketView::Other,
        }
    }
}

/// What the packet mapper yields for a packet: a complete domain message,
/// or nothing when a required field is missing or the kind is not mapped.
pub open spec fn spec_map_packet(p: RawControlPacketView) -> Option<ControlMessageView> {
    match p {
        RawControlPacketView::ServerSync { session } => match session {
            Some(session) => Some(ControlMessageView::ServerSync { session }),
            None => None,
        },
        RawControlPacketView::ChannelState { channel_id, name, parent } => match (
            channel_id,
            name,
        ) {
            (Some(id), Some(name)) => Some(
                ControlMessageView::ChannelState { id, name, parent_id: parent },
            ),
            _ => None,
        },
        RawControlPacketView::UserState { session, name, channel_id, self_mute, self_deaf } => match (
            session,
            name,
            channel_id,
        ) {
            (Some(id), Some(name), Some(channel_id)) => Some(
                ControlMessageView::UserState {
                    id,
                    name,
                    channel_id,
                    muted: match self_mute {
                        Some(m) => m,
                        None => false,
                    },
                    deafened: match self_deaf {
                        Some(d) => d,
                        None => false,
                    },
                    talking: false,
                },
            ),
            _ => None,
        },
        RawControlPacketView::Other => None,
    }
}

/// Pure, total packet mapper: yields a domain message exactly when the
/// packet kind is mapped and every required field is present; any other
/// packet is dropped silently, never an error. `talking` is always
/// initialized false; it is only ever set by a later live-state signal.
pub fn map_control_packet(packet: RawControlPacket) -> (r: Option<ControlMessage>)
    ensures
        r.deep_view() == spec_map_packet(packet@),
{
    match packet {
        RawControlPacket::ServerSync { session } => match session {
            Some(session) => Some(ControlMessage::ServerSync { session }),
            None => None,
        },
        RawControlPacket::ChannelState { channel_id, name, parent } => match (channel_id, name) {
            (Some(id), Some(name)) => Some(
                ControlMessage::ChannelState { id, name, parent_id: parent },
            ),
            _ => None,
        },
        RawControlPacket::UserState { session, name, channel_id, self_mute, self_deaf } => match (
            session,
            name,
            channel_id,
        ) {
            (Some(id), Some(name), Some(channel_id)) => Some(
                ControlMessage::UserState {
                    id,
                    name,
                    channel_id,
                    muted: match self_mute {
                        Some(muted) => muted,
                        None => false,
                    },
                    deafened: match self_deaf {
                        Some(deafened) => deafened,
                        None => false,
                    },
                    talking: false,
                },
            ),
            _ => None,
        },
        RawControlPacket::Other => None,
    }
}

/// A message the packet mapper can yield: some packet maps to it.
pub open spec fn is_mapped_message(m: ControlMessageView) -> bool {
    exists|p: RawControlPacketView| spec_map_packet(p) == Some(m)
}

/// The one outbound packet kind each core operation writes; an
/// implementation of [`ControlTransport`] encodes it onto the wire.
#[derive(Clone, Debug, PartialEq, Eq)]
pub enum OutboundPacket {
    Authenticate { username: String, password: Option<String> },
    UserState { session_id: u32, channel_id: u32, muted: Option<bool>, deafened: Option<bool> },
}

/// Builds the authenticate command a handshake opens with: exactly the
/// given credentials, nothing else.
pub fn authenticate_packet(username: String, password: Option<String>) -> (r: OutboundPacket)
    ensures
        r == (OutboundPacket::Authenticate { username, password }),
{
    OutboundPacket::Authenticate { username, password }
}

/// The outbound packet that carries an update-self command: exactly the
/// command's four fields.
pub open spec fn user_state_packet_of(command: UserStateCommand) -> OutboundPacket {
    OutboundPacket::UserState {
        session_id: command.session_id,
        channel_id: command.channel_id,
        muted: command.muted,
        deafened: command.deafened,
    }
}

/// Builds the update-self packet for a command.
pub fn user_state_packet(command: UserStateCommand) -> (r: OutboundPacket)
    ensures
        r == user_state_packet_of(command),
{
    OutboundPacket::UserState {
        session_id: command.session_id,
        channel_id: command.channel_id,
        muted: command.muted,
        deafened: command.deafened,
    }
}

/// What a successful handshake hands back: the initial burst of mapped
/// messages in receipt order, and a live session when the connector
/// provides one.
pub struct ControlHandshake {
    pub messages: Vec<ControlMessage>,
    pub session: Option<Box<dyn ControlSession>>,
}

/// Everything the handshake needs to reach and authenticate with a
/// server.
#[derive(Clone, Debug, PartialEq, Eq)]
pub struct HandshakeRequest {
    pub server: String,
    pub port: u16,
    pub username: String,
    pub password: Option<String>,
}

/// Capability to perform the authentication handshake: send one
/// authenticate command, then drain the initial burst of inbound
/// messages. Implementations are swappable; nothing is promised of what
/// an arbitrary implementation returns.
pub trait ControlConnector {
    fn handshake(&mut self, request: HandshakeRequest) -> (r: Result<
        ControlHandshake,
        TransportError,
    >);
}

/// Capability to send one update-self command over an established
/// session. Success means the send completed, not that the server
/// applied it.
pub trait ControlSession {
    fn send_user_state(&mut self, command: UserStateCommand) -> (r: Result<(), TransportError>);
}

/// Capability to exchange typed control packets over an established,
/// authenticated stream. `inbound_budget` models the buffered inbound
/// messages still to be drained: a conforming implementation yields
/// finitely many packets before signalling a pause with `Ok(None)`.
/// `sent_log` models the packets handed to `send` so far, oldest first;
/// an implementation that is itself verified pairs the two models with
/// matching definitions.
pub trait ControlTransport {
    open spec fn inbound_budget(&self) -> nat {
        0
    }

    open spec fn sent_log(&self) -> Seq<OutboundPacket> {
        Seq::<OutboundPacket>::empty()
    }

    fn send(&mut self, packet: OutboundPacket) -> (r: Result<(), TransportError>)
        ensures
            final(self).sent_log() == old(self).sent_log().push(packet),
    ;

    fn recv(&mut self) -> (r: Result<Option<RawControlPacket>, TransportError>)
        ensures
            (r matches Ok(p) && p is Some) ==> final(self).inbound_budget() < old(
                self,
            ).inbound_budget(),
            final(self).sent_log() == old(self).sent_log(),
    ;
}

/// Placeholder connector used before a real transport is wired in:
/// always succeeds with no messages and no session.
#[derive(Debug, Default)]
pub struct NoopControlConnector;

impl ControlConnector for NoopControlConnector {
    fn handshake(&mut self, _request: HandshakeRequest) -> (r: Result<
        ControlHandshake,
        TransportError,
    >)
        ensures
            r matches Ok(h) && h.messages@.len() == 0 && h.session is None,
    {
        Ok(ControlHandshake { messages: Vec::new(), session: None })
    }
}

/// Connector over a typed-packet transport: authenticates, drains the
/// initial burst through the packet mapper, and hands the transport on
/// as a live session.
pub struct MumbleProtocolControlConnector<T: ControlTransport> {
    transport: Option<T>,
}

impl<T: ControlTransport> MumbleProtocolControlConnector<T> {
    /// The one handshake this connector can run has already consumed its
    /// transport.
    pub closed spec fn consumed(&self) -> bool {
        self.transport is None
    }

    /// Wraps a transport; the transport is consumed by the first
    /// handshake.
    pub fn new(transport: T) -> (r: Self)
        ensures
            !r.consumed(),
    {
        MumbleProtocolControlConnector { transport: Some(transport) }
    }
}

impl<T: ControlTransport + 'static> ControlConnector for MumbleProtocolControlConnector<T> {
    fn handshake(&mut self, request: HandshakeRequest) -> (r: Result<
        ControlHandshake,
        TransportError,
    >)
        ensures
            final(self).consumed(),
            old(self).consumed() ==> (r matches Err(TransportError::Protocol(d)) && d@
                == "control transport already consumed"@),
            r matches Ok(h) ==> h.session is Some && (forall|i: int|
                0 <= i < h.messages.deep_view().len() ==> is_mapped_message(
                    #[trigger] h.messages.deep_view()[i],
                )),
    {
        let taken = self.transport.take();
        let mut transport = match taken {
            Some(transport) => transport,
            None => {
                return Err(
                    TransportError::Protocol("control transport already consumed".to_owned()),
                );
            },
        };
        let ghost pre_send_log = transport.sent_log();
        let auth = authenticate_packet(request.username, request.password);
        let ghost auth_v = auth;
        match transport.send(auth) {
            Ok(()) => {},
            Err(e) => {
                return Err(e);
            },
        }
        let mut messages: Vec<ControlMessage> = Vec::new();
        proof {
            assert(messages.deep_view() =~= Seq::<ControlMessageView>::empty());
        }
        loop
            invariant
                self.consumed(),
                !old(self).consumed(),
                transport.sent_log() == pre_send_log.push(auth_v),
                forall|k: int|
                    0 <= k < messages.deep_view().len() ==> is_mapped_message(
                        #[trigger] messages.deep_view()[k],
                    ),
            decreases transport.inbound_budget(),
        {
            match transport.recv() {
                Ok(Some(packet)) => {
                    let ghost pv = packet@;
                    if let Some(message) = map_control_packet(packet) {
                        let ghost mv = message@;
                        let ghost pre = messages.deep_view();
                        messages.push(message);
                        proof {
                            assert(spec_map_packet(pv) == Some(mv));
                            assert(is_mapped_message(mv));
                            assert forall|k: int|
                                0 <= k < messages.deep_view().len() implies is_mapped_message(
                                #[trigger] messages.deep_view()[k],
                            ) by {
                                if k < pre.len() {
                                    assert(messages.deep_view()[k] == pre[k]);
                                } else {
                                    assert(messages.deep_view()[k] == mv);
                                }
                            }
                        }
                    }
                },
                Ok(None) => {
                    break;
                },
                Err(e) => {
                    return Err(e);
                },
            }
        }
        Ok(
            ControlHandshake {
                messages,
                session: Some(Box::new(MumbleProtocolControlSession { transport })),
            },
        )
    }
}

/// Live session over the transport a handshake consumed: encodes the
/// update-self command as one outbound packet.
pub struct MumbleProtocolControlSession<T: ControlTransport> {
    transport: T,
}

impl<T: ControlTransport> MumbleProtocolControlSession<T> {
    /// The packets this session's transport was handed, oldest first.
    pub closed spec fn sent_log(&self) -> Seq<OutboundPacket> {
        self.transport.sent_log()
    }
}

impl<T: ControlTransport + 'static> ControlSession for MumbleProtocolControlSession<T> {
    fn send_user_state(&mut self, command: UserStateCommand) -> (r: Result<(), TransportError>)
        ensures
            final(self).sent_log() == old(self).sent_log().push(user_state_packet_of(command)),
    {
        let packet = user_state_packet(command);
        self.transport.send(packet)
    }
}

} // verus!
