//! Domain value records mirrored from server-authoritative state.

use vstd::prelude::*;

verus! {

/// Mathematical model of a [`Channel`]: the same record with the name as a
/// character sequence.
pub ghost struct ChannelView {
    pub id: u32,
    pub name: Seq<char>,
    pub parent_id: Option<u32>,
}

/// Mathematical model of a [`User`].
pub ghost struct UserView {
    pub id: u32,
    pub name: Seq<char>,
    pub channel_id: u32,
    pub muted: bool,
    pub deafened: bool,
    pub talking: bool,
}

/// A voice channel as last reported by the server.
#[derive(Debug, PartialEq, Eq)]
pub struct Channel {
    /// Server-assigned identifier, stable for the channel's lifetime.
    pub id: u32,
    /// Display name; empty until a state update supplies one.
    pub name: String,
    /// Parent channel identifier; `None` means the channel is a root.
    pub parent_id: Option<u32>,
}

impl View for Channel {
    type V = ChannelView;

    open spec fn view(&self) -> ChannelView {
        ChannelView { id: self.id, name: self.name@, parent_id: self.parent_id }
    }
}

impl DeepView for Channel {
    type V = ChannelView;

    open spec fn deep_view(&self) -> ChannelView {
        self@
    }
}

impl Clone for Channel {
    fn clone(&self) -> (res: Self)
        ensures
            res == *self,
    {
        Channel { id: self.id, name: self.name.clone(), parent_id: self.parent_id }
    }
}

/// A connected user as last reported by the server.
#[derive(Debug, PartialEq, Eq)]
pub struct User {
    /// Server session identifier, unique while the user is connected.
    pub id: u32,
    /// Display name.
    pub name: String,
    /// Identifier of the channel the user currently occupies.
    pub channel_id: u32,
    /// Whether the user muted themselves.
    pub muted: bool,
    /// Whether the user deafened themselves.
    pub deafened: bool,
    /// Whether the user is currently talking.
    pub talking: bool,
}

impl View for User {
    type V = UserView;

    open spec fn view(&self) -> UserView {
        UserView {
            id: self.id,
            name: self.name@,
            channel_id: self.channel_id,
            muted: self.muted,
            deafened: self.deafened,
            talking: self.talking,
        }
    }
}

impl DeepView for User {
    type V = UserView;

    open spec fn deep_view(&self) -> UserView {
        self@
    }
}

impl Clone for User {
    fn clone(&self) -> (res: Self)
        ensures
            res == *self,
    {
        User {
            id: self.id,
            name: self.name.clone(),
            channel_id: self.channel_id,
            muted: self.muted,
            deafened: self.deafened,
            talking: self.talking,
        }
    }
}

/// Connection lifecycle of a transport: `Disconnected` is initial,
/// `Error` ends the current session.
#[derive(Clone, Copy, Debug, PartialEq, Eq, Structural)]
pub enum ConnState {
    Disconnected,
    Connecting,
    Connected,
    Error,
}

} // verus!
