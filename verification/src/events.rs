//! Events a transport appends for its consumer to drain.

use vstd::prelude::*;
use crate::types::{Channel, ChannelView, ConnState, User, UserView};

verus! {

/// A chat text message addressed to channels or users.
#[derive(Clone, Debug)]
pub struct TextMessage {
    pub actor_id: Option<u32>,
    pub channel_id: Option<u32>,
    pub user_ids: Vec<u32>,
    pub message: String,
}

/// Mathematical model of a [`TextMessage`].
pub ghost struct TextMessageView {
    pub actor_id: Option<u32>,
    pub channel_id: Option<u32>,
    pub user_ids: Seq<u32>,
    pub message: Seq<char>,
}

impl View for TextMessage {
    type V = TextMessageView;

    open spec fn view(&self) -> TextMessageView {
        TextMessageView {
            actor_id: self.actor_id,
            channel_id: self.channel_id,
            user_ids: self.user_ids@,
            message: self.message@,
        }
    }
}

/// One entry of the transport's append-only event log: a state change, a
/// full sorted snapshot, a text message, or a human-readable error.
#[derive(Clone, Debug)]
pub enum TransportEvent {
    ConnectionState(ConnState),
    Channels(Vec<Channel>),
    Users(Vec<User>),
    Text(TextMessage),
    Error(String),
}

/// Mathematical model of a [`TransportEvent`].
pub ghost enum EventView {
    ConnectionState(ConnState),
    Channels(Seq<ChannelView>),
    Users(Seq<UserView>),
    Text(TextMessageView),
    Error(Seq<char>),
}

impl View for TransportEvent {
    type V = EventView;

    open spec fn view(&self) -> EventView {
        match self {
            TransportEvent::ConnectionState(s) => EventView::ConnectionState(*s),
            TransportEvent::Channels(channels) => EventView::Channels(channels.deep_view()),
            TransportEvent::Users(users) => EventView::Users(users.deep_view()),
            TransportEvent::Text(text) => EventView::Text(text@),
            TransportEvent::Error(message) => EventView::Error(message@),
        }
    }
}

impl DeepView for TransportEvent {
    type V = EventView;

    open spec fn deep_view(&self) -> EventView {
        self@
    }
}

} // verus!
