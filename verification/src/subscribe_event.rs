//! Events fed into the subscribe engine: application requests
//! (subscription changes, disconnects) and effect completions (handshake
//! and receive results).

use vstd::prelude::*;

use crate::error::{PubNubError, PubNubErrorModel};
use crate::subscribe_types::{CursorModel, SubscribeCursor};
use crate::update::{Update, UpdateModel};

verus! {

/// An event the subscribe engine reacts to.
#[derive(Debug, PartialEq)]
pub enum SubscribeEvent {
    /// The application changed the channel and channel group lists.
    SubscriptionChanged {
        /// The new channel list.
        channels: Option<Vec<String>>,
        /// The new channel group list.
        channel_groups: Option<Vec<String>>,
    },
    /// The application restored a subscription at a given cursor.
    SubscriptionRestored {
        /// The new channel list.
        channels: Option<Vec<String>>,
        /// The new channel group list.
        channel_groups: Option<Vec<String>>,
        /// The point in time to catch up from.
        cursor: SubscribeCursor,
    },
    /// The handshake effect completed and obtained a cursor.
    HandshakeSuccess {
        /// The cursor the server answered with.
        cursor: SubscribeCursor,
    },
    /// The handshake effect failed.
    HandshakeFailure {
        /// Why it failed.
        reason: PubNubError,
    },
    /// A handshake retry completed and obtained a cursor.
    HandshakeReconnectSuccess {
        /// The cursor the server answered with.
        cursor: SubscribeCursor,
    },
    /// A handshake retry failed.
    HandshakeReconnectFailure {
        /// Why it failed.
        reason: PubNubError,
    },
    /// Handshake retries are exhausted.
    HandshakeReconnectGiveUp {
        /// The failure that exhausted them.
        reason: PubNubError,
    },
    /// The receive effect completed with updates.
    ReceiveSuccess {
        /// The cursor to continue from.
        cursor: SubscribeCursor,
        /// The received updates.
        messages: Vec<Update>,
    },
    /// The receive effect failed.
    ReceiveFailure {
        /// Why it failed.
        reason: PubNubError,
    },
    /// A receive retry completed with updates.
    ReceiveReconnectSuccess {
        /// The cursor to continue from.
        cursor: SubscribeCursor,
        /// The received updates.
        messages: Vec<Update>,
    },
    /// A receive retry failed.
    ReceiveReconnectFailure {
        /// Why it failed.
        reason: PubNubError,
    },
    /// Receive retries are exhausted.
    ReceiveReconnectGiveUp {
        /// The failure that exhausted them.
        reason: PubNubError,
    },
    /// The application asked to pause all activity.
    Disconnect,
    /// The application asked to resume activity.
    Reconnect,
    /// The application asked to drop all subscriptions.
    UnsubscribeAll,
}

/// Ghost counterpart of [`SubscribeEvent`].
pub ghost enum SubscribeEventModel {
    SubscriptionChanged {
        channels: Option<Seq<Seq<char>>>,
        channel_groups: Option<Seq<Seq<char>>>,
    },
    SubscriptionRestored {
        channels: Option<Seq<Seq<char>>>,
        channel_groups: Option<Seq<Seq<char>>>,
        cursor: CursorModel,
    },
    HandshakeSuccess { cursor: CursorModel },
    HandshakeFailure { reason: PubNubErrorModel },
    HandshakeReconnectSuccess { cursor: CursorModel },
    HandshakeReconnectFailure { reason: PubNubErrorModel },
    HandshakeReconnectGiveUp { reason: PubNubErrorModel },
    ReceiveSuccess { cursor: CursorModel, messages: Seq<UpdateModel> },
    ReceiveFailure { reason: PubNubErrorModel },
    ReceiveReconnectSuccess { cursor: CursorModel, messages: Seq<UpdateModel> },
    ReceiveReconnectFailure { reason: PubNubErrorModel },
    ReceiveReconnectGiveUp { reason: PubNubErrorModel },
    Disconnect,
    Reconnect,
    UnsubscribeAll,
}

impl DeepView for SubscribeEvent {
    type V = SubscribeEventModel;

    open spec fn deep_view(&self) -> SubscribeEventModel {
        match self {
            SubscribeEvent::SubscriptionChanged { channels, channel_groups } => {
                SubscribeEventModel::SubscriptionChanged {
                    channels: channels.deep_view(),
                    channel_groups: channel_groups.deep_view(),
                }
            },
            SubscribeEvent::SubscriptionRestored { channels, channel_groups, cursor } => {
                SubscribeEventModel::SubscriptionRestored {
                    channels: channels.deep_view(),
                    channel_groups: channel_groups.deep_view(),
                    cursor: cursor.deep_view(),
                }
            },
            SubscribeEvent::HandshakeSuccess { cursor } => SubscribeEventModel::HandshakeSuccess {
                cursor: cursor.deep_view(),
            },
            SubscribeEvent::HandshakeFailure { reason } => SubscribeEventModel::HandshakeFailure {
                reason: reason.deep_view(),
            },
            SubscribeEvent::HandshakeReconnectSuccess { cursor } => {
                SubscribeEventModel::HandshakeReconnectSuccess { cursor: cursor.deep_view() }
            },
            SubscribeEvent::HandshakeReconnectFailure { reason } => {
                SubscribeEventModel::HandshakeReconnectFailure { reason: reason.deep_view() }
            },
            SubscribeEvent::HandshakeReconnectGiveUp { reason } => {
                SubscribeEventModel::HandshakeReconnectGiveUp { reason: reason.deep_view() }
            },
            SubscribeEvent::ReceiveSuccess { cursor, messages } => {
                SubscribeEventModel::ReceiveSuccess {
                    cursor: cursor.deep_view(),
                    messages: messages.deep_view(),
                }
            },
            SubscribeEvent::ReceiveFailure { reason } => SubscribeEventModel::ReceiveFailure {
                reason: reason.deep_view(),
            },
            SubscribeEvent::ReceiveReconnectSuccess { cursor, messages } => {
                SubscribeEventModel::ReceiveReconnectSuccess {
                    cursor: cursor.deep_view(),
                    messages: messages.deep_view(),
                }
            },
            SubscribeEvent::ReceiveReconnectFailure { reason } => {
                SubscribeEventModel::ReceiveReconnectFailure { reason: reason.deep_view() }
            },
            SubscribeEvent::ReceiveReconnectGiveUp { reason } => {
                SubscribeEventModel::ReceiveReconnectGiveUp { reason: reason.deep_view() }
            },
            SubscribeEvent::Disconnect => SubscribeEventModel::Disconnect,
            SubscribeEvent::Reconnect => SubscribeEventModel::Reconnect,
            SubscribeEvent::UnsubscribeAll => SubscribeEventModel::UnsubscribeAll,
        }
    }
}

} // verus!
