//! Client configuration and the publish message builder.
//!
//! A [`Client`] collects keys, identity and channel settings for one
//! connection; [`PublishMessage`] is the builder for a message to send.
//! Submitting messages and running connections is the application's job,
//! outside the core.

use vstd::prelude::*;

use crate::strings::str_eq;

verus! {

/// Kinds of messages a client receives back from the service.
#[derive(Debug, Clone, Copy, PartialEq, Eq)]
pub enum MessageType {
    /// Response of a publish (success or failure).
    Publish,
    /// Response of a subscription, usually a message payload.
    Subscribe,
    /// Presence event from a channel, such as another client joining.
    Presence,
}

/// A received message with all that is known about it.
#[derive(Debug, PartialEq)]
pub struct Message {
    /// What kind of message this is.
    pub message_type: MessageType,
    /// Channel the message was received on.
    pub channel: String,
    /// Raw payload from the channel.
    pub data: String,
    /// Decoded JSON payload, where decoding was enabled.
    pub json: String,
    /// Metadata of the message.
    pub metadata: String,
    /// Timetoken identifying the message.
    pub timetoken: String,
    /// Whether a publish was successful.
    pub success: bool,
}

/// A message to publish: its destination channel, payload and metadata.
#[derive(Debug, PartialEq)]
pub struct PublishMessage {
    /// Destination channel.
    pub channel: String,
    /// Message payload, as JSON text.
    pub data: String,
    /// Metadata for the message, as JSON text.
    pub metadata: String,
}

/// Ghost counterpart of [`PublishMessage`].
pub ghost struct PublishMessageModel {
    pub channel: Seq<char>,
    pub data: Seq<char>,
    pub metadata: Seq<char>,
}

impl DeepView for PublishMessage {
    type V = PublishMessageModel;

    open spec fn deep_view(&self) -> PublishMessageModel {
        PublishMessageModel {
            channel: self.channel.deep_view(),
            data: self.data.deep_view(),
            metadata: self.metadata.deep_view(),
        }
    }
}

impl PublishMessage {
    /// Set the destination channel.
    pub fn channel(self, channel: &str) -> (r: PublishMessage)
        ensures
            r.deep_view() == (PublishMessageModel { channel: channel@, ..self.deep_view() }),
    {
        PublishMessage { channel: channel.to_owned(), ..self }
    }

    /// Set the message payload.
    pub fn data(self, data: &str) -> (r: PublishMessage)
        ensures
            r.deep_view() == (PublishMessageModel { data: data@, ..self.deep_view() }),
    {
        PublishMessage { data: data.to_owned(), ..self }
    }

    /// Set the message metadata.
    pub fn metadata(self, metadata: &str) -> (r: PublishMessage)
        ensures
            r.deep_view() == (PublishMessageModel { metadata: metadata@, ..self.deep_view() }),
    {
        PublishMessage { metadata: metadata.to_owned(), ..self }
    }
}

/// Connection settings of one client: keys, identity, channels and
/// subscription options.
#[derive(Debug, PartialEq)]
pub struct Client {
    /// Customer's publish key.
    pub publish_key: String,
    /// Customer's subscribe key.
    pub subscribe_key: String,
    /// Customer's secret key.
    pub secret_key: String,
    /// Client auth key for read and write access.
    pub auth_key: String,
    /// Client user id for presence.
    pub user_id: String,
    /// Client channels, comma separated.
    pub channels: String,
    /// Client channel groups, comma separated.
    pub groups: String,
    /// Metadata filters on messages.
    pub filters: String,
    /// Whether presence events are enabled.
    pub presence: bool,
    /// Whether JSON decoding is enabled.
    pub json: bool,
    /// Unix timestamp to fetch history from when subscribing.
    pub since: u64,
    /// Current position in the subscription stream.
    pub timetoken: String,
}

/// Ghost counterpart of [`Client`].
pub ghost struct ClientModel {
    pub publish_key: Seq<char>,
    pub subscribe_key: Seq<char>,
    pub secret_key: Seq<char>,
    pub auth_key: Seq<char>,
    pub user_id: Seq<char>,
    pub channels: Seq<char>,
    pub groups: Seq<char>,
    pub filters: Seq<char>,
    pub presence: bool,
    pub json: bool,
    pub since: u64,
    pub timetoken: Seq<char>,
}

impl DeepView for Client {
    type V = ClientModel;

    open spec fn deep_view(&self) -> ClientModel {
        ClientModel {
            publish_key: self.publish_key.deep_view(),
            subscribe_key: self.subscribe_key.deep_view(),
            secret_key: self.secret_key.deep_view(),
            auth_key: self.auth_key.deep_view(),
            user_id: self.user_id.deep_view(),
            channels: self.channels.deep_view(),
            groups: self.groups.deep_view(),
            filters: self.filters.deep_view(),
            presence: self.presence,
            json: self.json,
            since: self.since,
            timetoken: self.timetoken.deep_view(),
        }
    }
}

impl Client {
    /// A client with the demo keys, the demo channel and no history.
    pub fn new() -> (r: Client)
        ensures
            r.deep_view() == (ClientModel {
                publish_key: "demo"@,
                subscribe_key: "demo"@,
                secret_key: Seq::<char>::empty(),
                auth_key: Seq::<char>::empty(),
                user_id: Seq::<char>::empty(),
                channels: "demo"@,
                groups: Seq::<char>::empty(),
                filters: Seq::<char>::empty(),
                presence: false,
                json: false,
                since: 0u64,
                timetoken: "0"@,
            }),
    {
        Client {
            subscribe_key: "demo".to_owned(),
            publish_key: "demo".to_owned(),
            secret_key: String::new(),
            auth_key: String::new(),
            user_id: String::new(),
            channels: "demo".to_owned(),
            groups: String::new(),
            filters: String::new(),
            presence: false,
            json: false,
            since: 0,
            timetoken: "0".to_owned(),
        }
    }

    /// Set the subscribe key.
    pub fn subscribe_key(self, subscribe_key: &str) -> (r: Client)
        ensures
            r.deep_view() == (ClientModel { subscribe_key: subscribe_key@, ..self.deep_view() }),
    {
        Client { subscribe_key: subscribe_key.to_owned(), ..self }
    }

    /// Set the publish key.
    pub fn publish_key(self, publish_key: &str) -> (r: Client)
        ensures
            r.deep_view() == (ClientModel { publish_key: publish_key@, ..self.deep_view() }),
    {
        Client { publish_key: publish_key.to_owned(), ..self }
    }

    /// Set the secret key.
    pub fn secret_key(self, secret_key: &str) -> (r: Client)
        ensures
            r.deep_view() == (ClientModel { secret_key: secret_key@, ..self.deep_view() }),
    {
        Client { secret_key: secret_key.to_owned(), ..self }
    }

    /// Set the auth key.
    pub fn auth_key(self, auth_key: &str) -> (r: Client)
        ensures
            r.deep_view() == (ClientModel { auth_key: auth_key@, ..self.deep_view() }),
    {
        Client { auth_key: auth_key.to_owned(), ..self }
    }

    /// Set the user id.
    pub fn user_id(self, user_id: &str) -> (r: Client)
        ensures
            r.deep_view() == (ClientModel { user_id: user_id@, ..self.deep_view() }),
    {
        Client { user_id: user_id.to_owned(), ..self }
    }

    /// Set the channel list.
    pub fn channels(self, channels: &str) -> (r: Client)
        ensures
            r.deep_view() == (ClientModel { channels: channels@, ..self.deep_view() }),
    {
        Client { channels: channels.to_owned(), ..self }
    }

    /// Set the channel group list.
    pub fn groups(self, groups: &str) -> (r: Client)
        ensures
            r.deep_view() == (ClientModel { groups: groups@, ..self.deep_view() }),
    {
        Client { groups: groups.to_owned(), ..self }
    }

    /// Set the metadata filters.
    pub fn filters(self, filters: &str) -> (r: Client)
        ensures
            r.deep_view() == (ClientModel { filters: filters@, ..self.deep_view() }),
    {
        Client { filters: filters.to_owned(), ..self }
    }

    /// Enable or disable presence events.
    pub fn presence(self, presence: bool) -> (r: Client)
        ensures
            r.deep_view() == (ClientModel { presence, ..self.deep_view() }),
    {
        Client { presence, ..self }
    }

    /// Set the history fetch timestamp.
    pub fn since(self, since: u64) -> (r: Client)
        ensures
            r.deep_view() == (ClientModel { since, ..self.deep_view() }),
    {
        Client { since, ..self }
    }

    /// Set the subscription timetoken.
    pub fn timetoken(self, timetoken: &str) -> (r: Client)
        ensures
            r.deep_view() == (ClientModel { timetoken: timetoken@, ..self.deep_view() }),
    {
        Client { timetoken: timetoken.to_owned(), ..self }
    }

    /// A publish message builder with the default channel and payload.
    pub fn message(&self) -> (r: PublishMessage)
        ensures
            r.deep_view() == (PublishMessageModel {
                channel: "demo"@,
                data: "test"@,
                metadata: Seq::<char>::empty(),
            }),
    {
        PublishMessage {
            channel: "demo".to_owned(),
            data: "test".to_owned(),
            metadata: String::new(),
        }
    }
}

impl Clone for Client {
    /// Copy of the client with the same settings.
    fn clone(&self) -> (r: Self)
        ensures
            r.deep_view() == self.deep_view(),
    {
        Client {
            publish_key: self.publish_key.clone(),
            subscribe_key: self.subscribe_key.clone(),
            secret_key: self.secret_key.clone(),
            auth_key: self.auth_key.clone(),
            user_id: self.user_id.clone(),
            channels: self.channels.clone(),
            groups: self.groups.clone(),
            filters: self.filters.clone(),
            presence: self.presence,
            json: self.json,
            since: self.since,
            timetoken: self.timetoken.clone(),
        }
    }
}

/// Check that a client configuration can drive the subscribe and
/// unsubscribe endpoints: when a configuration is given, its subscribe
/// key must not be empty.
pub fn validate_configuration(subscribe_key: &Option<String>) -> (r: Result<(), String>)
    ensures
        match subscribe_key.deep_view() {
            Some(key) => if key.len() == 0 {
                r matches Err(msg) && msg@
                    == "Incomplete PubNub client configuration: 'subscribe_key' is empty."@
            } else {
                r is Ok
            },
            None => r is Ok,
        },
{
    match subscribe_key {
        Some(key) => {
            proof {
                reveal_strlit("");
            }
            if str_eq(key.as_str(), "") {
                Err(
                    "Incomplete PubNub client configuration: 'subscribe_key' is empty.".to_owned(),
                )
            } else {
                proof {
                    if key@.len() == 0 {
                        assert(key@ =~= ""@);
                    }
                }
                Ok(())
            }
        },
        None => Ok(()),
    }
}

} // verus!
