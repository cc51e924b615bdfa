//! Subscription value types: the time cursor, subscription statuses and
//! the discriminators of received real-time updates.

use vstd::prelude::*;

use crate::error::{PubNubError, PubNubErrorModel};
use crate::strings::{spec_u32_dec, str_eq, u32_to_string};

verus! {

/// Time cursor.
///
/// Identifies the point in the server's event stream after which updates
/// are delivered. The timetoken `"0"` asks the server for the current
/// time ("start from now").
#[derive(Debug, PartialEq, Eq, Hash)]
pub struct SubscribeCursor {
    /// High-precision timestamp as a decimal string.
    pub timetoken: String,
    /// Data center region for which the timetoken was generated.
    pub region: u32,
}

/// Mathematical content of a [`SubscribeCursor`].
pub ghost struct CursorModel {
    pub timetoken: Seq<char>,
    pub region: u32,
}

impl DeepView for SubscribeCursor {
    type V = CursorModel;

    open spec fn deep_view(&self) -> CursorModel {
        CursorModel { timetoken: self.timetoken.deep_view(), region: self.region }
    }
}

impl Clone for SubscribeCursor {
    /// Copy of the cursor with the same timetoken and region.
    fn clone(&self) -> (r: Self)
        ensures
            r.deep_view() == self.deep_view(),
    {
        SubscribeCursor { timetoken: self.timetoken.clone(), region: self.region }
    }
}

impl Default for SubscribeCursor {
    /// The "start from now" cursor: timetoken `"0"`, region 0.
    fn default() -> (r: Self)
        ensures
            r.deep_view() == (CursorModel { timetoken: "0"@, region: 0u32 }),
    {
        SubscribeCursor { timetoken: "0".to_owned(), region: 0 }
    }
}

/// What the cursor contributes to a subscribe request's query: only `tt`
/// for the "start from now" cursor, both `tt` and `tr` otherwise.
pub open spec fn spec_cursor_query_params(c: CursorModel) -> Seq<(Seq<char>, Seq<char>)> {
    if c.timetoken == "0"@ {
        seq![("tt"@, c.timetoken)]
    } else {
        seq![("tt"@, c.timetoken), ("tr"@, spec_u32_dec(c.region as nat))]
    }
}

impl SubscribeCursor {
    /// The query parameters this cursor contributes to a subscribe
    /// request.
    pub fn query_params(&self) -> (r: Vec<(String, String)>)
        ensures
            r.deep_view() == spec_cursor_query_params(self.deep_view()),
    {
        let mut r: Vec<(String, String)> = Vec::new();
        r.push(("tt".to_owned(), self.timetoken.clone()));
        if !str_eq(self.timetoken.as_str(), "0") {
            r.push(("tr".to_owned(), u32_to_string(self.region)));
        }
        proof {
            assert(r.deep_view() =~= spec_cursor_query_params(self.deep_view()));
        }
        r
    }
}

/// Subscription statuses handed to listeners.
#[derive(Debug, PartialEq)]
pub enum SubscribeStatus {
    /// Connected and receiving real-time updates.
    Connected,
    /// Reconnected after receiving had stopped.
    Reconnected,
    /// Receiving of real-time updates stopped.
    Disconnected,
    /// The connection could not be established or recovered; carries the
    /// error that exhausted the retries.
    ConnectionError(PubNubError),
}

/// Mathematical content of a [`SubscribeStatus`].
pub ghost enum StatusModel {
    Connected,
    Reconnected,
    Disconnected,
    ConnectionError(PubNubErrorModel),
}

impl DeepView for SubscribeStatus {
    type V = StatusModel;

    open spec fn deep_view(&self) -> StatusModel {
        match self {
            SubscribeStatus::Connected => StatusModel::Connected,
            SubscribeStatus::Reconnected => StatusModel::Reconnected,
            SubscribeStatus::Disconnected => StatusModel::Disconnected,
            SubscribeStatus::ConnectionError(e) => StatusModel::ConnectionError(e.deep_view()),
        }
    }
}

impl Clone for SubscribeStatus {
    /// Copy of the status with the same content.
    fn clone(&self) -> (r: Self)
        ensures
            r.deep_view() == self.deep_view(),
    {
        match self {
            SubscribeStatus::Connected => SubscribeStatus::Connected,
            SubscribeStatus::Reconnected => SubscribeStatus::Reconnected,
            SubscribeStatus::Disconnected => SubscribeStatus::Disconnected,
            SubscribeStatus::ConnectionError(e) => SubscribeStatus::ConnectionError(e.clone()),
        }
    }
}

impl SubscribeStatus {
    /// Name of the status, for display purposes.
    pub fn name(&self) -> (r: String)
        ensures
            self.deep_view() == StatusModel::Connected ==> r@ == "Connected"@,
            self.deep_view() == StatusModel::Reconnected ==> r@ == "Reconnected"@,
            self.deep_view() == StatusModel::Disconnected ==> r@ == "Disconnected"@,
            (self.deep_view() matches StatusModel::ConnectionError(_)) ==> r@
                == "ConnectionError"@,
    {
        match self {
            SubscribeStatus::Connected => "Connected".to_owned(),
            SubscribeStatus::Reconnected => "Reconnected".to_owned(),
            SubscribeStatus::Disconnected => "Disconnected".to_owned(),
            SubscribeStatus::ConnectionError(_) => "ConnectionError".to_owned(),
        }
    }
}

/// Known kinds of events received from subscribe, as discriminated by the
/// `e` field of a received envelope: 0 message, 1 signal, 2 object,
/// 3 message action, 4 file.
#[derive(Debug, Clone, Copy, PartialEq, Eq, Hash)]
pub enum SubscribeMessageType {
    /// Regular message published by a user.
    Message,
    /// Small piece of data sent through the separate signal endpoint.
    Signal,
    /// Event about a `user id` / `channel` object or their relationship.
    Object,
    /// Event about actions associated with a message.
    MessageAction,
    /// Event about file sharing (upload / removal).
    File,
}

/// The message type that a wire discriminator denotes, if any.
pub open spec fn spec_message_type_from_code(code: u32) -> Option<SubscribeMessageType> {
    if code == 0 {
        Some(SubscribeMessageType::Message)
    } else if code == 1 {
        Some(SubscribeMessageType::Signal)
    } else if code == 2 {
        Some(SubscribeMessageType::Object)
    } else if code == 3 {
        Some(SubscribeMessageType::MessageAction)
    } else if code == 4 {
        Some(SubscribeMessageType::File)
    } else {
        None
    }
}

impl SubscribeMessageType {
    /// Decode the wire discriminator `e` of an envelope.
    pub fn from_code(code: u32) -> (r: Option<SubscribeMessageType>)
        ensures
            r == spec_message_type_from_code(code),
    {
        if code == 0 {
            Some(SubscribeMessageType::Message)
        } else if code == 1 {
            Some(SubscribeMessageType::Signal)
        } else if code == 2 {
            Some(SubscribeMessageType::Object)
        } else if code == 3 {
            Some(SubscribeMessageType::MessageAction)
        } else if code == 4 {
            Some(SubscribeMessageType::File)
        } else {
            None
        }
    }
}

/// Object update event types.
#[derive(Debug, Clone, Copy, PartialEq, Eq)]
pub enum ObjectEvent {
    /// Object information has been modified.
    Update,
    /// Object has been deleted.
    Delete,
}

/// Message action update event types.
#[derive(Debug, Clone, Copy, PartialEq, Eq)]
pub enum MessageActionEvent {
    /// Message action has been modified.
    Update,
    /// Message action has been deleted.
    Delete,
}

impl ObjectEvent {
    /// Decode the event name carried by an object update envelope:
    /// `"update"` or `"delete"`; anything else is a deserialization error.
    pub fn try_from(value: String) -> (r: Result<Self, PubNubError>)
        ensures
            value@ == "update"@ ==> r == Ok::<Self, PubNubError>(ObjectEvent::Update),
            value@ == "delete"@ ==> r == Ok::<Self, PubNubError>(ObjectEvent::Delete),
            value@ != "update"@ && value@ != "delete"@ ==> (r matches Err(e) && e.deep_view()
                matches PubNubErrorModel::Deserialization { .. }),
    {
        proof {
            reveal_strlit("update");
            reveal_strlit("delete");
            assert("update"@[0] == 'u');
            assert("delete"@[0] == 'd');
            assert("update"@ != "delete"@);
        }
        if str_eq(value.as_str(), "update") {
            Ok(ObjectEvent::Update)
        } else if str_eq(value.as_str(), "delete") {
            Ok(ObjectEvent::Delete)
        } else {
            Err(
                PubNubError::Deserialization {
                    details: "Unable deserialize: unexpected object event type.".to_owned(),
                },
            )
        }
    }
}

impl MessageActionEvent {
    /// Decode the event name carried by a message action envelope:
    /// `"update"` or `"delete"`; anything else is a deserialization error.
    pub fn try_from(value: String) -> (r: Result<Self, PubNubError>)
        ensures
            value@ == "update"@ ==> r == Ok::<Self, PubNubError>(MessageActionEvent::Update),
            value@ == "delete"@ ==> r == Ok::<Self, PubNubError>(MessageActionEvent::Delete),
            value@ != "update"@ && value@ != "delete"@ ==> (r matches Err(e) && e.deep_view()
                matches PubNubErrorModel::Deserialization { .. }),
    {
        proof {
            reveal_strlit("update");
            reveal_strlit("delete");
            assert("update"@[0] == 'u');
            assert("delete"@[0] == 'd');
            assert("update"@ != "delete"@);
        }
        if str_eq(value.as_str(), "update") {
            Ok(MessageActionEvent::Update)
        } else if str_eq(value.as_str(), "delete") {
            Ok(MessageActionEvent::Delete)
        } else {
            Err(
                PubNubError::Deserialization {
                    details: "Unable deserialize: unexpected message action event type.".to_owned(),
                },
            )
        }
    }
}

} // verus!
