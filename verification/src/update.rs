//! Received real-time updates and their decoding.
//!
//! A subscribe response carries a list of envelopes. Each envelope names
//! the channel it originated on, the subscription through which it was
//! delivered, a per-message time cursor and a payload; the payload kind is
//! discriminated on the wire. This module turns envelopes into the typed
//! updates handed to listeners: messages, signals, presence events, object
//! changes, message action changes and file events.

use vstd::prelude::*;

use crate::error::{clone_opt_string, clone_opt_string_vec, PubNubError, PubNubErrorModel};
use crate::strings::{spec_parse_usize, str_eq};
use crate::subscribe_types::{
    spec_message_type_from_code, CursorModel, MessageActionEvent, ObjectEvent, SubscribeCursor,
    SubscribeMessageType,
};

verus! {

broadcast use vstd::seq_lib::group_seq_properties;

// ---------------------------------------------------------------------------
// Wire shapes
// ---------------------------------------------------------------------------
/// Key/value pairs of additional, caller-defined object information.
pub type CustomFields = Option<Vec<(String, String)>>;

/// Ghost counterpart of [`CustomFields`].
pub type CustomFieldsModel = Option<Seq<(Seq<char>, Seq<char>)>>;

/// Wire body of a `channel` object.
#[derive(Debug, PartialEq)]
pub struct ChannelObjectBody {
    /// Given name of the channel object.
    pub name: Option<String>,
    /// Additional description.
    pub description: Option<String>,
    /// Type information.
    pub type_info: Option<String>,
    /// Current status.
    pub status: Option<String>,
    /// Unique identifier.
    pub id: String,
    /// Additional caller-defined information.
    pub custom: CustomFields,
    /// Most recent modification date.
    pub updated: String,
    /// Current state hash.
    pub tag: String,
}

/// Ghost counterpart of [`ChannelObjectBody`].
pub ghost struct ChannelObjectBodyModel {
    pub name: Option<Seq<char>>,
    pub description: Option<Seq<char>>,
    pub type_info: Option<Seq<char>>,
    pub status: Option<Seq<char>>,
    pub id: Seq<char>,
    pub custom: CustomFieldsModel,
    pub updated: Seq<char>,
    pub tag: Seq<char>,
}

impl DeepView for ChannelObjectBody {
    type V = ChannelObjectBodyModel;

    open spec fn deep_view(&self) -> ChannelObjectBodyModel {
        ChannelObjectBodyModel {
            name: self.name.deep_view(),
            description: self.description.deep_view(),
            type_info: self.type_info.deep_view(),
            status: self.status.deep_view(),
            id: self.id.deep_view(),
            custom: self.custom.deep_view(),
            updated: self.updated.deep_view(),
            tag: self.tag.deep_view(),
        }
    }
}

/// Wire body of a `uuid` object.
#[derive(Debug, PartialEq)]
pub struct UuidObjectBody {
    /// Given name of the uuid object.
    pub name: Option<String>,
    /// Email address associated with it.
    pub email: Option<String>,
    /// Identifier in external systems.
    pub external_id: Option<String>,
    /// External profile URL.
    pub profile_url: Option<String>,
    /// Type information.
    pub type_info: Option<String>,
    /// Current status.
    pub status: Option<String>,
    /// Unique identifier.
    pub id: String,
    /// Additional caller-defined information.
    pub custom: CustomFields,
    /// Most recent modification date.
    pub updated: String,
    /// Current state hash.
    pub tag: String,
}

/// Ghost counterpart of [`UuidObjectBody`].
pub ghost struct UuidObjectBodyModel {
    pub name: Option<Seq<char>>,
    pub email: Option<Seq<char>>,
    pub external_id: Option<Seq<char>>,
    pub profile_url: Option<Seq<char>>,
    pub type_info: Option<Seq<char>>,
    pub status: Option<Seq<char>>,
    pub id: Seq<char>,
    pub custom: CustomFieldsModel,
    pub updated: Seq<char>,
    pub tag: Seq<char>,
}

impl DeepView for UuidObjectBody {
    type V = UuidObjectBodyModel;

    open spec fn deep_view(&self) -> UuidObjectBodyModel {
        UuidObjectBodyModel {
            name: self.name.deep_view(),
            email: self.email.deep_view(),
            external_id: self.external_id.deep_view(),
            profile_url: self.profile_url.deep_view(),
            type_info: self.type_info.deep_view(),
            status: self.status.deep_view(),
            id: self.id.deep_view(),
            custom: self.custom.deep_view(),
            updated: self.updated.deep_view(),
            tag: self.tag.deep_view(),
        }
    }
}

/// Wire body of an object update: which object kind changed, with its data.
#[derive(Debug, PartialEq)]
pub enum ObjectDataBody {
    /// A `channel` object.
    Channel(ChannelObjectBody),
    /// A `uuid` object.
    Uuid(UuidObjectBody),
    /// A membership: the relation of a `uuid` to a `channel`.
    Membership {
        /// The channel the uuid is related to.
        channel: ChannelObjectBody,
        /// Additional caller-defined information.
        custom: CustomFields,
        /// The uuid that has the relation.
        uuid: String,
        /// Current status.
        status: Option<String>,
        /// Most recent modification date.
        updated: String,
        /// Current state hash.
        tag: String,
    },
}

/// Ghost counterpart of [`ObjectDataBody`].
pub ghost enum ObjectDataBodyModel {
    Channel(ChannelObjectBodyModel),
    Uuid(UuidObjectBodyModel),
    Membership {
        channel: ChannelObjectBodyModel,
        custom: CustomFieldsModel,
        uuid: Seq<char>,
        status: Option<Seq<char>>,
        updated: Seq<char>,
        tag: Seq<char>,
    },
}

impl DeepView for ObjectDataBody {
    type V = ObjectDataBodyModel;

    open spec fn deep_view(&self) -> ObjectDataBodyModel {
        match self {
            ObjectDataBody::Channel(c) => ObjectDataBodyModel::Channel(c.deep_view()),
            ObjectDataBody::Uuid(u) => ObjectDataBodyModel::Uuid(u.deep_view()),
            ObjectDataBody::Membership { channel, custom, uuid, status, updated, tag } => {
                ObjectDataBodyModel::Membership {
                    channel: channel.deep_view(),
                    custom: custom.deep_view(),
                    uuid: uuid.deep_view(),
                    status: status.deep_view(),
                    updated: updated.deep_view(),
                    tag: tag.deep_view(),
                }
            },
        }
    }
}

/// Wire body of a message action change.
#[derive(Debug, PartialEq)]
pub struct MessageActionData {
    /// Timetoken of the message the action belongs to.
    pub message_timetoken: String,
    /// Timetoken of the action itself.
    pub action_timetoken: String,
    /// Action type.
    pub action_type: String,
    /// Value associated with the action type.
    pub value: String,
}

/// Ghost counterpart of [`MessageActionData`].
pub ghost struct MessageActionDataModel {
    pub message_timetoken: Seq<char>,
    pub action_timetoken: Seq<char>,
    pub action_type: Seq<char>,
    pub value: Seq<char>,
}

impl DeepView for MessageActionData {
    type V = MessageActionDataModel;

    open spec fn deep_view(&self) -> MessageActionDataModel {
        MessageActionDataModel {
            message_timetoken: self.message_timetoken.deep_view(),
            action_timetoken: self.action_timetoken.deep_view(),
            action_type: self.action_type.deep_view(),
            value: self.value.deep_view(),
        }
    }
}

/// Wire body of a file event.
#[derive(Debug, PartialEq)]
pub struct FileData {
    /// Unique identifier of the uploaded file.
    pub id: String,
    /// Name under which the file is stored.
    pub name: String,
}

/// Ghost counterpart of [`FileData`].
pub ghost struct FileDataModel {
    pub id: Seq<char>,
    pub name: Seq<char>,
}

impl DeepView for FileData {
    type V = FileDataModel;

    open spec fn deep_view(&self) -> FileDataModel {
        FileDataModel { id: self.id.deep_view(), name: self.name.deep_view() }
    }
}

/// Decoded payload of one envelope.
#[derive(Debug, PartialEq)]
pub enum EnvelopePayload {
    /// A presence event.
    Presence {
        /// What happened: `join`, `leave`, `timeout`, `interval` or a
        /// state change; missing means `interval`.
        action: Option<String>,
        /// Unix timestamp of the event.
        timestamp: usize,
        /// The user the event is about, where one is named.
        uuid: Option<String>,
        /// Channel occupancy after the event.
        occupancy: Option<usize>,
        /// Updated user state, for state changes.
        data: Option<String>,
        /// Users that joined since the last interval update.
        join: Option<Vec<String>>,
        /// Users that left since the last interval update.
        leave: Option<Vec<String>>,
        /// Users that timed out since the last interval update.
        timeout: Option<Vec<String>>,
    },
    /// An object change event.
    Object {
        /// Whether the object was updated or deleted.
        event: String,
        /// Which object kind the event is about: `channel`, `uuid` or
        /// `membership`.
        update_type: String,
        /// The changed object.
        data: ObjectDataBody,
    },
    /// A message action change event.
    MessageAction {
        /// Whether the action was added or removed.
        event: String,
        /// The changed action.
        data: MessageActionData,
    },
    /// A file sharing event.
    File {
        /// Message associated with the uploaded file.
        message: String,
        /// The shared file.
        file: FileData,
    },
    /// A payload in a caller-defined shape, kept as raw text.
    Custom(String),
    /// A general payload, kept as raw text.
    General(String),
}

/// Ghost counterpart of [`EnvelopePayload`].
pub ghost enum EnvelopePayloadModel {
    Presence {
        action: Option<Seq<char>>,
        timestamp: usize,
        uuid: Option<Seq<char>>,
        occupancy: Option<usize>,
        data: Option<Seq<char>>,
        join: Option<Seq<Seq<char>>>,
        leave: Option<Seq<Seq<char>>>,
        timeout: Option<Seq<Seq<char>>>,
    },
    Object { event: Seq<char>, update_type: Seq<char>, data: ObjectDataBodyModel },
    MessageAction { event: Seq<char>, data: MessageActionDataModel },
    File { message: Seq<char>, file: FileDataModel },
    Custom(Seq<char>),
    General(Seq<char>),
}

impl DeepView for EnvelopePayload {
    type V = EnvelopePayloadModel;

    open spec fn deep_view(&self) -> EnvelopePayloadModel {
        match self {
            EnvelopePayload::Presence {
                action,
                timestamp,
                uuid,
                occupancy,
                data,
                join,
                leave,
                timeout,
            } => EnvelopePayloadModel::Presence {
                action: action.deep_view(),
                timestamp: *timestamp,
                uuid: uuid.deep_view(),
                occupancy: occupancy.deep_view(),
                data: data.deep_view(),
                join: join.deep_view(),
                leave: leave.deep_view(),
                timeout: timeout.deep_view(),
            },
            EnvelopePayload::Object { event, update_type, data } => EnvelopePayloadModel::Object {
                event: event.deep_view(),
                update_type: update_type.deep_view(),
                data: data.deep_view(),
            },
            EnvelopePayload::MessageAction { event, data } => EnvelopePayloadModel::MessageAction {
                event: event.deep_view(),
                data: data.deep_view(),
            },
            EnvelopePayload::File { message, file } => EnvelopePayloadModel::File {
                message: message.deep_view(),
                file: file.deep_view(),
            },
            EnvelopePayload::Custom(s) => EnvelopePayloadModel::Custom(s.deep_view()),
            EnvelopePayload::General(s) => EnvelopePayloadModel::General(s.deep_view()),
        }
    }
}

/// One decoded envelope of a subscribe response.
#[derive(Debug, PartialEq)]
pub struct Envelope {
    /// Channel the update originated on.
    pub channel: String,
    /// Name of the subscription through which it was delivered (possibly
    /// a channel group).
    pub subscription: String,
    /// Client that sent the update, where one is named.
    pub sender: Option<String>,
    /// Per-message time cursor.
    pub published: SubscribeCursor,
    /// Wire discriminator of the payload kind: 0 message, 1 signal,
    /// 2 object, 3 message action, 4 file.
    pub message_type: u32,
    /// The payload itself.
    pub payload: EnvelopePayload,
}

/// Ghost counterpart of [`Envelope`].
pub ghost struct EnvelopeModel {
    pub channel: Seq<char>,
    pub subscription: Seq<char>,
    pub sender: Option<Seq<char>>,
    pub published: CursorModel,
    pub message_type: u32,
    pub payload: EnvelopePayloadModel,
}

impl DeepView for Envelope {
    type V = EnvelopeModel;

    open spec fn deep_view(&self) -> EnvelopeModel {
        EnvelopeModel {
            channel: self.channel.deep_view(),
            subscription: self.subscription.deep_view(),
            sender: self.sender.deep_view(),
            published: self.published.deep_view(),
            message_type: self.message_type,
            payload: self.payload.deep_view(),
        }
    }
}

// ---------------------------------------------------------------------------
// Typed updates
// ---------------------------------------------------------------------------
/// Presence update information: how the occupancy of a channel changed.
#[derive(Debug, PartialEq)]
pub enum Presence {
    /// A remote user joined the channel.
    Join {
        /// Unix timestamp of the event.
        timestamp: usize,
        /// The user that joined.
        uuid: String,
        /// The channel that was joined.
        channel: String,
        /// Channel occupancy after the join.
        occupancy: usize,
    },
    /// A remote user left the channel.
    Leave {
        /// Unix timestamp of the event.
        timestamp: usize,
        /// The channel that was left.
        channel: String,
        /// Channel occupancy after the leave.
        occupancy: usize,
        /// The user that left.
        uuid: String,
    },
    /// A remote user unexpectedly left the channel.
    Timeout {
        /// Unix timestamp of the event.
        timestamp: usize,
        /// The channel on which the user timed out.
        channel: String,
        /// Channel occupancy after the timeout.
        occupancy: usize,
        /// The user that timed out.
        uuid: String,
    },
    /// Summary of joins, leaves and timeouts since the previous interval
    /// update.
    Interval {
        /// Unix timestamp of the event.
        timestamp: usize,
        /// The channel the summary is about.
        channel: String,
        /// Current channel occupancy.
        occupancy: usize,
        /// Users that joined since the last interval update.
        join: Option<Vec<String>>,
        /// Users that left since the last interval update.
        leave: Option<Vec<String>>,
        /// Users that timed out since the last interval update.
        timeout: Option<Vec<String>>,
    },
    /// The state a user associated with the channel changed.
    StateChange {
        /// Unix timestamp of the event.
        timestamp: usize,
        /// The channel the state belongs to.
        channel: String,
        /// The user whose state changed.
        uuid: String,
        /// The updated state.
        data: Option<String>,
    },
}

/// Ghost counterpart of [`Presence`].
pub ghost enum PresenceModel {
    Join { timestamp: usize, uuid: Seq<char>, channel: Seq<char>, occupancy: usize },
    Leave { timestamp: usize, channel: Seq<char>, occupancy: usize, uuid: Seq<char> },
    Timeout { timestamp: usize, channel: Seq<char>, occupancy: usize, uuid: Seq<char> },
    Interval {
        timestamp: usize,
        channel: Seq<char>,
        occupancy: usize,
        join: Option<Seq<Seq<char>>>,
        leave: Option<Seq<Seq<char>>>,
        timeout: Option<Seq<Seq<char>>>,
    },
    StateChange { timestamp: usize, channel: Seq<char>, uuid: Seq<char>, data: Option<Seq<char>> },
}

impl DeepView for Presence {
    type V = PresenceModel;

    open spec fn deep_view(&self) -> PresenceModel {
        match self {
            Presence::Join { timestamp, uuid, channel, occupancy } => PresenceModel::Join {
                timestamp: *timestamp,
                uuid: uuid.deep_view(),
                channel: channel.deep_view(),
                occupancy: *occupancy,
            },
            Presence::Leave { timestamp, channel, occupancy, uuid } => PresenceModel::Leave {
                timestamp: *timestamp,
                channel: channel.deep_view(),
                occupancy: *occupancy,
                uuid: uuid.deep_view(),
            },
            Presence::Timeout { timestamp, channel, occupancy, uuid } => PresenceModel::Timeout {
                timestamp: *timestamp,
                channel: channel.deep_view(),
                occupancy: *occupancy,
                uuid: uuid.deep_view(),
            },
            Presence::Interval { timestamp, channel, occupancy, join, leave, timeout } => {
                PresenceModel::Interval {
                    timestamp: *timestamp,
                    channel: channel.deep_view(),
                    occupancy: *occupancy,
                    join: join.deep_view(),
                    leave: leave.deep_view(),
                    timeout: timeout.deep_view(),
                }
            },
            Presence::StateChange { timestamp, channel, uuid, data } => PresenceModel::StateChange {
                timestamp: *timestamp,
                channel: channel.deep_view(),
                uuid: uuid.deep_view(),
                data: data.deep_view(),
            },
        }
    }
}

/// Object update information: a `channel`, `uuid` or membership object
/// changed or was deleted.
#[derive(Debug, PartialEq)]
pub enum Object {
    /// A `channel` object changed.
    Channel {
        /// What happened to the object.
        event: Option<ObjectEvent>,
        /// When the object changed.
        timestamp: Option<usize>,
        /// The changed object.
        data: ChannelObjectBody,
    },
    /// A `uuid` object changed.
    Uuid {
        /// What happened to the object.
        event: Option<ObjectEvent>,
        /// When the object changed.
        timestamp: Option<usize>,
        /// The changed object.
        data: UuidObjectBody,
    },
    /// A membership changed: the relation of a `uuid` to a `channel`.
    Membership {
        /// What happened to the membership.
        event: Option<ObjectEvent>,
        /// When the membership changed.
        timestamp: Option<usize>,
        /// The channel side of the relation.
        channel: ChannelObjectBody,
        /// Additional caller-defined information.
        custom: CustomFields,
        /// Current status.
        status: Option<String>,
        /// The uuid side of the relation.
        uuid: String,
        /// Most recent modification date.
        updated: String,
        /// Current state hash.
        tag: String,
    },
}

/// Ghost counterpart of [`Object`].
pub ghost enum ObjectModel {
    Channel { event: Option<ObjectEvent>, timestamp: Option<usize>, data: ChannelObjectBodyModel },
    Uuid { event: Option<ObjectEvent>, timestamp: Option<usize>, data: UuidObjectBodyModel },
    Membership {
        event: Option<ObjectEvent>,
        timestamp: Option<usize>,
        channel: ChannelObjectBodyModel,
        custom: CustomFieldsModel,
        status: Option<Seq<char>>,
        uuid: Seq<char>,
        updated: Seq<char>,
        tag: Seq<char>,
    },
}

impl DeepView for Object {
    type V = ObjectModel;

    open spec fn deep_view(&self) -> ObjectModel {
        match self {
            Object::Channel { event, timestamp, data } => ObjectModel::Channel {
                event: *event,
                timestamp: *timestamp,
                data: data.deep_view(),
            },
            Object::Uuid { event, timestamp, data } => ObjectModel::Uuid {
                event: *event,
                timestamp: *timestamp,
                data: data.deep_view(),
            },
            Object::Membership {
                event,
                timestamp,
                channel,
                custom,
                status,
                uuid,
                updated,
                tag,
            } => ObjectModel::Membership {
                event: *event,
                timestamp: *timestamp,
                channel: channel.deep_view(),
                custom: custom.deep_view(),
                status: status.deep_view(),
                uuid: uuid.deep_view(),
                updated: updated.deep_view(),
                tag: tag.deep_view(),
            },
        }
    }
}

/// Message action update information.
#[derive(Debug, PartialEq)]
pub struct MessageAction {
    /// What happened to the action.
    pub event: MessageActionEvent,
    /// Client that changed the action.
    pub sender: String,
    /// When the action changed.
    pub timestamp: usize,
    /// Channel on which the update was received.
    pub channel: String,
    /// Name of the subscription through which it was delivered.
    pub subscription: String,
    /// Timetoken of the message the action belongs to.
    pub message_timetoken: String,
    /// Timetoken of the action itself.
    pub action_timetoken: String,
    /// Action type.
    pub action_type: String,
    /// Value associated with the action type.
    pub value: String,
}

/// Ghost counterpart of [`MessageAction`].
pub ghost struct MessageActionModel {
    pub event: MessageActionEvent,
    pub sender: Seq<char>,
    pub timestamp: usize,
    pub channel: Seq<char>,
    pub subscription: Seq<char>,
    pub message_timetoken: Seq<char>,
    pub action_timetoken: Seq<char>,
    pub action_type: Seq<char>,
    pub value: Seq<char>,
}

impl DeepView for MessageAction {
    type V = MessageActionModel;

    open spec fn deep_view(&self) -> MessageActionModel {
        MessageActionModel {
            event: self.event,
            sender: self.sender.deep_view(),
            timestamp: self.timestamp,
            channel: self.channel.deep_view(),
            subscription: self.subscription.deep_view(),
            message_timetoken: self.message_timetoken.deep_view(),
            action_timetoken: self.action_timetoken.deep_view(),
            action_type: self.action_type.deep_view(),
            value: self.value.deep_view(),
        }
    }
}

/// File sharing information.
#[derive(Debug, PartialEq)]
pub struct File {
    /// Client that shared the file.
    pub sender: String,
    /// When the file was shared.
    pub timestamp: usize,
    /// Channel on which the update was received.
    pub channel: String,
    /// Name of the subscription through which it was delivered.
    pub subscription: String,
    /// Message associated with the uploaded file.
    pub message: String,
    /// Unique identifier of the uploaded file.
    pub id: String,
    /// Name under which the file is stored.
    pub name: String,
}

/// Ghost counterpart of [`File`].
pub ghost struct FileModel {
    pub sender: Seq<char>,
    pub timestamp: usize,
    pub channel: Seq<char>,
    pub subscription: Seq<char>,
    pub message: Seq<char>,
    pub id: Seq<char>,
    pub name: Seq<char>,
}

impl DeepView for File {
    type V = FileModel;

    open spec fn deep_view(&self) -> FileModel {
        FileModel {
            sender: self.sender.deep_view(),
            timestamp: self.timestamp,
            channel: self.channel.deep_view(),
            subscription: self.subscription.deep_view(),
            message: self.message.deep_view(),
            id: self.id.deep_view(),
            name: self.name.deep_view(),
        }
    }
}

/// A published message or signal payload.
#[derive(Debug, PartialEq)]
pub enum Message {
    /// A payload in a caller-defined shape, kept as raw text.
    Custom(String),
    /// A general payload, kept as raw text.
    General(String),
}

/// Ghost counterpart of [`Message`].
pub ghost enum MessageModel {
    Custom(Seq<char>),
    General(Seq<char>),
}

impl DeepView for Message {
    type V = MessageModel;

    open spec fn deep_view(&self) -> MessageModel {
        match self {
            Message::Custom(s) => MessageModel::Custom(s.deep_view()),
            Message::General(s) => MessageModel::General(s.deep_view()),
        }
    }
}

/// A decoded real-time update, ready to hand to listeners. Every variant
/// names the channel it originated on.
#[derive(Debug, PartialEq)]
pub enum Update {
    /// A regular published message.
    Message {
        /// Channel the message originated on.
        channel: String,
        /// The message payload.
        message: Message,
    },
    /// A signal.
    Signal {
        /// Channel the signal originated on.
        channel: String,
        /// The signal payload.
        message: Message,
    },
    /// A presence event.
    Presence {
        /// Channel the event is about.
        channel: String,
        /// The presence event.
        presence: Presence,
    },
    /// An object change.
    Object {
        /// Channel the change was delivered on.
        channel: String,
        /// The object change.
        object: Object,
    },
    /// A message action change.
    MessageAction {
        /// Channel the change was delivered on.
        channel: String,
        /// The action change.
        action: MessageAction,
    },
    /// A file sharing event.
    File {
        /// Channel the event was delivered on.
        channel: String,
        /// The file event.
        file: File,
    },
}

/// Ghost counterpart of [`Update`].
pub ghost enum UpdateModel {
    Message { channel: Seq<char>, message: MessageModel },
    Signal { channel: Seq<char>, message: MessageModel },
    Presence { channel: Seq<char>, presence: PresenceModel },
    Object { channel: Seq<char>, object: ObjectModel },
    MessageAction { channel: Seq<char>, action: MessageActionModel },
    File { channel: Seq<char>, file: FileModel },
}

impl DeepView for Update {
    type V = UpdateModel;

    open spec fn deep_view(&self) -> UpdateModel {
        match self {
            Update::Message { channel, message } => UpdateModel::Message {
                channel: channel.deep_view(),
                message: message.deep_view(),
            },
            Update::Signal { channel, message } => UpdateModel::Signal {
                channel: channel.deep_view(),
                message: message.deep_view(),
            },
            Update::Presence { channel, presence } => UpdateModel::Presence {
                channel: channel.deep_view(),
                presence: presence.deep_view(),
            },
            Update::Object { channel, object } => UpdateModel::Object {
                channel: channel.deep_view(),
                object: object.deep_view(),
            },
            Update::MessageAction { channel, action } => UpdateModel::MessageAction {
                channel: channel.deep_view(),
                action: action.deep_view(),
            },
            Update::File { channel, file } => UpdateModel::File {
                channel: channel.deep_view(),
                file: file.deep_view(),
            },
        }
    }
}

/// The channel an update originated on.
pub open spec fn spec_update_channel(u: UpdateModel) -> Seq<char> {
    match u {
        UpdateModel::Message { channel, .. } => channel,
        UpdateModel::Signal { channel, .. } => channel,
        UpdateModel::Presence { channel, .. } => channel,
        UpdateModel::Object { channel, .. } => channel,
        UpdateModel::MessageAction { channel, .. } => channel,
        UpdateModel::File { channel, .. } => channel,
    }
}

impl Update {
    /// The channel this update originated on.
    pub fn channel(&self) -> (r: String)
        ensures
            r@ == spec_update_channel(self.deep_view()),
    {
        match self {
            Update::Message { channel, .. } => channel.clone(),
            Update::Signal { channel, .. } => channel.clone(),
            Update::Presence { channel, .. } => channel.clone(),
            Update::Object { channel, .. } => channel.clone(),
            Update::MessageAction { channel, .. } => channel.clone(),
            Update::File { channel, .. } => channel.clone(),
        }
    }
}

// ---------------------------------------------------------------------------
// Decoding envelopes into typed updates
// ---------------------------------------------------------------------------
/// The string, or empty when it is missing.
pub open spec fn spec_or_empty(o: Option<Seq<char>>) -> Seq<char> {
    match o {
        Some(s) => s,
        None => Seq::<char>::empty(),
    }
}

/// The count, or zero when it is missing.
pub open spec fn spec_or_zero(o: Option<usize>) -> usize {
    match o {
        Some(v) => v,
        None => 0,
    }
}

/// The object event an event name denotes, if any.
pub open spec fn spec_object_event(e: Seq<char>) -> Option<ObjectEvent> {
    if e == "update"@ {
        Some(ObjectEvent::Update)
    } else if e == "delete"@ {
        Some(ObjectEvent::Delete)
    } else {
        None
    }
}

/// The message action event an event name denotes, if any.
pub open spec fn spec_message_action_event(e: Seq<char>) -> Option<MessageActionEvent> {
    if e == "update"@ {
        Some(MessageActionEvent::Update)
    } else if e == "delete"@ {
        Some(MessageActionEvent::Delete)
    } else {
        None
    }
}

/// The presence event an envelope denotes: the action name picks the
/// variant (a missing action means `interval`; an unknown one is a state
/// change); nothing when the payload is not a presence payload.
pub open spec fn spec_presence_update(env: EnvelopeModel) -> Option<PresenceModel> {
    match env.payload {
        EnvelopePayloadModel::Presence {
            action,
            timestamp,
            uuid,
            occupancy,
            data,
            join,
            leave,
            timeout,
        } => {
            let act = spec_or_empty_interval(action);
            if act == "join"@ {
                Some(
                    PresenceModel::Join {
                        timestamp,
                        uuid: spec_or_empty(uuid),
                        channel: env.channel,
                        occupancy: spec_or_zero(occupancy),
                    },
                )
            } else if act == "leave"@ {
                Some(
                    PresenceModel::Leave {
                        timestamp,
                        channel: env.channel,
                        occupancy: spec_or_zero(occupancy),
                        uuid: spec_or_empty(uuid),
                    },
                )
            } else if act == "timeout"@ {
                Some(
                    PresenceModel::Timeout {
                        timestamp,
                        channel: env.channel,
                        occupancy: spec_or_zero(occupancy),
                        uuid: spec_or_empty(uuid),
                    },
                )
            } else if act == "interval"@ {
                Some(
                    PresenceModel::Interval {
                        timestamp,
                        channel: env.channel,
                        occupancy: spec_or_zero(occupancy),
                        join,
                        leave,
                        timeout,
                    },
                )
            } else {
                Some(
                    PresenceModel::StateChange {
                        timestamp,
                        channel: env.channel,
                        uuid: spec_or_empty(uuid),
                        data,
                    },
                )
            }
        },
        _ => None,
    }
}

/// The action name, or `interval` when it is missing.
pub open spec fn spec_or_empty_interval(o: Option<Seq<char>>) -> Seq<char> {
    match o {
        Some(s) => s,
        None => "interval"@,
    }
}

/// The object change an envelope denotes: the `update_type` must agree
/// with the kind of the carried data and the event name must be a known
/// object event; nothing otherwise, or when the payload is not an object
/// payload.
pub open spec fn spec_object_update(env: EnvelopeModel) -> Option<ObjectModel> {
    match env.payload {
        EnvelopePayloadModel::Object { event, update_type, data } => {
            let ts = spec_parse_usize(env.published.timetoken);
            match data {
                ObjectDataBodyModel::Channel(c) => if update_type == "channel"@ {
                    match spec_object_event(event) {
                        Some(ev) => Some(
                            ObjectModel::Channel { event: Some(ev), timestamp: ts, data: c },
                        ),
                        None => None,
                    }
                } else {
                    None
                },
                ObjectDataBodyModel::Uuid(u) => if update_type == "uuid"@ {
                    match spec_object_event(event) {
                        Some(ev) => Some(
                            ObjectModel::Uuid { event: Some(ev), timestamp: ts, data: u },
                        ),
                        None => None,
                    }
                } else {
                    None
                },
                ObjectDataBodyModel::Membership {
                    channel,
                    custom,
                    uuid,
                    status,
                    updated,
                    tag,
                } => if update_type == "membership"@ {
                    match spec_object_event(event) {
                        Some(ev) => Some(
                            ObjectModel::Membership {
                                event: Some(ev),
                                timestamp: ts,
                                channel,
                                custom,
                                status,
                                uuid,
                                updated,
                                tag,
                            },
                        ),
                        None => None,
                    }
                } else {
                    None
                },
            }
        },
        _ => None,
    }
}

/// The message action change an envelope denotes: the event name must be
/// a known action event; nothing otherwise, or when the payload is not a
/// message action payload.
pub open spec fn spec_message_action_update(env: EnvelopeModel) -> Option<MessageActionModel> {
    match env.payload {
        EnvelopePayloadModel::MessageAction { event, data } => match spec_message_action_event(
            event,
        ) {
            Some(ev) => Some(
                MessageActionModel {
                    event: ev,
                    sender: spec_or_empty(env.sender),
                    timestamp: spec_or_zero(spec_parse_usize(env.published.timetoken)),
                    channel: env.channel,
                    subscription: env.subscription,
                    message_timetoken: data.message_timetoken,
                    action_timetoken: data.action_timetoken,
                    action_type: data.action_type,
                    value: data.value,
                },
            ),
            None => None,
        },
        _ => None,
    }
}

/// The file event an envelope denotes; nothing when the payload is not a
/// file payload.
pub open spec fn spec_file_update(env: EnvelopeModel) -> Option<FileModel> {
    match env.payload {
        EnvelopePayloadModel::File { message, file } => Some(
            FileModel {
                sender: spec_or_empty(env.sender),
                timestamp: spec_or_zero(spec_parse_usize(env.published.timetoken)),
                channel: env.channel,
                subscription: env.subscription,
                message,
                id: file.id,
                name: file.name,
            },
        ),
        _ => None,
    }
}

/// The message or signal payload an envelope denotes; nothing when the
/// payload is neither custom nor general.
pub open spec fn spec_message_update(env: EnvelopeModel) -> Option<MessageModel> {
    match env.payload {
        EnvelopePayloadModel::Custom(d) => Some(MessageModel::Custom(d)),
        EnvelopePayloadModel::General(d) => Some(MessageModel::General(d)),
        _ => None,
    }
}

impl Presence {
    /// Decode a presence event out of an envelope; any other payload is a
    /// deserialization error.
    pub fn try_from(value: Envelope) -> (r: Result<Presence, PubNubError>)
        ensures
            match spec_presence_update(value.deep_view()) {
                Some(p) => r matches Ok(pr) && pr.deep_view() == p,
                None => r matches Err(e) && e.deep_view() matches PubNubErrorModel::Deserialization {
                    ..
                },
            },
    {
        let Envelope { channel, payload, .. } = value;
        match payload {
            EnvelopePayload::Presence {
                action,
                timestamp,
                uuid,
                occupancy,
                data,
                join,
                leave,
                timeout,
            } => {
                let act: String = match action {
                    Some(a) => a,
                    None => "interval".to_owned(),
                };
                let uuid_or_empty: String = match uuid {
                    Some(u) => u,
                    None => String::new(),
                };
                let occ: usize = match occupancy {
                    Some(o) => o,
                    None => 0,
                };
                if str_eq(act.as_str(), "join") {
                    Ok(
                        Presence::Join {
                            timestamp,
                            uuid: uuid_or_empty,
                            channel,
                            occupancy: occ,
                        },
                    )
                } else if str_eq(act.as_str(), "leave") {
                    Ok(
                        Presence::Leave {
                            timestamp,
                            channel,
                            occupancy: occ,
                            uuid: uuid_or_empty,
                        },
                    )
                } else if str_eq(act.as_str(), "timeout") {
                    Ok(
                        Presence::Timeout {
                            timestamp,
                            channel,
                            occupancy: occ,
                            uuid: uuid_or_empty,
                        },
                    )
                } else if str_eq(act.as_str(), "interval") {
                    Ok(
                        Presence::Interval {
                            timestamp,
                            channel,
                            occupancy: occ,
                            join,
                            leave,
                            timeout,
                        },
                    )
                } else {
                    Ok(Presence::StateChange { timestamp, channel, uuid: uuid_or_empty, data })
                }
            },
            _ => Err(
                PubNubError::Deserialization {
                    details: "Unable deserialize: unexpected payload for presence.".to_owned(),
                },
            ),
        }
    }
}

impl Object {
    /// Decode an object change out of an envelope; a payload of another
    /// kind, a mismatched `update_type` or an unknown event name is a
    /// deserialization error.
    pub fn try_from(value: Envelope) -> (r: Result<Object, PubNubError>)
        ensures
            match spec_object_update(value.deep_view()) {
                Some(o) => r matches Ok(ob) && ob.deep_view() == o,
                None => r matches Err(e) && e.deep_view() matches PubNubErrorModel::Deserialization {
                    ..
                },
            },
    {
        let Envelope { published, payload, .. } = value;
        let timestamp = crate::strings::parse_usize(published.timetoken.as_str());
        match payload {
            EnvelopePayload::Object { event, update_type, data } => match data {
                ObjectDataBody::Channel(c) => if str_eq(update_type.as_str(), "channel") {
                    match ObjectEvent::try_from(event) {
                        Ok(ev) => Ok(Object::Channel { event: Some(ev), timestamp, data: c }),
                        Err(e) => Err(e),
                    }
                } else {
                    Err(
                        PubNubError::Deserialization {
                            details: "Unable deserialize: unknown object type.".to_owned(),
                        },
                    )
                },
                ObjectDataBody::Uuid(u) => if str_eq(update_type.as_str(), "uuid") {
                    match ObjectEvent::try_from(event) {
                        Ok(ev) => Ok(Object::Uuid { event: Some(ev), timestamp, data: u }),
                        Err(e) => Err(e),
                    }
                } else {
                    Err(
                        PubNubError::Deserialization {
                            details: "Unable deserialize: unknown object type.".to_owned(),
                        },
                    )
                },
                ObjectDataBody::Membership { channel, custom, uuid, status, updated, tag } => if
                str_eq(update_type.as_str(), "membership") {
                    match ObjectEvent::try_from(event) {
                        Ok(ev) => Ok(
                            Object::Membership {
                                event: Some(ev),
                                timestamp,
                                channel,
                                custom,
                                status,
                                uuid,
                                updated,
                                tag,
                            },
                        ),
                        Err(e) => Err(e),
                    }
                } else {
                    Err(
                        PubNubError::Deserialization {
                            details: "Unable deserialize: unknown object type.".to_owned(),
                        },
                    )
                },
            },
            _ => Err(
                PubNubError::Deserialization {
                    details: "Unable deserialize: unexpected payload for object.".to_owned(),
                },
            ),
        }
    }
}

impl MessageAction {
    /// Decode a message action change out of an envelope; a payload of
    /// another kind or an unknown event name is a deserialization error.
    pub fn try_from(value: Envelope) -> (r: Result<MessageAction, PubNubError>)
        ensures
            match spec_message_action_update(value.deep_view()) {
                Some(a) => r matches Ok(ac) && ac.deep_view() == a,
                None => r matches Err(e) && e.deep_view() matches PubNubErrorModel::Deserialization {
                    ..
                },
            },
    {
        let Envelope { channel, subscription, sender, published, payload, .. } = value;
        let timestamp = match crate::strings::parse_usize(published.timetoken.as_str()) {
            Some(v) => v,
            None => 0,
        };
        let sender_or_empty: String = match sender {
            Some(s) => s,
            None => String::new(),
        };
        match payload {
            EnvelopePayload::MessageAction { event, data } => match MessageActionEvent::try_from(
                event,
            ) {
                Ok(ev) => Ok(
                    MessageAction {
                        event: ev,
                        sender: sender_or_empty,
                        timestamp,
                        channel,
                        subscription,
                        message_timetoken: data.message_timetoken,
                        action_timetoken: data.action_timetoken,
                        action_type: data.action_type,
                        value: data.value,
                    },
                ),
                Err(e) => Err(e),
            },
            _ => Err(
                PubNubError::Deserialization {
                    details: "Unable deserialize: unexpected payload for message action.".to_owned(),
                },
            ),
        }
    }
}

impl File {
    /// Decode a file event out of an envelope; any other payload is a
    /// deserialization error.
    pub fn try_from(value: Envelope) -> (r: Result<File, PubNubError>)
        ensures
            match spec_file_update(value.deep_view()) {
                Some(f) => r matches Ok(fi) && fi.deep_view() == f,
                None => r matches Err(e) && e.deep_view() matches PubNubErrorModel::Deserialization {
                    ..
                },
            },
    {
        let Envelope { channel, subscription, sender, published, payload, .. } = value;
        let timestamp = match crate::strings::parse_usize(published.timetoken.as_str()) {
            Some(v) => v,
            None => 0,
        };
        let sender_or_empty: String = match sender {
            Some(s) => s,
            None => String::new(),
        };
        match payload {
            EnvelopePayload::File { message, file } => Ok(
                File {
                    sender: sender_or_empty,
                    timestamp,
                    channel,
                    subscription,
                    message,
                    id: file.id,
                    name: file.name,
                },
            ),
            _ => Err(
                PubNubError::Deserialization {
                    details: "Unable deserialize: unexpected payload for file.".to_owned(),
                },
            ),
        }
    }
}

impl Message {
    /// Decode a message or signal payload out of an envelope; any other
    /// payload is a deserialization error.
    pub fn try_from(value: Envelope) -> (r: Result<Message, PubNubError>)
        ensures
            match spec_message_update(value.deep_view()) {
                Some(m) => r matches Ok(ms) && ms.deep_view() == m,
                None => r matches Err(e) && e.deep_view() matches PubNubErrorModel::Deserialization {
                    ..
                },
            },
    {
        match value.payload {
            EnvelopePayload::Custom(d) => Ok(Message::Custom(d)),
            EnvelopePayload::General(d) => Ok(Message::General(d)),
            _ => Err(
                PubNubError::Deserialization {
                    details: "Unable deserialize: unexpected payload for message / signal.".to_owned(),
                },
            ),
        }
    }
}

impl Clone for ChannelObjectBody {
    /// Copy of the body with the same content.
    fn clone(&self) -> (r: Self)
        ensures
            r.deep_view() == self.deep_view(),
    {
        ChannelObjectBody {
            name: clone_opt_string(&self.name),
            description: clone_opt_string(&self.description),
            type_info: clone_opt_string(&self.type_info),
            status: clone_opt_string(&self.status),
            id: self.id.clone(),
            custom: crate::error::clone_opt_string_pairs(&self.custom),
            updated: self.updated.clone(),
            tag: self.tag.clone(),
        }
    }
}

impl Clone for UuidObjectBody {
    /// Copy of the body with the same content.
    fn clone(&self) -> (r: Self)
        ensures
            r.deep_view() == self.deep_view(),
    {
        UuidObjectBody {
            name: clone_opt_string(&self.name),
            email: clone_opt_string(&self.email),
            external_id: clone_opt_string(&self.external_id),
            profile_url: clone_opt_string(&self.profile_url),
            type_info: clone_opt_string(&self.type_info),
            status: clone_opt_string(&self.status),
            id: self.id.clone(),
            custom: crate::error::clone_opt_string_pairs(&self.custom),
            updated: self.updated.clone(),
            tag: self.tag.clone(),
        }
    }
}

impl Clone for Presence {
    /// Copy of the presence event with the same content.
    fn clone(&self) -> (r: Self)
        ensures
            r.deep_view() == self.deep_view(),
    {
        match self {
            Presence::Join { timestamp, uuid, channel, occupancy } => Presence::Join {
                timestamp: *timestamp,
                uuid: uuid.clone(),
                channel: channel.clone(),
                occupancy: *occupancy,
            },
            Presence::Leave { timestamp, channel, occupancy, uuid } => Presence::Leave {
                timestamp: *timestamp,
                channel: channel.clone(),
                occupancy: *occupancy,
                uuid: uuid.clone(),
            },
            Presence::Timeout { timestamp, channel, occupancy, uuid } => Presence::Timeout {
                timestamp: *timestamp,
                channel: channel.clone(),
                occupancy: *occupancy,
                uuid: uuid.clone(),
            },
            Presence::Interval { timestamp, channel, occupancy, join, leave, timeout } => {
                Presence::Interval {
                    timestamp: *timestamp,
                    channel: channel.clone(),
                    occupancy: *occupancy,
                    join: clone_opt_string_vec(join),
                    leave: clone_opt_string_vec(leave),
                    timeout: clone_opt_string_vec(timeout),
                }
            },
            Presence::StateChange { timestamp, channel, uuid, data } => Presence::StateChange {
                timestamp: *timestamp,
                channel: channel.clone(),
                uuid: uuid.clone(),
                data: clone_opt_string(data),
            },
        }
    }
}

impl Clone for Object {
    /// Copy of the object change with the same content.
    fn clone(&self) -> (r: Self)
        ensures
            r.deep_view() == self.deep_view(),
    {
        match self {
            Object::Channel { event, timestamp, data } => Object::Channel {
                event: *event,
                timestamp: *timestamp,
                data: data.clone(),
            },
            Object::Uuid { event, timestamp, data } => Object::Uuid {
                event: *event,
                timestamp: *timestamp,
                data: data.clone(),
            },
            Object::Membership {
                event,
                timestamp,
                channel,
                custom,
                status,
                uuid,
                updated,
                tag,
            } => Object::Membership {
                event: *event,
                timestamp: *timestamp,
                channel: channel.clone(),
                custom: crate::error::clone_opt_string_pairs(custom),
                status: clone_opt_string(status),
                uuid: uuid.clone(),
                updated: updated.clone(),
                tag: tag.clone(),
            },
        }
    }
}

impl Clone for MessageAction {
    /// Copy of the action change with the same content.
    fn clone(&self) -> (r: Self)
        ensures
            r.deep_view() == self.deep_view(),
    {
        MessageAction {
            event: self.event,
            sender: self.sender.clone(),
            timestamp: self.timestamp,
            channel: self.channel.clone(),
            subscription: self.subscription.clone(),
            message_timetoken: self.message_timetoken.clone(),
            action_timetoken: self.action_timetoken.clone(),
            action_type: self.action_type.clone(),
            value: self.value.clone(),
        }
    }
}

impl Clone for File {
    /// Copy of the file event with the same content.
    fn clone(&self) -> (r: Self)
        ensures
            r.deep_view() == self.deep_view(),
    {
        File {
            sender: self.sender.clone(),
            timestamp: self.timestamp,
            channel: self.channel.clone(),
            subscription: self.subscription.clone(),
            message: self.message.clone(),
            id: self.id.clone(),
            name: self.name.clone(),
        }
    }
}

impl Clone for Message {
    /// Copy of the payload with the same content.
    fn clone(&self) -> (r: Self)
        ensures
            r.deep_view() == self.deep_view(),
    {
        match self {
            Message::Custom(s) => Message::Custom(s.clone()),
            Message::General(s) => Message::General(s.clone()),
        }
    }
}

impl Clone for Update {
    /// Copy of the update with the same content.
    fn clone(&self) -> (r: Self)
        ensures
            r.deep_view() == self.deep_view(),
    {
        match self {
            Update::Message { channel, message } => Update::Message {
                channel: channel.clone(),
                message: message.clone(),
            },
            Update::Signal { channel, message } => Update::Signal {
                channel: channel.clone(),
                message: message.clone(),
            },
            Update::Presence { channel, presence } => Update::Presence {
                channel: channel.clone(),
                presence: presence.clone(),
            },
            Update::Object { channel, object } => Update::Object {
                channel: channel.clone(),
                object: object.clone(),
            },
            Update::MessageAction { channel, action } => Update::MessageAction {
                channel: channel.clone(),
                action: action.clone(),
            },
            Update::File { channel, file } => Update::File {
                channel: channel.clone(),
                file: file.clone(),
            },
        }
    }
}

/// Copy a list of updates, element by element.
pub fn clone_update_vec(v: &Vec<Update>) -> (r: Vec<Update>)
    ensures
        r.deep_view() == v.deep_view(),
{
    let mut r: Vec<Update> = Vec::new();
    let n = v.len();
    let mut i: usize = 0;
    while i < n
        invariant
            n == v.len(),
            0 <= i <= n,
            r@.len() == i,
            forall|j: int| 0 <= j < i ==> #[trigger] r@[j].deep_view() == v@[j].deep_view(),
        decreases n - i,
    {
        let x = v[i].clone();
        proof {
            assert(x.deep_view() == v@[i as int].deep_view());
        }
        r.push(x);
        i = i + 1;
    }
    proof {
        assert(r.deep_view() =~= v.deep_view());
    }
    r
}

/// The typed update an envelope denotes: a presence payload becomes a
/// presence update whatever the wire discriminator says; any other payload
/// goes by the discriminator, and must agree with it.
pub open spec fn spec_envelope_update(env: EnvelopeModel) -> Option<UpdateModel> {
    match env.payload {
        EnvelopePayloadModel::Presence { .. } => match spec_presence_update(env) {
            Some(p) => Some(UpdateModel::Presence { channel: env.channel, presence: p }),
            None => None,
        },
        _ => match spec_message_type_from_code(env.message_type) {
            Some(SubscribeMessageType::Message) => match spec_message_update(env) {
                Some(m) => Some(UpdateModel::Message { channel: env.channel, message: m }),
                None => None,
            },
            Some(SubscribeMessageType::Signal) => match spec_message_update(env) {
                Some(m) => Some(UpdateModel::Signal { channel: env.channel, message: m }),
                None => None,
            },
            Some(SubscribeMessageType::Object) => match spec_object_update(env) {
                Some(o) => Some(UpdateModel::Object { channel: env.channel, object: o }),
                None => None,
            },
            Some(SubscribeMessageType::MessageAction) => match spec_message_action_update(env) {
                Some(a) => Some(UpdateModel::MessageAction { channel: env.channel, action: a }),
                None => None,
            },
            Some(SubscribeMessageType::File) => match spec_file_update(env) {
                Some(f) => Some(UpdateModel::File { channel: env.channel, file: f }),
                None => None,
            },
            None => None,
        },
    }
}

impl Update {
    /// Decode an envelope into the typed update it denotes; an unknown
    /// discriminator or a payload that disagrees with it is a
    /// deserialization error.
    pub fn try_from(value: Envelope) -> (r: Result<Update, PubNubError>)
        ensures
            match spec_envelope_update(value.deep_view()) {
                Some(u) => r matches Ok(up) && up.deep_view() == u,
                None => r matches Err(e) && e.deep_view() matches PubNubErrorModel::Deserialization {
                    ..
                },
            },
    {
        let channel = value.channel.clone();
        if matches!(value.payload, EnvelopePayload::Presence { .. }) {
            match Presence::try_from(value) {
                Ok(p) => Ok(Update::Presence { channel, presence: p }),
                Err(e) => Err(e),
            }
        } else {
            match SubscribeMessageType::from_code(value.message_type) {
                Some(SubscribeMessageType::Message) => match Message::try_from(value) {
                    Ok(m) => Ok(Update::Message { channel, message: m }),
                    Err(e) => Err(e),
                },
                Some(SubscribeMessageType::Signal) => match Message::try_from(value) {
                    Ok(m) => Ok(Update::Signal { channel, message: m }),
                    Err(e) => Err(e),
                },
                Some(SubscribeMessageType::Object) => match Object::try_from(value) {
                    Ok(o) => Ok(Update::Object { channel, object: o }),
                    Err(e) => Err(e),
                },
                Some(SubscribeMessageType::MessageAction) => match MessageAction::try_from(value) {
                    Ok(a) => Ok(Update::MessageAction { channel, action: a }),
                    Err(e) => Err(e),
                },
                Some(SubscribeMessageType::File) => match File::try_from(value) {
                    Ok(f) => Ok(Update::File { channel, file: f }),
                    Err(e) => Err(e),
                },
                None => Err(
                    PubNubError::Deserialization {
                        details: "Unable deserialize: unknown message type.".to_owned(),
                    },
                ),
            }
        }
    }
}

} // verus!
