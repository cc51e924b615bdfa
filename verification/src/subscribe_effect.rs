//! Effect invocations of the subscribe engine.
//!
//! A transition returns a list of invocations: cancellations for the
//! effects of the state being left, emit instructions for statuses and
//! messages, and the primary effect of the state being entered. Each
//! start invocation has a stable string id; its cancellation pairs with
//! it by name.

use vstd::prelude::*;

use crate::error::{PubNubError, PubNubErrorModel};
use crate::input::{InputModel, SubscribeInput};
use crate::retry::RequestRetryPolicy;
use crate::subscribe_types::{CursorModel, StatusModel, SubscribeCursor, SubscribeStatus};
use crate::update::{clone_update_vec, Update, UpdateModel};

verus! {

/// One instruction of a transition to the effect dispatcher.
#[derive(Debug, PartialEq)]
pub enum SubscribeEffectInvocation {
    /// Start the initial subscription handshake.
    Handshake {
        /// Channels and groups to subscribe.
        input: SubscribeInput,
        /// Caller-provided cursor to catch up from, if any.
        cursor: Option<SubscribeCursor>,
    },
    /// Abort the in-flight handshake.
    CancelHandshake,
    /// Start a handshake retry, gated by the retry policy.
    HandshakeReconnect {
        /// Channels and groups to subscribe.
        input: SubscribeInput,
        /// Caller-provided cursor to catch up from, if any.
        cursor: Option<SubscribeCursor>,
        /// Which retry attempt this is.
        attempts: u8,
        /// The failure that caused the retry.
        reason: PubNubError,
    },
    /// Abort the in-flight handshake retry.
    CancelHandshakeReconnect,
    /// Start a long-poll receive from the cursor.
    Receive {
        /// Channels and groups to receive for.
        input: SubscribeInput,
        /// Where in the stream to receive from.
        cursor: SubscribeCursor,
    },
    /// Abort the in-flight receive.
    CancelReceive,
    /// Start a receive retry, gated by the retry policy.
    ReceiveReconnect {
        /// Channels and groups to receive for.
        input: SubscribeInput,
        /// Where in the stream to receive from.
        cursor: SubscribeCursor,
        /// Which retry attempt this is.
        attempts: u8,
        /// The failure that caused the retry.
        reason: PubNubError,
    },
    /// Abort the in-flight receive retry.
    CancelReceiveReconnect,
    /// Hand a status to the registered listeners.
    EmitStatus(SubscribeStatus),
    /// Hand received updates to the registered listeners.
    EmitMessages(Vec<Update>),
}

/// Ghost counterpart of [`SubscribeEffectInvocation`].
pub ghost enum InvocationModel {
    Handshake { input: InputModel, cursor: Option<CursorModel> },
    CancelHandshake,
    HandshakeReconnect {
        input: InputModel,
        cursor: Option<CursorModel>,
        attempts: u8,
        reason: PubNubErrorModel,
    },
    CancelHandshakeReconnect,
    Receive { input: InputModel, cursor: CursorModel },
    CancelReceive,
    ReceiveReconnect {
        input: InputModel,
        cursor: CursorModel,
        attempts: u8,
        reason: PubNubErrorModel,
    },
    CancelReceiveReconnect,
    EmitStatus(StatusModel),
    EmitMessages(Seq<UpdateModel>),
}

impl DeepView for SubscribeEffectInvocation {
    type V = InvocationModel;

    open spec fn deep_view(&self) -> InvocationModel {
        match self {
            SubscribeEffectInvocation::Handshake { input, cursor } => InvocationModel::Handshake {
                input: input.deep_view(),
                cursor: cursor.deep_view(),
            },
            SubscribeEffectInvocation::CancelHandshake => InvocationModel::CancelHandshake,
            SubscribeEffectInvocation::HandshakeReconnect { input, cursor, attempts, reason } => {
                InvocationModel::HandshakeReconnect {
                    input: input.deep_view(),
                    cursor: cursor.deep_view(),
                    attempts: *attempts,
                    reason: reason.deep_view(),
                }
            },
            SubscribeEffectInvocation::CancelHandshakeReconnect => {
                InvocationModel::CancelHandshakeReconnect
            },
            SubscribeEffectInvocation::Receive { input, cursor } => InvocationModel::Receive {
                input: input.deep_view(),
                cursor: cursor.deep_view(),
            },
            SubscribeEffectInvocation::CancelReceive => InvocationModel::CancelReceive,
            SubscribeEffectInvocation::ReceiveReconnect { input, cursor, attempts, reason } => {
                InvocationModel::ReceiveReconnect {
                    input: input.deep_view(),
                    cursor: cursor.deep_view(),
                    attempts: *attempts,
                    reason: reason.deep_view(),
                }
            },
            SubscribeEffectInvocation::CancelReceiveReconnect => {
                InvocationModel::CancelReceiveReconnect
            },
            SubscribeEffectInvocation::EmitStatus(status) => InvocationModel::EmitStatus(
                status.deep_view(),
            ),
            SubscribeEffectInvocation::EmitMessages(messages) => InvocationModel::EmitMessages(
                messages.deep_view(),
            ),
        }
    }
}

/// Whether the invocation starts a long-running primary effect.
pub open spec fn spec_is_start(i: InvocationModel) -> bool {
    match i {
        InvocationModel::Handshake { .. } => true,
        InvocationModel::HandshakeReconnect { .. } => true,
        InvocationModel::Receive { .. } => true,
        InvocationModel::ReceiveReconnect { .. } => true,
        _ => false,
    }
}

/// Whether the invocation cancels an in-flight effect.
pub open spec fn spec_is_cancellation(i: InvocationModel) -> bool {
    match i {
        InvocationModel::CancelHandshake => true,
        InvocationModel::CancelHandshakeReconnect => true,
        InvocationModel::CancelReceive => true,
        InvocationModel::CancelReceiveReconnect => true,
        _ => false,
    }
}

/// Whether the invocation synchronously hands data to listeners.
pub open spec fn spec_is_emit(i: InvocationModel) -> bool {
    i matches InvocationModel::EmitStatus(_) || i matches InvocationModel::EmitMessages(_)
}

/// The stable id of the invocation, used by the dispatcher to pair a
/// cancellation with the effect it aborts.
pub open spec fn spec_invocation_id(i: InvocationModel) -> Seq<char> {
    match i {
        InvocationModel::Handshake { .. } => "HANDSHAKE"@,
        InvocationModel::CancelHandshake => "CANCEL_HANDSHAKE"@,
        InvocationModel::HandshakeReconnect { .. } => "HANDSHAKE_RECONNECT"@,
        InvocationModel::CancelHandshakeReconnect => "CANCEL_HANDSHAKE_RECONNECT"@,
        InvocationModel::Receive { .. } => "RECEIVE_MESSAGES"@,
        InvocationModel::CancelReceive => "CANCEL_RECEIVE_MESSAGES"@,
        InvocationModel::ReceiveReconnect { .. } => "RECEIVE_MESSAGES_RECONNECT"@,
        InvocationModel::CancelReceiveReconnect => "CANCEL_RECEIVE_MESSAGES_RECONNECT"@,
        InvocationModel::EmitStatus(_) => "EMIT_STATUS"@,
        InvocationModel::EmitMessages(_) => "EMIT_MESSAGES"@,
    }
}

impl SubscribeEffectInvocation {
    /// The stable id of the invocation.
    pub fn id(&self) -> (r: String)
        ensures
            r@ == spec_invocation_id(self.deep_view()),
    {
        match self {
            SubscribeEffectInvocation::Handshake { .. } => "HANDSHAKE".to_owned(),
            SubscribeEffectInvocation::CancelHandshake => "CANCEL_HANDSHAKE".to_owned(),
            SubscribeEffectInvocation::HandshakeReconnect { .. } => "HANDSHAKE_RECONNECT".to_owned(),
            SubscribeEffectInvocation::CancelHandshakeReconnect => {
                "CANCEL_HANDSHAKE_RECONNECT".to_owned()
            },
            SubscribeEffectInvocation::Receive { .. } => "RECEIVE_MESSAGES".to_owned(),
            SubscribeEffectInvocation::CancelReceive => "CANCEL_RECEIVE_MESSAGES".to_owned(),
            SubscribeEffectInvocation::ReceiveReconnect { .. } => {
                "RECEIVE_MESSAGES_RECONNECT".to_owned()
            },
            SubscribeEffectInvocation::CancelReceiveReconnect => {
                "CANCEL_RECEIVE_MESSAGES_RECONNECT".to_owned()
            },
            SubscribeEffectInvocation::EmitStatus(_) => "EMIT_STATUS".to_owned(),
            SubscribeEffectInvocation::EmitMessages(_) => "EMIT_MESSAGES".to_owned(),
        }
    }

    /// Whether this invocation cancels an in-flight effect.
    pub fn is_cancellation(&self) -> (r: bool)
        ensures
            r == spec_is_cancellation(self.deep_view()),
    {
        match self {
            SubscribeEffectInvocation::CancelHandshake => true,
            SubscribeEffectInvocation::CancelHandshakeReconnect => true,
            SubscribeEffectInvocation::CancelReceive => true,
            SubscribeEffectInvocation::CancelReceiveReconnect => true,
            _ => false,
        }
    }
}

impl Clone for SubscribeEffectInvocation {
    /// Copy of the invocation with the same content.
    fn clone(&self) -> (r: Self)
        ensures
            r.deep_view() == self.deep_view(),
    {
        match self {
            SubscribeEffectInvocation::Handshake { input, cursor } => {
                SubscribeEffectInvocation::Handshake {
                    input: input.clone(),
                    cursor: clone_opt_cursor(cursor),
                }
            },
            SubscribeEffectInvocation::CancelHandshake => {
                SubscribeEffectInvocation::CancelHandshake
            },
            SubscribeEffectInvocation::HandshakeReconnect { input, cursor, attempts, reason } => {
                SubscribeEffectInvocation::HandshakeReconnect {
                    input: input.clone(),
                    cursor: clone_opt_cursor(cursor),
                    attempts: *attempts,
                    reason: reason.clone(),
                }
            },
            SubscribeEffectInvocation::CancelHandshakeReconnect => {
                SubscribeEffectInvocation::CancelHandshakeReconnect
            },
            SubscribeEffectInvocation::Receive { input, cursor } => {
                SubscribeEffectInvocation::Receive { input: input.clone(), cursor: cursor.clone() }
            },
            SubscribeEffectInvocation::CancelReceive => SubscribeEffectInvocation::CancelReceive,
            SubscribeEffectInvocation::ReceiveReconnect { input, cursor, attempts, reason } => {
                SubscribeEffectInvocation::ReceiveReconnect {
                    input: input.clone(),
                    cursor: cursor.clone(),
                    attempts: *attempts,
                    reason: reason.clone(),
                }
            },
            SubscribeEffectInvocation::CancelReceiveReconnect => {
                SubscribeEffectInvocation::CancelReceiveReconnect
            },
            SubscribeEffectInvocation::EmitStatus(status) => SubscribeEffectInvocation::EmitStatus(
                status.clone(),
            ),
            SubscribeEffectInvocation::EmitMessages(messages) => {
                SubscribeEffectInvocation::EmitMessages(clone_update_vec(messages))
            },
        }
    }
}

/// Copy an optional cursor, preserving its content.
pub fn clone_opt_cursor(c: &Option<SubscribeCursor>) -> (r: Option<SubscribeCursor>)
    ensures
        r.deep_view() == c.deep_view(),
{
    match c {
        Some(cursor) => Some(cursor.clone()),
        None => None,
    }
}

// ---------------------------------------------------------------------------
// Effects and their executors
// ---------------------------------------------------------------------------
/// What a successful subscribe call returns: the cursor to continue from
/// and the received updates.
#[derive(Debug, PartialEq)]
pub struct SubscribeResult {
    /// The cursor to continue from.
    pub cursor: SubscribeCursor,
    /// The received updates.
    pub messages: Vec<Update>,
}

/// Ghost counterpart of [`SubscribeResult`].
pub ghost struct SubscribeResultModel {
    pub cursor: CursorModel,
    pub messages: Seq<UpdateModel>,
}

impl DeepView for SubscribeResult {
    type V = SubscribeResultModel;

    open spec fn deep_view(&self) -> SubscribeResultModel {
        SubscribeResultModel {
            cursor: self.cursor.deep_view(),
            messages: self.messages.deep_view(),
        }
    }
}

/// The pluggable handshake call: performs a subscribe request and hands
/// back the server's cursor. The application implements this over its
/// transport; the core promises nothing about what it returns.
pub trait HandshakeFunction {
    /// Perform a handshake (or handshake retry) for these channels and
    /// groups.
    fn call(
        &self,
        channels: &Option<Vec<String>>,
        channel_groups: &Option<Vec<String>>,
        cursor: Option<&SubscribeCursor>,
        attempt: u8,
        reason: Option<PubNubError>,
        effect_id: &str,
    ) -> Result<SubscribeResult, PubNubError>;
}

/// The pluggable receive call: performs one long poll and hands back the
/// events to feed into the engine. The application implements this over
/// its transport; the core promises nothing about what it returns.
pub trait ReceiveFunction {
    /// Perform one long poll from the cursor for these channels and
    /// groups.
    fn call(
        &self,
        channels: &Option<Vec<String>>,
        channel_groups: &Option<Vec<String>>,
        cursor: &SubscribeCursor,
        attempt: u8,
        reason: Option<PubNubError>,
    ) -> Result<Vec<crate::subscribe_event::SubscribeEvent>, PubNubError>;
}

/// A running effect of the subscribe engine, as the dispatcher sees it:
/// the data the effect needs, without the executor that the application
/// supplies at the edge.
#[derive(Debug, PartialEq)]
pub enum SubscribeEffect {
    /// The initial subscription handshake.
    Handshake {
        /// Channels and groups to subscribe.
        input: SubscribeInput,
        /// Caller-provided cursor to catch up from, if any.
        cursor: Option<SubscribeCursor>,
    },
    /// A handshake retry, gated by the retry policy.
    HandshakeReconnect {
        /// Channels and groups to subscribe.
        input: SubscribeInput,
        /// Caller-provided cursor to catch up from, if any.
        cursor: Option<SubscribeCursor>,
        /// Which retry attempt this is.
        attempts: u8,
        /// The failure that caused the retry.
        reason: PubNubError,
        /// The policy that gates the retry.
        retry_policy: RequestRetryPolicy,
    },
    /// A long-poll receive.
    Receive {
        /// Channels and groups to receive for.
        input: SubscribeInput,
        /// Where in the stream to receive from.
        cursor: SubscribeCursor,
    },
    /// A receive retry, gated by the retry policy.
    ReceiveReconnect {
        /// Channels and groups to receive for.
        input: SubscribeInput,
        /// Where in the stream to receive from.
        cursor: SubscribeCursor,
        /// Which retry attempt this is.
        attempts: u8,
        /// The failure that caused the retry.
        reason: PubNubError,
        /// The policy that gates the retry.
        retry_policy: RequestRetryPolicy,
    },
    /// Hand a status to the registered listeners.
    EmitStatus(SubscribeStatus),
    /// Hand received updates to the registered listeners.
    EmitMessages(Vec<Update>),
}

/// Ghost counterpart of [`SubscribeEffect`].
pub ghost enum SubscribeEffectModel {
    Handshake { input: InputModel, cursor: Option<CursorModel> },
    HandshakeReconnect {
        input: InputModel,
        cursor: Option<CursorModel>,
        attempts: u8,
        reason: PubNubErrorModel,
        retry_policy: RequestRetryPolicy,
    },
    Receive { input: InputModel, cursor: CursorModel },
    ReceiveReconnect {
        input: InputModel,
        cursor: CursorModel,
        attempts: u8,
        reason: PubNubErrorModel,
        retry_policy: RequestRetryPolicy,
    },
    EmitStatus(StatusModel),
    EmitMessages(Seq<UpdateModel>),
}

impl DeepView for SubscribeEffect {
    type V = SubscribeEffectModel;

    open spec fn deep_view(&self) -> SubscribeEffectModel {
        match self {
            SubscribeEffect::Handshake { input, cursor } => SubscribeEffectModel::Handshake {
                input: input.deep_view(),
                cursor: cursor.deep_view(),
            },
            SubscribeEffect::HandshakeReconnect {
                input,
                cursor,
                attempts,
                reason,
                retry_policy,
            } => SubscribeEffectModel::HandshakeReconnect {
                input: input.deep_view(),
                cursor: cursor.deep_view(),
                attempts: *attempts,
                reason: reason.deep_view(),
                retry_policy: *retry_policy,
            },
            SubscribeEffect::Receive { input, cursor } => SubscribeEffectModel::Receive {
                input: input.deep_view(),
                cursor: cursor.deep_view(),
            },
            SubscribeEffect::ReceiveReconnect {
                input,
                cursor,
                attempts,
                reason,
                retry_policy,
            } => SubscribeEffectModel::ReceiveReconnect {
                input: input.deep_view(),
                cursor: cursor.deep_view(),
                attempts: *attempts,
                reason: reason.deep_view(),
                retry_policy: *retry_policy,
            },
            SubscribeEffect::EmitStatus(status) => SubscribeEffectModel::EmitStatus(
                status.deep_view(),
            ),
            SubscribeEffect::EmitMessages(messages) => SubscribeEffectModel::EmitMessages(
                messages.deep_view(),
            ),
        }
    }
}

/// The stable id under which the dispatcher tracks a running effect.
pub open spec fn spec_effect_id(e: SubscribeEffectModel) -> Seq<char> {
    match e {
        SubscribeEffectModel::Handshake { .. } => "HANDSHAKE"@,
        SubscribeEffectModel::HandshakeReconnect { .. } => "HANDSHAKE_RECONNECT"@,
        SubscribeEffectModel::Receive { .. } => "RECEIVE_MESSAGES"@,
        SubscribeEffectModel::ReceiveReconnect { .. } => "RECEIVE_MESSAGES_RECONNECT"@,
        SubscribeEffectModel::EmitStatus(_) => "EMIT_STATUS"@,
        SubscribeEffectModel::EmitMessages(_) => "EMIT_MESSAGES"@,
    }
}

impl SubscribeEffect {
    /// The stable id under which the dispatcher tracks this effect.
    pub fn id(&self) -> (r: String)
        ensures
            r@ == spec_effect_id(self.deep_view()),
    {
        match self {
            SubscribeEffect::Handshake { .. } => "HANDSHAKE".to_owned(),
            SubscribeEffect::HandshakeReconnect { .. } => "HANDSHAKE_RECONNECT".to_owned(),
            SubscribeEffect::Receive { .. } => "RECEIVE_MESSAGES".to_owned(),
            SubscribeEffect::ReceiveReconnect { .. } => "RECEIVE_MESSAGES_RECONNECT".to_owned(),
            SubscribeEffect::EmitStatus(_) => "EMIT_STATUS".to_owned(),
            SubscribeEffect::EmitMessages(_) => "EMIT_MESSAGES".to_owned(),
        }
    }
}

impl Clone for SubscribeEffect {
    /// Copy of the effect with the same content.
    fn clone(&self) -> (r: Self)
        ensures
            r.deep_view() == self.deep_view(),
    {
        match self {
            SubscribeEffect::Handshake { input, cursor } => SubscribeEffect::Handshake {
                input: input.clone(),
                cursor: clone_opt_cursor(cursor),
            },
            SubscribeEffect::HandshakeReconnect {
                input,
                cursor,
                attempts,
                reason,
                retry_policy,
            } => SubscribeEffect::HandshakeReconnect {
                input: input.clone(),
                cursor: clone_opt_cursor(cursor),
                attempts: *attempts,
                reason: reason.clone(),
                retry_policy: *retry_policy,
            },
            SubscribeEffect::Receive { input, cursor } => SubscribeEffect::Receive {
                input: input.clone(),
                cursor: cursor.clone(),
            },
            SubscribeEffect::ReceiveReconnect {
                input,
                cursor,
                attempts,
                reason,
                retry_policy,
            } => SubscribeEffect::ReceiveReconnect {
                input: input.clone(),
                cursor: cursor.clone(),
                attempts: *attempts,
                reason: reason.clone(),
                retry_policy: *retry_policy,
            },
            SubscribeEffect::EmitStatus(status) => SubscribeEffect::EmitStatus(status.clone()),
            SubscribeEffect::EmitMessages(messages) => SubscribeEffect::EmitMessages(
                clone_update_vec(messages),
            ),
        }
    }
}

/// The effect a start invocation asks for; cancellations create none.
pub open spec fn spec_create_effect(
    policy: RequestRetryPolicy,
    i: InvocationModel,
) -> Option<SubscribeEffectModel> {
    match i {
        InvocationModel::Handshake { input, cursor } => Some(
            SubscribeEffectModel::Handshake { input, cursor },
        ),
        InvocationModel::HandshakeReconnect { input, cursor, attempts, reason } => Some(
            SubscribeEffectModel::HandshakeReconnect {
                input,
                cursor,
                attempts,
                reason,
                retry_policy: policy,
            },
        ),
        InvocationModel::Receive { input, cursor } => Some(
            SubscribeEffectModel::Receive { input, cursor },
        ),
        InvocationModel::ReceiveReconnect { input, cursor, attempts, reason } => Some(
            SubscribeEffectModel::ReceiveReconnect {
                input,
                cursor,
                attempts,
                reason,
                retry_policy: policy,
            },
        ),
        InvocationModel::EmitStatus(status) => Some(SubscribeEffectModel::EmitStatus(status)),
        InvocationModel::EmitMessages(messages) => Some(
            SubscribeEffectModel::EmitMessages(messages),
        ),
        _ => None,
    }
}

/// Turns invocations into runnable effects. Holds the retry policy that
/// gates reconnect effects.
pub struct SubscribeEffectHandler {
    /// The policy that gates reconnect effects.
    pub retry_policy: RequestRetryPolicy,
}

impl SubscribeEffectHandler {
    /// A handler gating reconnects with the given policy.
    pub fn new(retry_policy: RequestRetryPolicy) -> (r: Self)
        ensures
            r.retry_policy == retry_policy,
    {
        SubscribeEffectHandler { retry_policy }
    }

    /// The effect a start invocation asks for; a cancellation creates no
    /// new effect (the dispatcher aborts the running one instead).
    pub fn create(&self, invocation: &SubscribeEffectInvocation) -> (r: Option<SubscribeEffect>)
        ensures
            r.deep_view() == spec_create_effect(self.retry_policy, invocation.deep_view()),
    {
        match invocation {
            SubscribeEffectInvocation::Handshake { input, cursor } => Some(
                SubscribeEffect::Handshake {
                    input: input.clone(),
                    cursor: clone_opt_cursor(cursor),
                },
            ),
            SubscribeEffectInvocation::HandshakeReconnect { input, cursor, attempts, reason } => {
                Some(
                    SubscribeEffect::HandshakeReconnect {
                        input: input.clone(),
                        cursor: clone_opt_cursor(cursor),
                        attempts: *attempts,
                        reason: reason.clone(),
                        retry_policy: self.retry_policy,
                    },
                )
            },
            SubscribeEffectInvocation::Receive { input, cursor } => Some(
                SubscribeEffect::Receive { input: input.clone(), cursor: cursor.clone() },
            ),
            SubscribeEffectInvocation::ReceiveReconnect { input, cursor, attempts, reason } => {
                Some(
                    SubscribeEffect::ReceiveReconnect {
                        input: input.clone(),
                        cursor: cursor.clone(),
                        attempts: *attempts,
                        reason: reason.clone(),
                        retry_policy: self.retry_policy,
                    },
                )
            },
            SubscribeEffectInvocation::EmitStatus(status) => Some(
                SubscribeEffect::EmitStatus(status.clone()),
            ),
            SubscribeEffectInvocation::EmitMessages(messages) => Some(
                SubscribeEffect::EmitMessages(clone_update_vec(messages)),
            ),
            SubscribeEffectInvocation::CancelHandshake => None,
            SubscribeEffectInvocation::CancelHandshakeReconnect => None,
            SubscribeEffectInvocation::CancelReceive => None,
            SubscribeEffectInvocation::CancelReceiveReconnect => None,
        }
    }
}

} // verus!
