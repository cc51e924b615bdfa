//! States of the subscribe engine and the transition table between them.
//!
//! The engine implements a two-phase long-poll protocol: a handshake
//! acquires a time cursor, then repeated receive calls deliver updates
//! from that cursor. Failures move through reconnecting states gated by
//! the retry policy; the application can pause (`Disconnect`), resume
//! (`Reconnect`), change the channel mix, or drop everything
//! (`UnsubscribeAll`).
//!
//! Each transition returns the next state together with the invocation
//! list for the dispatcher: the cancellation of the left state's effect,
//! then any emit instructions, then the entered state's primary effect.

use vstd::prelude::*;

use crate::error::{PubNubError, PubNubErrorModel};
use crate::input::{InputModel, SubscribeInput};
use crate::subscribe_effect::{
    clone_opt_cursor, spec_is_cancellation, spec_is_emit, spec_is_start, InvocationModel,
    SubscribeEffectInvocation,
};
use crate::subscribe_event::{SubscribeEvent, SubscribeEventModel};
use crate::subscribe_types::{CursorModel, StatusModel, SubscribeCursor, SubscribeStatus};
use crate::update::{clone_update_vec, Update};

verus! {

/// States of the subscribe engine.
#[derive(Debug, PartialEq)]
pub enum SubscribeState {
    /// Initial state: nothing to subscribe to.
    Unsubscribed,
    /// Running the initial handshake to acquire a time cursor.
    Handshaking {
        /// Channels and groups to subscribe.
        input: SubscribeInput,
        /// Caller-provided cursor that should win over the server's.
        cursor: Option<SubscribeCursor>,
    },
    /// Recovering from a failed handshake.
    HandshakeReconnecting {
        /// Channels and groups to subscribe.
        input: SubscribeInput,
        /// Caller-provided cursor that should win over the server's.
        cursor: Option<SubscribeCursor>,
        /// Which retry attempt is running.
        attempts: u8,
        /// The most recent handshake failure.
        reason: PubNubError,
    },
    /// Handshake paused by the application.
    HandshakeStopped {
        /// Channels and groups to subscribe on resume.
        input: SubscribeInput,
        /// Caller-provided cursor kept for the resume.
        cursor: Option<SubscribeCursor>,
    },
    /// Handshake retries exhausted.
    HandshakeFailed {
        /// Channels and groups that failed to subscribe.
        input: SubscribeInput,
        /// Caller-provided cursor kept for a later resume.
        cursor: Option<SubscribeCursor>,
        /// The failure that exhausted the retries.
        reason: PubNubError,
    },
    /// Receiving real-time updates by repeated long polls.
    Receiving {
        /// Channels and groups updates are received for.
        input: SubscribeInput,
        /// Where in the stream the next long poll continues.
        cursor: SubscribeCursor,
    },
    /// Recovering from a failed receive.
    ReceiveReconnecting {
        /// Channels and groups updates are received for.
        input: SubscribeInput,
        /// Where in the stream the next long poll continues.
        cursor: SubscribeCursor,
        /// Which retry attempt is running.
        attempts: u8,
        /// The most recent receive failure.
        reason: PubNubError,
    },
    /// Receiving paused by the application.
    ReceiveStopped {
        /// Channels and groups to receive for on resume.
        input: SubscribeInput,
        /// Cursor kept for the resume.
        cursor: SubscribeCursor,
    },
    /// Receive retries exhausted.
    ReceiveFailed {
        /// Channels and groups that were being received for.
        input: SubscribeInput,
        /// Cursor kept for a later resume.
        cursor: SubscribeCursor,
        /// The failure that exhausted the retries.
        reason: PubNubError,
    },
}

/// Ghost counterpart of [`SubscribeState`].
pub ghost enum SubscribeStateModel {
    Unsubscribed,
    Handshaking { input: InputModel, cursor: Option<CursorModel> },
    HandshakeReconnecting {
        input: InputModel,
        cursor: Option<CursorModel>,
        attempts: u8,
        reason: PubNubErrorModel,
    },
    HandshakeStopped { input: InputModel, cursor: Option<CursorModel> },
    HandshakeFailed { input: InputModel, cursor: Option<CursorModel>, reason: PubNubErrorModel },
    Receiving { input: InputModel, cursor: CursorModel },
    ReceiveReconnecting {
        input: InputModel,
        cursor: CursorModel,
        attempts: u8,
        reason: PubNubErrorModel,
    },
    ReceiveStopped { input: InputModel, cursor: CursorModel },
    ReceiveFailed { input: InputModel, cursor: CursorModel, reason: PubNubErrorModel },
}

impl DeepView for SubscribeState {
    type V = SubscribeStateModel;

    open spec fn deep_view(&self) -> SubscribeStateModel {
        match self {
            SubscribeState::Unsubscribed => SubscribeStateModel::Unsubscribed,
            SubscribeState::Handshaking { input, cursor } => SubscribeStateModel::Handshaking {
                input: input.deep_view(),
                cursor: cursor.deep_view(),
            },
            SubscribeState::HandshakeReconnecting { input, cursor, attempts, reason } => {
                SubscribeStateModel::HandshakeReconnecting {
                    input: input.deep_view(),
                    cursor: cursor.deep_view(),
                    attempts: *attempts,
                    reason: reason.deep_view(),
                }
            },
            SubscribeState::HandshakeStopped { input, cursor } => {
                SubscribeStateModel::HandshakeStopped {
                    input: input.deep_view(),
                    cursor: cursor.deep_view(),
                }
            },
            SubscribeState::HandshakeFailed { input, cursor, reason } => {
                SubscribeStateModel::HandshakeFailed {
                    input: input.deep_view(),
                    cursor: cursor.deep_view(),
                    reason: reason.deep_view(),
                }
            },
            SubscribeState::Receiving { input, cursor } => SubscribeStateModel::Receiving {
                input: input.deep_view(),
                cursor: cursor.deep_view(),
            },
            SubscribeState::ReceiveReconnecting { input, cursor, attempts, reason } => {
                SubscribeStateModel::ReceiveReconnecting {
                    input: input.deep_view(),
                    cursor: cursor.deep_view(),
                    attempts: *attempts,
                    reason: reason.deep_view(),
                }
            },
            SubscribeState::ReceiveStopped { input, cursor } => {
                SubscribeStateModel::ReceiveStopped {
                    input: input.deep_view(),
                    cursor: cursor.deep_view(),
                }
            },
            SubscribeState::ReceiveFailed { input, cursor, reason } => {
                SubscribeStateModel::ReceiveFailed {
                    input: input.deep_view(),
                    cursor: cursor.deep_view(),
                    reason: reason.deep_view(),
                }
            },
        }
    }
}

impl SubscribeState {
    /// Well-formedness: the state's input, where it has one, holds each
    /// name once.
    pub open spec fn wf(&self) -> bool {
        match self {
            SubscribeState::Unsubscribed => true,
            SubscribeState::Handshaking { input, .. } => input.wf(),
            SubscribeState::HandshakeReconnecting { input, .. } => input.wf(),
            SubscribeState::HandshakeStopped { input, .. } => input.wf(),
            SubscribeState::HandshakeFailed { input, .. } => input.wf(),
            SubscribeState::Receiving { input, .. } => input.wf(),
            SubscribeState::ReceiveReconnecting { input, .. } => input.wf(),
            SubscribeState::ReceiveStopped { input, .. } => input.wf(),
            SubscribeState::ReceiveFailed { input, .. } => input.wf(),
        }
    }
}

impl Clone for SubscribeState {
    /// Copy of the state with the same content.
    fn clone(&self) -> (r: Self)
        ensures
            r.deep_view() == self.deep_view(),
            self.wf() ==> r.wf(),
    {
        match self {
            SubscribeState::Unsubscribed => SubscribeState::Unsubscribed,
            SubscribeState::Handshaking { input, cursor } => SubscribeState::Handshaking {
                input: input.clone(),
                cursor: clone_opt_cursor(cursor),
            },
            SubscribeState::HandshakeReconnecting { input, cursor, attempts, reason } => {
                SubscribeState::HandshakeReconnecting {
                    input: input.clone(),
                    cursor: clone_opt_cursor(cursor),
                    attempts: *attempts,
                    reason: reason.clone(),
                }
            },
            SubscribeState::HandshakeStopped { input, cursor } => {
                SubscribeState::HandshakeStopped {
                    input: input.clone(),
                    cursor: clone_opt_cursor(cursor),
                }
            },
            SubscribeState::HandshakeFailed { input, cursor, reason } => {
                SubscribeState::HandshakeFailed {
                    input: input.clone(),
                    cursor: clone_opt_cursor(cursor),
                    reason: reason.clone(),
                }
            },
            SubscribeState::Receiving { input, cursor } => SubscribeState::Receiving {
                input: input.clone(),
                cursor: cursor.clone(),
            },
            SubscribeState::ReceiveReconnecting { input, cursor, attempts, reason } => {
                SubscribeState::ReceiveReconnecting {
                    input: input.clone(),
                    cursor: cursor.clone(),
                    attempts: *attempts,
                    reason: reason.clone(),
                }
            },
            SubscribeState::ReceiveStopped { input, cursor } => SubscribeState::ReceiveStopped {
                input: input.clone(),
                cursor: cursor.clone(),
            },
            SubscribeState::ReceiveFailed { input, cursor, reason } => {
                SubscribeState::ReceiveFailed {
                    input: input.clone(),
                    cursor: cursor.clone(),
                    reason: reason.clone(),
                }
            },
        }
    }
}

/// A transition: the state to move to, and the invocations to hand to the
/// effect dispatcher, in order.
#[derive(Debug, PartialEq)]
pub struct Transition {
    /// Exit cancellations of the left state, then emit instructions, then
    /// the entered state's primary effect.
    pub invocations: Vec<SubscribeEffectInvocation>,
    /// The state to move to.
    pub state: SubscribeState,
}

/// Ghost counterpart of [`Transition`].
pub ghost struct TransitionModel {
    pub invocations: Seq<InvocationModel>,
    pub state: SubscribeStateModel,
}

impl DeepView for Transition {
    type V = TransitionModel;

    open spec fn deep_view(&self) -> TransitionModel {
        TransitionModel {
            invocations: self.invocations.deep_view(),
            state: self.state.deep_view(),
        }
    }
}

// ---------------------------------------------------------------------------
// The transition table, as a mathematical function
// ---------------------------------------------------------------------------
/// The invocations an optional invocation list denotes.
pub open spec fn spec_opt_invs(o: Option<Seq<InvocationModel>>) -> Seq<InvocationModel> {
    match o {
        Some(s) => s,
        None => Seq::<InvocationModel>::empty(),
    }
}

/// The primary effect started on entry into a state: one invocation for
/// the four active states, nothing for stopped, failed and unsubscribed
/// states.
pub open spec fn spec_enter(s: SubscribeStateModel) -> Option<Seq<InvocationModel>> {
    match s {
        SubscribeStateModel::Handshaking { input, cursor } => Some(
            seq![InvocationModel::Handshake { input, cursor }],
        ),
        SubscribeStateModel::HandshakeReconnecting { input, cursor, attempts, reason } => Some(
            seq![InvocationModel::HandshakeReconnect { input, cursor, attempts, reason }],
        ),
        SubscribeStateModel::Receiving { input, cursor } => Some(
            seq![InvocationModel::Receive { input, cursor }],
        ),
        SubscribeStateModel::ReceiveReconnecting { input, cursor, attempts, reason } => Some(
            seq![InvocationModel::ReceiveReconnect { input, cursor, attempts, reason }],
        ),
        _ => None,
    }
}

/// The cancellation issued on exit from a state: one invocation for the
/// four active states, nothing otherwise.
pub open spec fn spec_exit(s: SubscribeStateModel) -> Option<Seq<InvocationModel>> {
    match s {
        SubscribeStateModel::Handshaking { .. } => Some(
            seq![InvocationModel::CancelHandshake],
        ),
        SubscribeStateModel::HandshakeReconnecting { .. } => Some(
            seq![InvocationModel::CancelHandshakeReconnect],
        ),
        SubscribeStateModel::Receiving { .. } => Some(seq![InvocationModel::CancelReceive]),
        SubscribeStateModel::ReceiveReconnecting { .. } => Some(
            seq![InvocationModel::CancelReceiveReconnect],
        ),
        _ => None,
    }
}

/// The transition from `s` to `next`: its invocation list is the exit
/// cancellations of `s`, then the given mid-transition invocations, then
/// the entry effect of `next`, in that order.
pub open spec fn spec_transition_to(
    s: SubscribeStateModel,
    next: SubscribeStateModel,
    mid: Option<Seq<InvocationModel>>,
) -> TransitionModel {
    TransitionModel {
        invocations: spec_opt_invs(spec_exit(s)) + spec_opt_invs(mid) + spec_opt_invs(
            spec_enter(next),
        ),
        state: next,
    }
}

/// The next retry attempt number; the counter sticks at its largest value
/// rather than wrap.
pub open spec fn spec_next_attempt(a: u8) -> u8 {
    if a == u8::MAX {
        a
    } else {
        (a + 1) as u8
    }
}

/// Reaction to a change of the channel mix: every state adopts the new
/// input; receive states keep receiving from their cursor, handshake
/// states re-handshake with their preserved cursor, a failed receive
/// forces a new handshake from the failure cursor, and a stopped receive
/// stays stopped.
pub open spec fn spec_subscription_changed(
    s: SubscribeStateModel,
    channels: Option<Seq<Seq<char>>>,
    channel_groups: Option<Seq<Seq<char>>>,
) -> Option<TransitionModel> {
    let input = InputModel::from_lists(channels, channel_groups);
    match s {
        SubscribeStateModel::Unsubscribed => Some(
            spec_transition_to(
                s,
                SubscribeStateModel::Handshaking { input, cursor: None },
                None,
            ),
        ),
        SubscribeStateModel::Handshaking { cursor, .. } => Some(
            spec_transition_to(s, SubscribeStateModel::Handshaking { input, cursor }, None),
        ),
        SubscribeStateModel::HandshakeReconnecting { cursor, .. } => Some(
            spec_transition_to(s, SubscribeStateModel::Handshaking { input, cursor }, None),
        ),
        SubscribeStateModel::HandshakeFailed { cursor, .. } => Some(
            spec_transition_to(s, SubscribeStateModel::Handshaking { input, cursor }, None),
        ),
        SubscribeStateModel::HandshakeStopped { cursor, .. } => Some(
            spec_transition_to(s, SubscribeStateModel::Handshaking { input, cursor }, None),
        ),
        SubscribeStateModel::Receiving { cursor, .. } => Some(
            spec_transition_to(s, SubscribeStateModel::Receiving { input, cursor }, None),
        ),
        SubscribeStateModel::ReceiveReconnecting { cursor, .. } => Some(
            spec_transition_to(s, SubscribeStateModel::Receiving { input, cursor }, None),
        ),
        SubscribeStateModel::ReceiveFailed { cursor, .. } => Some(
            spec_transition_to(
                s,
                SubscribeStateModel::Handshaking { input, cursor: Some(cursor) },
                None,
            ),
        ),
        SubscribeStateModel::ReceiveStopped { cursor, .. } => Some(
            spec_transition_to(s, SubscribeStateModel::ReceiveStopped { input, cursor }, None),
        ),
    }
}

/// Reaction to a subscription restore at a given cursor: like a change of
/// the channel mix, but with a cursor to catch up from. In handshake
/// states a cursor already preserved there wins over the restored one;
/// receive states adopt the restored cursor.
pub open spec fn spec_subscription_restored(
    s: SubscribeStateModel,
    channels: Option<Seq<Seq<char>>>,
    channel_groups: Option<Seq<Seq<char>>>,
    restore_cursor: CursorModel,
) -> Option<TransitionModel> {
    let input = InputModel::from_lists(channels, channel_groups);
    match s {
        SubscribeStateModel::Unsubscribed => Some(
            spec_transition_to(
                s,
                SubscribeStateModel::Handshaking { input, cursor: Some(restore_cursor) },
                None,
            ),
        ),
        SubscribeStateModel::Handshaking { cursor, .. } => Some(
            spec_transition_to(
                s,
                SubscribeStateModel::Handshaking {
                    input,
                    cursor: Some(spec_cursor_or(cursor, restore_cursor)),
                },
                None,
            ),
        ),
        SubscribeStateModel::HandshakeReconnecting { cursor, .. } => Some(
            spec_transition_to(
                s,
                SubscribeStateModel::Handshaking {
                    input,
                    cursor: Some(spec_cursor_or(cursor, restore_cursor)),
                },
                None,
            ),
        ),
        SubscribeStateModel::HandshakeFailed { cursor, .. } => Some(
            spec_transition_to(
                s,
                SubscribeStateModel::Handshaking {
                    input,
                    cursor: Some(spec_cursor_or(cursor, restore_cursor)),
                },
                None,
            ),
        ),
        SubscribeStateModel::HandshakeStopped { cursor, .. } => Some(
            spec_transition_to(
                s,
                SubscribeStateModel::Handshaking {
                    input,
                    cursor: Some(spec_cursor_or(cursor, restore_cursor)),
                },
                None,
            ),
        ),
        SubscribeStateModel::Receiving { .. } => Some(
            spec_transition_to(
                s,
                SubscribeStateModel::Receiving { input, cursor: restore_cursor },
                None,
            ),
        ),
        SubscribeStateModel::ReceiveReconnecting { .. } => Some(
            spec_transition_to(
                s,
                SubscribeStateModel::Receiving { input, cursor: restore_cursor },
                None,
            ),
        ),
        SubscribeStateModel::ReceiveFailed { .. } => Some(
            spec_transition_to(
                s,
                SubscribeStateModel::Handshaking { input, cursor: Some(restore_cursor) },
                None,
            ),
        ),
        SubscribeStateModel::ReceiveStopped { .. } => Some(
            spec_transition_to(
                s,
                SubscribeStateModel::ReceiveStopped { input, cursor: restore_cursor },
                None,
            ),
        ),
    }
}

/// The preserved cursor, or the fallback when none is preserved.
pub open spec fn spec_cursor_or(preserved: Option<CursorModel>, fallback: CursorModel) -> CursorModel {
    match preserved {
        Some(c) => c,
        None => fallback,
    }
}

/// Reaction to a successful handshake: both handshake attempts move to
/// receiving, a preserved caller cursor winning over the server's, and a
/// `Connected` status is emitted.
pub open spec fn spec_handshake_success(
    s: SubscribeStateModel,
    next_cursor: CursorModel,
) -> Option<TransitionModel> {
    match s {
        SubscribeStateModel::Handshaking { input, cursor } => Some(
            spec_transition_to(
                s,
                SubscribeStateModel::Receiving {
                    input,
                    cursor: spec_cursor_or(cursor, next_cursor),
                },
                Some(seq![InvocationModel::EmitStatus(StatusModel::Connected)]),
            ),
        ),
        SubscribeStateModel::HandshakeReconnecting { input, cursor, .. } => Some(
            spec_transition_to(
                s,
                SubscribeStateModel::Receiving {
                    input,
                    cursor: spec_cursor_or(cursor, next_cursor),
                },
                Some(seq![InvocationModel::EmitStatus(StatusModel::Connected)]),
            ),
        ),
        _ => None,
    }
}

/// Reaction to a failed handshake: begin reconnecting, first attempt.
pub open spec fn spec_handshake_failure(
    s: SubscribeStateModel,
    reason: PubNubErrorModel,
) -> Option<TransitionModel> {
    match s {
        SubscribeStateModel::Handshaking { input, cursor } => Some(
            spec_transition_to(
                s,
                SubscribeStateModel::HandshakeReconnecting { input, cursor, attempts: 1, reason },
                None,
            ),
        ),
        _ => None,
    }
}

/// Reaction to a failed handshake retry: stay reconnecting with the next
/// attempt number and the fresh reason.
pub open spec fn spec_handshake_reconnect_failure(
    s: SubscribeStateModel,
    reason: PubNubErrorModel,
) -> Option<TransitionModel> {
    match s {
        SubscribeStateModel::HandshakeReconnecting { input, cursor, attempts, .. } => Some(
            spec_transition_to(
                s,
                SubscribeStateModel::HandshakeReconnecting {
                    input,
                    cursor,
                    attempts: spec_next_attempt(attempts),
                    reason,
                },
                None,
            ),
        ),
        _ => None,
    }
}

/// Reaction to exhausted handshake retries: give up into the failed
/// state and emit a `ConnectionError` status carrying the reason.
pub open spec fn spec_handshake_reconnect_give_up(
    s: SubscribeStateModel,
    reason: PubNubErrorModel,
) -> Option<TransitionModel> {
    match s {
        SubscribeStateModel::HandshakeReconnecting { input, cursor, .. } => Some(
            spec_transition_to(
                s,
                SubscribeStateModel::HandshakeFailed { input, cursor, reason },
                Some(seq![InvocationModel::EmitStatus(StatusModel::ConnectionError(reason))]),
            ),
        ),
        _ => None,
    }
}

/// Reaction to received updates: keep receiving from the new cursor and
/// emit the received messages.
pub open spec fn spec_receive_success(
    s: SubscribeStateModel,
    cursor: CursorModel,
    messages: Seq<crate::update::UpdateModel>,
) -> Option<TransitionModel> {
    match s {
        SubscribeStateModel::Receiving { input, .. } => Some(
            spec_transition_to(
                s,
                SubscribeStateModel::Receiving { input, cursor },
                Some(seq![InvocationModel::EmitMessages(messages)]),
            ),
        ),
        SubscribeStateModel::ReceiveReconnecting { input, .. } => Some(
            spec_transition_to(
                s,
                SubscribeStateModel::Receiving { input, cursor },
                Some(seq![InvocationModel::EmitMessages(messages)]),
            ),
        ),
        _ => None,
    }
}

/// Reaction to a failed receive: begin reconnecting, first attempt.
pub open spec fn spec_receive_failure(
    s: SubscribeStateModel,
    reason: PubNubErrorModel,
) -> Option<TransitionModel> {
    match s {
        SubscribeStateModel::Receiving { input, cursor } => Some(
            spec_transition_to(
                s,
                SubscribeStateModel::ReceiveReconnecting { input, cursor, attempts: 1, reason },
                None,
            ),
        ),
        _ => None,
    }
}

/// Reaction to a failed receive retry: stay reconnecting with the next
/// attempt number and the fresh reason.
pub open spec fn spec_receive_reconnect_failure(
    s: SubscribeStateModel,
    reason: PubNubErrorModel,
) -> Option<TransitionModel> {
    match s {
        SubscribeStateModel::ReceiveReconnecting { input, cursor, attempts, .. } => Some(
            spec_transition_to(
                s,
                SubscribeStateModel::ReceiveReconnecting {
                    input,
                    cursor,
                    attempts: spec_next_attempt(attempts),
                    reason,
                },
                None,
            ),
        ),
        _ => None,
    }
}

/// Reaction to exhausted receive retries: give up into the failed state
/// and emit a `Disconnected` status.
pub open spec fn spec_receive_reconnect_give_up(
    s: SubscribeStateModel,
    reason: PubNubErrorModel,
) -> Option<TransitionModel> {
    match s {
        SubscribeStateModel::ReceiveReconnecting { input, cursor, .. } => Some(
            spec_transition_to(
                s,
                SubscribeStateModel::ReceiveFailed { input, cursor, reason },
                Some(seq![InvocationModel::EmitStatus(StatusModel::Disconnected)]),
            ),
        ),
        _ => None,
    }
}

/// Reaction to a pause request: handshake activity stops silently,
/// receive activity stops and emits a `Disconnected` status.
pub open spec fn spec_disconnect(s: SubscribeStateModel) -> Option<TransitionModel> {
    match s {
        SubscribeStateModel::Handshaking { input, cursor } => Some(
            spec_transition_to(
                s,
                SubscribeStateModel::HandshakeStopped { input, cursor },
                None,
            ),
        ),
        SubscribeStateModel::HandshakeReconnecting { input, cursor, .. } => Some(
            spec_transition_to(
                s,
                SubscribeStateModel::HandshakeStopped { input, cursor },
                None,
            ),
        ),
        SubscribeStateModel::Receiving { input, cursor } => Some(
            spec_transition_to(
                s,
                SubscribeStateModel::ReceiveStopped { input, cursor },
                Some(seq![InvocationModel::EmitStatus(StatusModel::Disconnected)]),
            ),
        ),
        SubscribeStateModel::ReceiveReconnecting { input, cursor, .. } => Some(
            spec_transition_to(
                s,
                SubscribeStateModel::ReceiveStopped { input, cursor },
                Some(seq![InvocationModel::EmitStatus(StatusModel::Disconnected)]),
            ),
        ),
        _ => None,
    }
}

/// Reaction to a resume request: stopped or failed activity re-handshakes;
/// a receive-side resume carries its cursor into the handshake.
pub open spec fn spec_reconnect(s: SubscribeStateModel) -> Option<TransitionModel> {
    match s {
        SubscribeStateModel::HandshakeStopped { input, cursor } => Some(
            spec_transition_to(s, SubscribeStateModel::Handshaking { input, cursor }, None),
        ),
        SubscribeStateModel::HandshakeFailed { input, cursor, .. } => Some(
            spec_transition_to(s, SubscribeStateModel::Handshaking { input, cursor }, None),
        ),
        SubscribeStateModel::ReceiveStopped { input, cursor } => Some(
            spec_transition_to(
                s,
                SubscribeStateModel::Handshaking { input, cursor: Some(cursor) },
                None,
            ),
        ),
        SubscribeStateModel::ReceiveFailed { input, cursor, .. } => Some(
            spec_transition_to(
                s,
                SubscribeStateModel::Handshaking { input, cursor: Some(cursor) },
                None,
            ),
        ),
        _ => None,
    }
}

/// Reaction to an unsubscribe request: every state but `Unsubscribed`
/// drops to `Unsubscribed` and emits a `Disconnected` status; in
/// `Unsubscribed` there is nothing to drop and the event is ignored.
pub open spec fn spec_unsubscribe_all(s: SubscribeStateModel) -> Option<TransitionModel> {
    if s == SubscribeStateModel::Unsubscribed {
        None
    } else {
        Some(
            spec_transition_to(
                s,
                SubscribeStateModel::Unsubscribed,
                Some(seq![InvocationModel::EmitStatus(StatusModel::Disconnected)]),
            ),
        )
    }
}

impl SubscribeState {
    /// The primary effect invocation for entry into this state, if any.
    pub fn enter(&self) -> (r: Option<Vec<SubscribeEffectInvocation>>)
        ensures
            r.deep_view() == spec_enter(self.deep_view()),
    {
        match self {
            SubscribeState::Handshaking { input, cursor } => {
                let mut v: Vec<SubscribeEffectInvocation> = Vec::new();
                v.push(
                    SubscribeEffectInvocation::Handshake {
                        input: input.clone(),
                        cursor: clone_opt_cursor(cursor),
                    },
                );
                proof {
                    assert(v.deep_view() =~= spec_enter(self.deep_view()).unwrap());
                }
                Some(v)
            },
            SubscribeState::HandshakeReconnecting { input, cursor, attempts, reason } => {
                let mut v: Vec<SubscribeEffectInvocation> = Vec::new();
                v.push(
                    SubscribeEffectInvocation::HandshakeReconnect {
                        input: input.clone(),
                        cursor: clone_opt_cursor(cursor),
                        attempts: *attempts,
                        reason: reason.clone(),
                    },
                );
                proof {
                    assert(v.deep_view() =~= spec_enter(self.deep_view()).unwrap());
                }
                Some(v)
            },
            SubscribeState::Receiving { input, cursor } => {
                let mut v: Vec<SubscribeEffectInvocation> = Vec::new();
                v.push(
                    SubscribeEffectInvocation::Receive {
                        input: input.clone(),
                        cursor: cursor.clone(),
                    },
                );
                proof {
                    assert(v.deep_view() =~= spec_enter(self.deep_view()).unwrap());
                }
                Some(v)
            },
            SubscribeState::ReceiveReconnecting { input, cursor, attempts, reason } => {
                let mut v: Vec<SubscribeEffectInvocation> = Vec::new();
                v.push(
                    SubscribeEffectInvocation::ReceiveReconnect {
                        input: input.clone(),
                        cursor: cursor.clone(),
                        attempts: *attempts,
                        reason: reason.clone(),
                    },
                );
                proof {
                    assert(v.deep_view() =~= spec_enter(self.deep_view()).unwrap());
                }
                Some(v)
            },
            _ => None,
        }
    }

    /// The cancellation invocation for exit from this state, if any.
    pub fn exit(&self) -> (r: Option<Vec<SubscribeEffectInvocation>>)
        ensures
            r.deep_view() == spec_exit(self.deep_view()),
    {
        match self {
            SubscribeState::Handshaking { .. } => {
                let mut v: Vec<SubscribeEffectInvocation> = Vec::new();
                v.push(SubscribeEffectInvocation::CancelHandshake);
                proof {
                    assert(v.deep_view() =~= spec_exit(self.deep_view()).unwrap());
                }
                Some(v)
            },
            SubscribeState::HandshakeReconnecting { .. } => {
                let mut v: Vec<SubscribeEffectInvocation> = Vec::new();
                v.push(SubscribeEffectInvocation::CancelHandshakeReconnect);
                proof {
                    assert(v.deep_view() =~= spec_exit(self.deep_view()).unwrap());
                }
                Some(v)
            },
            SubscribeState::Receiving { .. } => {
                let mut v: Vec<SubscribeEffectInvocation> = Vec::new();
                v.push(SubscribeEffectInvocation::CancelReceive);
                proof {
                    assert(v.deep_view() =~= spec_exit(self.deep_view()).unwrap());
                }
                Some(v)
            },
            SubscribeState::ReceiveReconnecting { .. } => {
                let mut v: Vec<SubscribeEffectInvocation> = Vec::new();
                v.push(SubscribeEffectInvocation::CancelReceiveReconnect);
                proof {
                    assert(v.deep_view() =~= spec_exit(self.deep_view()).unwrap());
                }
                Some(v)
            },
            _ => None,
        }
    }

    /// Assemble the transition from this state to `state`: the exit
    /// cancellations, the given mid-transition invocations and the entry
    /// effect of `state`, in order.
    pub fn transition_to(
        &self,
        state: SubscribeState,
        invocations: Option<Vec<SubscribeEffectInvocation>>,
    ) -> (r: Transition)
        ensures
            r.deep_view() == spec_transition_to(
                self.deep_view(),
                state.deep_view(),
                invocations.deep_view(),
            ),
            r.state == state,
    {
        let ghost mid_model = invocations.deep_view();
        let mut invs: Vec<SubscribeEffectInvocation> = match self.exit() {
            Some(v) => v,
            None => Vec::new(),
        };
        let ghost exit_part = invs.deep_view();
        let mut mid: Vec<SubscribeEffectInvocation> = match invocations {
            Some(v) => v,
            None => Vec::new(),
        };
        proof {
            assert(mid.deep_view() =~= spec_opt_invs(mid_model));
        }
        invs.append(&mut mid);
        let ghost after_mid = invs.deep_view();
        let mut entry: Vec<SubscribeEffectInvocation> = match state.enter() {
            Some(v) => v,
            None => Vec::new(),
        };
        let ghost entry_part = entry.deep_view();
        invs.append(&mut entry);
        proof {
            assert(exit_part =~= spec_opt_invs(spec_exit(self.deep_view())));
            assert(entry_part =~= spec_opt_invs(spec_enter(state.deep_view())));
            assert(after_mid =~= exit_part + spec_opt_invs(mid_model));
            assert(invs.deep_view() =~= after_mid + entry_part);
            assert(invs.deep_view() =~= spec_opt_invs(spec_exit(self.deep_view())) + spec_opt_invs(
                mid_model,
            ) + spec_opt_invs(spec_enter(state.deep_view())));
        }
        Transition { invocations: invs, state }
    }
}

impl SubscribeState {
    /// Handle a change of the channel and channel group lists.
    fn subscription_changed_transition(
        &self,
        channels: &Option<Vec<String>>,
        channel_groups: &Option<Vec<String>>,
    ) -> (r: Option<Transition>)
        ensures
            r.deep_view() == spec_subscription_changed(
                self.deep_view(),
                channels.deep_view(),
                channel_groups.deep_view(),
            ),
            self.wf() ==> match r {
                Some(t) => t.state.wf(),
                None => true,
            },
    {
        let input = SubscribeInput::new(channels, channel_groups);
        match self {
            SubscribeState::Unsubscribed => Some(
                self.transition_to(SubscribeState::Handshaking { input, cursor: None }, None),
            ),
            SubscribeState::Handshaking { cursor, .. } => Some(
                self.transition_to(
                    SubscribeState::Handshaking { input, cursor: clone_opt_cursor(cursor) },
                    None,
                ),
            ),
            SubscribeState::HandshakeReconnecting { cursor, .. } => Some(
                self.transition_to(
                    SubscribeState::Handshaking { input, cursor: clone_opt_cursor(cursor) },
                    None,
                ),
            ),
            SubscribeState::HandshakeFailed { cursor, .. } => Some(
                self.transition_to(
                    SubscribeState::Handshaking { input, cursor: clone_opt_cursor(cursor) },
                    None,
                ),
            ),
            SubscribeState::HandshakeStopped { cursor, .. } => Some(
                self.transition_to(
                    SubscribeState::Handshaking { input, cursor: clone_opt_cursor(cursor) },
                    None,
                ),
            ),
            SubscribeState::Receiving { cursor, .. } => Some(
                self.transition_to(
                    SubscribeState::Receiving { input, cursor: cursor.clone() },
                    None,
                ),
            ),
            SubscribeState::ReceiveReconnecting { cursor, .. } => Some(
                self.transition_to(
                    SubscribeState::Receiving { input, cursor: cursor.clone() },
                    None,
                ),
            ),
            SubscribeState::ReceiveFailed { cursor, .. } => Some(
                self.transition_to(
                    SubscribeState::Handshaking { input, cursor: Some(cursor.clone()) },
                    None,
                ),
            ),
            SubscribeState::ReceiveStopped { cursor, .. } => Some(
                self.transition_to(
                    SubscribeState::ReceiveStopped { input, cursor: cursor.clone() },
                    None,
                ),
            ),
        }
    }

    /// Handle a subscription restore at a given cursor.
    fn subscription_restored_transition(
        &self,
        channels: &Option<Vec<String>>,
        channel_groups: &Option<Vec<String>>,
        restore_cursor: &SubscribeCursor,
    ) -> (r: Option<Transition>)
        ensures
            r.deep_view() == spec_subscription_restored(
                self.deep_view(),
                channels.deep_view(),
                channel_groups.deep_view(),
                restore_cursor.deep_view(),
            ),
            self.wf() ==> match r {
                Some(t) => t.state.wf(),
                None => true,
            },
    {
        let input = SubscribeInput::new(channels, channel_groups);
        match self {
            SubscribeState::Unsubscribed => Some(
                self.transition_to(
                    SubscribeState::Handshaking { input, cursor: Some(restore_cursor.clone()) },
                    None,
                ),
            ),
            SubscribeState::Handshaking { cursor, .. } => Some(
                self.transition_to(
                    SubscribeState::Handshaking {
                        input,
                        cursor: Some(cursor_or(cursor, restore_cursor)),
                    },
                    None,
                ),
            ),
            SubscribeState::HandshakeReconnecting { cursor, .. } => Some(
                self.transition_to(
                    SubscribeState::Handshaking {
                        input,
                        cursor: Some(cursor_or(cursor, restore_cursor)),
                    },
                    None,
                ),
            ),
            SubscribeState::HandshakeFailed { cursor, .. } => Some(
                self.transition_to(
                    SubscribeState::Handshaking {
                        input,
                        cursor: Some(cursor_or(cursor, restore_cursor)),
                    },
                    None,
                ),
            ),
            SubscribeState::HandshakeStopped { cursor, .. } => Some(
                self.transition_to(
                    SubscribeState::Handshaking {
                        input,
                        cursor: Some(cursor_or(cursor, restore_cursor)),
                    },
                    None,
                ),
            ),
            SubscribeState::Receiving { .. } => Some(
                self.transition_to(
                    SubscribeState::Receiving { input, cursor: restore_cursor.clone() },
                    None,
                ),
            ),
            SubscribeState::ReceiveReconnecting { .. } => Some(
                self.transition_to(
                    SubscribeState::Receiving { input, cursor: restore_cursor.clone() },
                    None,
                ),
            ),
            SubscribeState::ReceiveFailed { .. } => Some(
                self.transition_to(
                    SubscribeState::Handshaking { input, cursor: Some(restore_cursor.clone()) },
                    None,
                ),
            ),
            SubscribeState::ReceiveStopped { .. } => Some(
                self.transition_to(
                    SubscribeState::ReceiveStopped { input, cursor: restore_cursor.clone() },
                    None,
                ),
            ),
        }
    }

    /// Handle a successful handshake or handshake retry.
    fn handshake_success_transition(&self, next_cursor: &SubscribeCursor) -> (r: Option<Transition>)
        ensures
            r.deep_view() == spec_handshake_success(self.deep_view(), next_cursor.deep_view()),
            self.wf() ==> match r {
                Some(t) => t.state.wf(),
                None => true,
            },
    {
        match self {
            SubscribeState::Handshaking { input, cursor } => {
                let mut mid: Vec<SubscribeEffectInvocation> = Vec::new();
                mid.push(SubscribeEffectInvocation::EmitStatus(SubscribeStatus::Connected));
                proof {
                    assert(mid.deep_view() =~= seq![
                        InvocationModel::EmitStatus(StatusModel::Connected),
                    ]);
                }
                Some(
                    self.transition_to(
                        SubscribeState::Receiving {
                            input: input.clone(),
                            cursor: cursor_or(cursor, next_cursor),
                        },
                        Some(mid),
                    ),
                )
            },
            SubscribeState::HandshakeReconnecting { input, cursor, .. } => {
                let mut mid: Vec<SubscribeEffectInvocation> = Vec::new();
                mid.push(SubscribeEffectInvocation::EmitStatus(SubscribeStatus::Connected));
                proof {
                    assert(mid.deep_view() =~= seq![
                        InvocationModel::EmitStatus(StatusModel::Connected),
                    ]);
                }
                Some(
                    self.transition_to(
                        SubscribeState::Receiving {
                            input: input.clone(),
                            cursor: cursor_or(cursor, next_cursor),
                        },
                        Some(mid),
                    ),
                )
            },
            _ => None,
        }
    }

    /// Handle a failed initial handshake.
    fn handshake_failure_transition(&self, reason: &PubNubError) -> (r: Option<Transition>)
        ensures
            r.deep_view() == spec_handshake_failure(self.deep_view(), reason.deep_view()),
            self.wf() ==> match r {
                Some(t) => t.state.wf(),
                None => true,
            },
    {
        match self {
            SubscribeState::Handshaking { input, cursor } => Some(
                self.transition_to(
                    SubscribeState::HandshakeReconnecting {
                        input: input.clone(),
                        cursor: clone_opt_cursor(cursor),
                        attempts: 1,
                        reason: reason.clone(),
                    },
                    None,
                ),
            ),
            _ => None,
        }
    }

    /// Handle a failed handshake retry.
    fn handshake_reconnect_failure_transition(&self, reason: &PubNubError) -> (r: Option<
        Transition,
    >)
        ensures
            r.deep_view() == spec_handshake_reconnect_failure(
                self.deep_view(),
                reason.deep_view(),
            ),
            self.wf() ==> match r {
                Some(t) => t.state.wf(),
                None => true,
            },
    {
        match self {
            SubscribeState::HandshakeReconnecting { input, cursor, attempts, .. } => Some(
                self.transition_to(
                    SubscribeState::HandshakeReconnecting {
                        input: input.clone(),
                        cursor: clone_opt_cursor(cursor),
                        attempts: next_attempt(*attempts),
                        reason: reason.clone(),
                    },
                    None,
                ),
            ),
            _ => None,
        }
    }

    /// Handle exhausted handshake retries.
    fn handshake_reconnect_give_up_transition(&self, reason: &PubNubError) -> (r: Option<
        Transition,
    >)
        ensures
            r.deep_view() == spec_handshake_reconnect_give_up(
                self.deep_view(),
                reason.deep_view(),
            ),
            self.wf() ==> match r {
                Some(t) => t.state.wf(),
                None => true,
            },
    {
        match self {
            SubscribeState::HandshakeReconnecting { input, cursor, .. } => {
                let mut mid: Vec<SubscribeEffectInvocation> = Vec::new();
                mid.push(
                    SubscribeEffectInvocation::EmitStatus(
                        SubscribeStatus::ConnectionError(reason.clone()),
                    ),
                );
                proof {
                    assert(mid.deep_view() =~= seq![
                        InvocationModel::EmitStatus(
                            StatusModel::ConnectionError(reason.deep_view()),
                        ),
                    ]);
                }
                Some(
                    self.transition_to(
                        SubscribeState::HandshakeFailed {
                            input: input.clone(),
                            cursor: clone_opt_cursor(cursor),
                            reason: reason.clone(),
                        },
                        Some(mid),
                    ),
                )
            },
            _ => None,
        }
    }

    /// Handle received updates from a receive or receive retry.
    fn receive_success_transition(
        &self,
        cursor: &SubscribeCursor,
        messages: &Vec<Update>,
    ) -> (r: Option<Transition>)
        ensures
            r.deep_view() == spec_receive_success(
                self.deep_view(),
                cursor.deep_view(),
                messages.deep_view(),
            ),
            self.wf() ==> match r {
                Some(t) => t.state.wf(),
                None => true,
            },
    {
        match self {
            SubscribeState::Receiving { input, .. } => {
                let mut mid: Vec<SubscribeEffectInvocation> = Vec::new();
                mid.push(SubscribeEffectInvocation::EmitMessages(clone_update_vec(messages)));
                proof {
                    assert(mid.deep_view() =~= seq![
                        InvocationModel::EmitMessages(messages.deep_view()),
                    ]);
                }
                Some(
                    self.transition_to(
                        SubscribeState::Receiving { input: input.clone(), cursor: cursor.clone() },
                        Some(mid),
                    ),
                )
            },
            SubscribeState::ReceiveReconnecting { input, .. } => {
                let mut mid: Vec<SubscribeEffectInvocation> = Vec::new();
                mid.push(SubscribeEffectInvocation::EmitMessages(clone_update_vec(messages)));
                proof {
                    assert(mid.deep_view() =~= seq![
                        InvocationModel::EmitMessages(messages.deep_view()),
                    ]);
                }
                Some(
                    self.transition_to(
                        SubscribeState::Receiving { input: input.clone(), cursor: cursor.clone() },
                        Some(mid),
                    ),
                )
            },
            _ => None,
        }
    }

    /// Handle a failed receive.
    fn receive_failure_transition(&self, reason: &PubNubError) -> (r: Option<Transition>)
        ensures
            r.deep_view() == spec_receive_failure(self.deep_view(), reason.deep_view()),
            self.wf() ==> match r {
                Some(t) => t.state.wf(),
                None => true,
            },
    {
        match self {
            SubscribeState::Receiving { input, cursor } => Some(
                self.transition_to(
                    SubscribeState::ReceiveReconnecting {
                        input: input.clone(),
                        cursor: cursor.clone(),
                        attempts: 1,
                        reason: reason.clone(),
                    },
                    None,
                ),
            ),
            _ => None,
        }
    }

    /// Handle a failed receive retry.
    fn receive_reconnect_failure_transition(&self, reason: &PubNubError) -> (r: Option<Transition>)
        ensures
            r.deep_view() == spec_receive_reconnect_failure(self.deep_view(), reason.deep_view()),
            self.wf() ==> match r {
                Some(t) => t.state.wf(),
                None => true,
            },
    {
        match self {
            SubscribeState::ReceiveReconnecting { input, cursor, attempts, .. } => Some(
                self.transition_to(
                    SubscribeState::ReceiveReconnecting {
                        input: input.clone(),
                        cursor: cursor.clone(),
                        attempts: next_attempt(*attempts),
                        reason: reason.clone(),
                    },
                    None,
                ),
            ),
            _ => None,
        }
    }

    /// Handle exhausted receive retries.
    fn receive_reconnect_give_up_transition(&self, reason: &PubNubError) -> (r: Option<Transition>)
        ensures
            r.deep_view() == spec_receive_reconnect_give_up(self.deep_view(), reason.deep_view()),
            self.wf() ==> match r {
                Some(t) => t.state.wf(),
                None => true,
            },
    {
        match self {
            SubscribeState::ReceiveReconnecting { input, cursor, .. } => {
                let mut mid: Vec<SubscribeEffectInvocation> = Vec::new();
                mid.push(SubscribeEffectInvocation::EmitStatus(SubscribeStatus::Disconnected));
                proof {
                    assert(mid.deep_view() =~= seq![
                        InvocationModel::EmitStatus(StatusModel::Disconnected),
                    ]);
                }
                Some(
                    self.transition_to(
                        SubscribeState::ReceiveFailed {
                            input: input.clone(),
                            cursor: cursor.clone(),
                            reason: reason.clone(),
                        },
                        Some(mid),
                    ),
                )
            },
            _ => None,
        }
    }

    /// Handle a pause request.
    fn disconnect_transition(&self) -> (r: Option<Transition>)
        ensures
            r.deep_view() == spec_disconnect(self.deep_view()),
            self.wf() ==> match r {
                Some(t) => t.state.wf(),
                None => true,
            },
    {
        match self {
            SubscribeState::Handshaking { input, cursor } => Some(
                self.transition_to(
                    SubscribeState::HandshakeStopped {
                        input: input.clone(),
                        cursor: clone_opt_cursor(cursor),
                    },
                    None,
                ),
            ),
            SubscribeState::HandshakeReconnecting { input, cursor, .. } => Some(
                self.transition_to(
                    SubscribeState::HandshakeStopped {
                        input: input.clone(),
                        cursor: clone_opt_cursor(cursor),
                    },
                    None,
                ),
            ),
            SubscribeState::Receiving { input, cursor } => {
                let mut mid: Vec<SubscribeEffectInvocation> = Vec::new();
                mid.push(SubscribeEffectInvocation::EmitStatus(SubscribeStatus::Disconnected));
                proof {
                    assert(mid.deep_view() =~= seq![
                        InvocationModel::EmitStatus(StatusModel::Disconnected),
                    ]);
                }
                Some(
                    self.transition_to(
                        SubscribeState::ReceiveStopped {
                            input: input.clone(),
                            cursor: cursor.clone(),
                        },
                        Some(mid),
                    ),
                )
            },
            SubscribeState::ReceiveReconnecting { input, cursor, .. } => {
                let mut mid: Vec<SubscribeEffectInvocation> = Vec::new();
                mid.push(SubscribeEffectInvocation::EmitStatus(SubscribeStatus::Disconnected));
                proof {
                    assert(mid.deep_view() =~= seq![
                        InvocationModel::EmitStatus(StatusModel::Disconnected),
                    ]);
                }
                Some(
                    self.transition_to(
                        SubscribeState::ReceiveStopped {
                            input: input.clone(),
                            cursor: cursor.clone(),
                        },
                        Some(mid),
                    ),
                )
            },
            _ => None,
        }
    }

    /// Handle a resume request.
    fn reconnect_transition(&self) -> (r: Option<Transition>)
        ensures
            r.deep_view() == spec_reconnect(self.deep_view()),
            self.wf() ==> match r {
                Some(t) => t.state.wf(),
                None => true,
            },
    {
        match self {
            SubscribeState::HandshakeStopped { input, cursor } => Some(
                self.transition_to(
                    SubscribeState::Handshaking {
                        input: input.clone(),
                        cursor: clone_opt_cursor(cursor),
                    },
                    None,
                ),
            ),
            SubscribeState::HandshakeFailed { input, cursor, .. } => Some(
                self.transition_to(
                    SubscribeState::Handshaking {
                        input: input.clone(),
                        cursor: clone_opt_cursor(cursor),
                    },
                    None,
                ),
            ),
            SubscribeState::ReceiveStopped { input, cursor } => Some(
                self.transition_to(
                    SubscribeState::Handshaking {
                        input: input.clone(),
                        cursor: Some(cursor.clone()),
                    },
                    None,
                ),
            ),
            SubscribeState::ReceiveFailed { input, cursor, .. } => Some(
                self.transition_to(
                    SubscribeState::Handshaking {
                        input: input.clone(),
                        cursor: Some(cursor.clone()),
                    },
                    None,
                ),
            ),
            _ => None,
        }
    }

    /// Handle an unsubscribe request.
    fn unsubscribe_all_transition(&self) -> (r: Option<Transition>)
        ensures
            r.deep_view() == spec_unsubscribe_all(self.deep_view()),
            self.wf() ==> match r {
                Some(t) => t.state.wf(),
                None => true,
            },
    {
        match self {
            SubscribeState::Unsubscribed => None,
            _ => {
                let mut mid: Vec<SubscribeEffectInvocation> = Vec::new();
                mid.push(SubscribeEffectInvocation::EmitStatus(SubscribeStatus::Disconnected));
                proof {
                    assert(mid.deep_view() =~= seq![
                        InvocationModel::EmitStatus(StatusModel::Disconnected),
                    ]);
                }
                Some(self.transition_to(SubscribeState::Unsubscribed, Some(mid)))
            },
        }
    }

    /// React to an event: the transition the state makes for it, or
    /// nothing when the state does not handle the event.
    pub fn transition(&self, event: &SubscribeEvent) -> (r: Option<Transition>)
        ensures
            r.deep_view() == spec_transition(self.deep_view(), event.deep_view()),
            self.wf() ==> match r {
                Some(t) => t.state.wf(),
                None => true,
            },
    {
        match event {
            SubscribeEvent::SubscriptionChanged { channels, channel_groups } => {
                self.subscription_changed_transition(channels, channel_groups)
            },
            SubscribeEvent::SubscriptionRestored { channels, channel_groups, cursor } => {
                self.subscription_restored_transition(channels, channel_groups, cursor)
            },
            SubscribeEvent::HandshakeSuccess { cursor } => {
                self.handshake_success_transition(cursor)
            },
            SubscribeEvent::HandshakeReconnectSuccess { cursor } => {
                self.handshake_success_transition(cursor)
            },
            SubscribeEvent::HandshakeFailure { reason } => {
                self.handshake_failure_transition(reason)
            },
            SubscribeEvent::HandshakeReconnectFailure { reason } => {
                self.handshake_reconnect_failure_transition(reason)
            },
            SubscribeEvent::HandshakeReconnectGiveUp { reason } => {
                self.handshake_reconnect_give_up_transition(reason)
            },
            SubscribeEvent::ReceiveSuccess { cursor, messages } => {
                self.receive_success_transition(cursor, messages)
            },
            SubscribeEvent::ReceiveReconnectSuccess { cursor, messages } => {
                self.receive_success_transition(cursor, messages)
            },
            SubscribeEvent::ReceiveFailure { reason } => self.receive_failure_transition(reason),
            SubscribeEvent::ReceiveReconnectFailure { reason } => {
                self.receive_reconnect_failure_transition(reason)
            },
            SubscribeEvent::ReceiveReconnectGiveUp { reason } => {
                self.receive_reconnect_give_up_transition(reason)
            },
            SubscribeEvent::Disconnect => self.disconnect_transition(),
            SubscribeEvent::Reconnect => self.reconnect_transition(),
            SubscribeEvent::UnsubscribeAll => self.unsubscribe_all_transition(),
        }
    }
}

// ---------------------------------------------------------------------------
// Laws of the transition table
// ---------------------------------------------------------------------------
/// Whether the state is one of the handshake-phase states.
pub open spec fn spec_is_handshake_state(s: SubscribeStateModel) -> bool {
    ||| s matches SubscribeStateModel::Handshaking { .. }
    ||| s matches SubscribeStateModel::HandshakeReconnecting { .. }
    ||| s matches SubscribeStateModel::HandshakeStopped { .. }
    ||| s matches SubscribeStateModel::HandshakeFailed { .. }
}

/// The cursor preserved by a handshake-phase state.
pub open spec fn spec_handshake_cursor(s: SubscribeStateModel) -> Option<CursorModel> {
    match s {
        SubscribeStateModel::Handshaking { cursor, .. } => cursor,
        SubscribeStateModel::HandshakeReconnecting { cursor, .. } => cursor,
        SubscribeStateModel::HandshakeStopped { cursor, .. } => cursor,
        SubscribeStateModel::HandshakeFailed { cursor, .. } => cursor,
        _ => None,
    }
}

/// From `Unsubscribed`, only a subscription change or a subscription
/// restore produces a transition; every other event is a no-op.
pub proof fn lemma_unsubscribed_reacts_only_to_subscriptions(e: SubscribeEventModel)
    ensures
        spec_transition(SubscribeStateModel::Unsubscribed, e) is Some <==> (e matches
            SubscribeEventModel::SubscriptionChanged { .. } || e matches
            SubscribeEventModel::SubscriptionRestored { .. }),
{
}

/// Every transition into `Handshaking`, `HandshakeReconnecting`,
/// `Receiving` or `ReceiveReconnecting` ends its invocation list with
/// exactly one primary start invocation — the entered state's own — and
/// everything before it is a cancellation of the previous state's effect
/// or an emit instruction.
pub proof fn lemma_entry_starts_exactly_one_effect(
    s: SubscribeStateModel,
    e: SubscribeEventModel,
)
    requires
        spec_transition(s, e) is Some,
        spec_enter(spec_transition(s, e).unwrap().state) is Some,
    ensures
        ({
            let t = spec_transition(s, e).unwrap();
            &&& t.invocations.len() >= 1
            &&& t.invocations.last() == spec_enter(t.state).unwrap()[0]
            &&& spec_is_start(t.invocations.last())
            &&& forall|i: int|
                0 <= i < t.invocations.len() - 1 ==> !spec_is_start(#[trigger] t.invocations[i])
                    && (spec_is_cancellation(t.invocations[i]) || spec_is_emit(t.invocations[i]))
        }),
{
    let t = spec_transition(s, e).unwrap();
    let ex = spec_opt_invs(spec_exit(s));
    let en = spec_opt_invs(spec_enter(t.state));
    assert(forall|i: int| 0 <= i < ex.len() ==> spec_is_cancellation(#[trigger] ex[i]));
    assert(en.len() == 1 && spec_is_start(en[0]));
}

/// A subscription restore in any handshake-phase state yields a new
/// `Handshaking` state whose cursor is the previously preserved one when
/// there is one, and the restored cursor otherwise.
pub proof fn lemma_restore_prefers_preserved_cursor(
    s: SubscribeStateModel,
    channels: Option<Seq<Seq<char>>>,
    channel_groups: Option<Seq<Seq<char>>>,
    cursor: CursorModel,
)
    requires
        spec_is_handshake_state(s),
    ensures
        ({
            let r = spec_transition(
                s,
                SubscribeEventModel::SubscriptionRestored { channels, channel_groups, cursor },
            );
            &&& r is Some
            &&& r.unwrap().state == SubscribeStateModel::Handshaking {
                input: InputModel::from_lists(channels, channel_groups),
                cursor: Some(spec_cursor_or(spec_handshake_cursor(s), cursor)),
            }
        }),
{
}

/// A change of the channel mix while receiving preserves the cursor
/// exactly: no re-handshake happens and the long poll continues from the
/// same point in the stream.
pub proof fn lemma_change_while_receiving_preserves_cursor(
    input: InputModel,
    cursor: CursorModel,
    channels: Option<Seq<Seq<char>>>,
    channel_groups: Option<Seq<Seq<char>>>,
)
    ensures
        ({
            let r = spec_transition(
                SubscribeStateModel::Receiving { input, cursor },
                SubscribeEventModel::SubscriptionChanged { channels, channel_groups },
            );
            &&& r is Some
            &&& r.unwrap().state == SubscribeStateModel::Receiving {
                input: InputModel::from_lists(channels, channel_groups),
                cursor,
            }
        }),
{
}

/// From any state but `Unsubscribed`, an unsubscribe request drops to
/// `Unsubscribed` and emits a `Disconnected` status right after the exit
/// cancellation of whatever effect was in flight.
pub proof fn lemma_unsubscribe_all_drops_everything(s: SubscribeStateModel)
    requires
        s != SubscribeStateModel::Unsubscribed,
    ensures
        ({
            let r = spec_transition(s, SubscribeEventModel::UnsubscribeAll);
            &&& r is Some
            &&& r.unwrap().state == SubscribeStateModel::Unsubscribed
            &&& r.unwrap().invocations == spec_opt_invs(spec_exit(s)) + seq![
                InvocationModel::EmitStatus(StatusModel::Disconnected),
            ]
            &&& (spec_exit(s) is Some ==> spec_is_cancellation(r.unwrap().invocations[0]))
        }),
{
    let r = spec_transition(s, SubscribeEventModel::UnsubscribeAll);
    assert(spec_opt_invs(spec_enter(SubscribeStateModel::Unsubscribed))
        =~= Seq::<InvocationModel>::empty());
    assert(r.unwrap().invocations =~= spec_opt_invs(spec_exit(s)) + seq![
        InvocationModel::EmitStatus(StatusModel::Disconnected),
    ]);
}

/// The preserved cursor, cloned, or a copy of the fallback.
fn cursor_or(preserved: &Option<SubscribeCursor>, fallback: &SubscribeCursor) -> (r:
    SubscribeCursor)
    ensures
        r.deep_view() == spec_cursor_or(preserved.deep_view(), fallback.deep_view()),
{
    match preserved {
        Some(c) => c.clone(),
        None => fallback.clone(),
    }
}

/// The next retry attempt number, sticking at the largest value.
fn next_attempt(a: u8) -> (r: u8)
    ensures
        r == spec_next_attempt(a),
{
    if a == u8::MAX {
        a
    } else {
        a + 1
    }
}

/// The transition table of the subscribe engine: what each event does in
/// each state, or nothing when the state does not handle the event.
pub open spec fn spec_transition(
    s: SubscribeStateModel,
    e: SubscribeEventModel,
) -> Option<TransitionModel> {
    match e {
        SubscribeEventModel::SubscriptionChanged { channels, channel_groups } => {
            spec_subscription_changed(s, channels, channel_groups)
        },
        SubscribeEventModel::SubscriptionRestored { channels, channel_groups, cursor } => {
            spec_subscription_restored(s, channels, channel_groups, cursor)
        },
        SubscribeEventModel::HandshakeSuccess { cursor } => spec_handshake_success(s, cursor),
        SubscribeEventModel::HandshakeReconnectSuccess { cursor } => spec_handshake_success(
            s,
            cursor,
        ),
        SubscribeEventModel::HandshakeFailure { reason } => spec_handshake_failure(s, reason),
        SubscribeEventModel::HandshakeReconnectFailure { reason } => {
            spec_handshake_reconnect_failure(s, reason)
        },
        SubscribeEventModel::HandshakeReconnectGiveUp { reason } => {
            spec_handshake_reconnect_give_up(s, reason)
        },
        SubscribeEventModel::ReceiveSuccess { cursor, messages } => spec_receive_success(
            s,
            cursor,
            messages,
        ),
        SubscribeEventModel::ReceiveReconnectSuccess { cursor, messages } => spec_receive_success(
            s,
            cursor,
            messages,
        ),
        SubscribeEventModel::ReceiveFailure { reason } => spec_receive_failure(s, reason),
        SubscribeEventModel::ReceiveReconnectFailure { reason } => spec_receive_reconnect_failure(
            s,
            reason,
        ),
        SubscribeEventModel::ReceiveReconnectGiveUp { reason } => spec_receive_reconnect_give_up(
            s,
            reason,
        ),
        SubscribeEventModel::Disconnect => spec_disconnect(s),
        SubscribeEventModel::Reconnect => spec_reconnect(s),
        SubscribeEventModel::UnsubscribeAll => spec_unsubscribe_all(s),
    }
}

} // verus!

