//! The presence engine: periodic heartbeats for the subscribed channels.
//!
//! The engine announces the client's presence with a heartbeat, waits out
//! the configured interval, and heartbeats again. Failures move through a
//! reconnecting state gated by the retry policy; on `LeftAll` a one-shot
//! leave request is fired and the engine returns to `Inactive`. The wait
//! and the delayed heartbeat are cancellable, so a change of the channel
//! mix replaces them without waiting for the timer.

use vstd::prelude::*;

use crate::error::{PubNubError, PubNubErrorModel};
use crate::input::{InputModel, SubscribeInput};
use crate::retry::{spec_retriable_error, RequestRetryPolicy};

verus! {

/// States of the presence engine.
#[derive(Debug, PartialEq)]
pub enum PresenceState {
    /// No channels to announce presence on.
    Inactive,
    /// A heartbeat request is in flight.
    Heartbeating {
        /// Channels and groups presence is announced for.
        input: SubscribeInput,
    },
    /// Waiting out the heartbeat interval.
    HeartbeatCooldown {
        /// Channels and groups presence is announced for.
        input: SubscribeInput,
    },
    /// Recovering from a failed heartbeat.
    HeartbeatReconnecting {
        /// Channels and groups presence is announced for.
        input: SubscribeInput,
        /// Which retry attempt is running.
        attempts: u8,
        /// The most recent heartbeat failure.
        reason: PubNubError,
    },
    /// Heartbeat retries exhausted.
    HeartbeatFailed {
        /// Channels and groups that failed to announce.
        input: SubscribeInput,
        /// The failure that exhausted the retries.
        reason: PubNubError,
    },
    /// Heartbeating paused by the application.
    HeartbeatStopped {
        /// Channels and groups to announce on resume.
        input: SubscribeInput,
    },
}

/// Ghost counterpart of [`PresenceState`].
pub ghost enum PresenceStateModel {
    Inactive,
    Heartbeating { input: InputModel },
    HeartbeatCooldown { input: InputModel },
    HeartbeatReconnecting { input: InputModel, attempts: u8, reason: PubNubErrorModel },
    HeartbeatFailed { input: InputModel, reason: PubNubErrorModel },
    HeartbeatStopped { input: InputModel },
}

impl DeepView for PresenceState {
    type V = PresenceStateModel;

    open spec fn deep_view(&self) -> PresenceStateModel {
        match self {
            PresenceState::Inactive => PresenceStateModel::Inactive,
            PresenceState::Heartbeating { input } => PresenceStateModel::Heartbeating {
                input: input.deep_view(),
            },
            PresenceState::HeartbeatCooldown { input } => PresenceStateModel::HeartbeatCooldown {
                input: input.deep_view(),
            },
            PresenceState::HeartbeatReconnecting { input, attempts, reason } => {
                PresenceStateModel::HeartbeatReconnecting {
                    input: input.deep_view(),
                    attempts: *attempts,
                    reason: reason.deep_view(),
                }
            },
            PresenceState::HeartbeatFailed { input, reason } => {
                PresenceStateModel::HeartbeatFailed {
                    input: input.deep_view(),
                    reason: reason.deep_view(),
                }
            },
            PresenceState::HeartbeatStopped { input } => PresenceStateModel::HeartbeatStopped {
                input: input.deep_view(),
            },
        }
    }
}

impl Clone for PresenceState {
    /// Copy of the state with the same content.
    fn clone(&self) -> (r: Self)
        ensures
            r.deep_view() == self.deep_view(),
    {
        match self {
            PresenceState::Inactive => PresenceState::Inactive,
            PresenceState::Heartbeating { input } => PresenceState::Heartbeating {
                input: input.clone(),
            },
            PresenceState::HeartbeatCooldown { input } => PresenceState::HeartbeatCooldown {
                input: input.clone(),
            },
            PresenceState::HeartbeatReconnecting { input, attempts, reason } => {
                PresenceState::HeartbeatReconnecting {
                    input: input.clone(),
                    attempts: *attempts,
                    reason: reason.clone(),
                }
            },
            PresenceState::HeartbeatFailed { input, reason } => PresenceState::HeartbeatFailed {
                input: input.clone(),
                reason: reason.clone(),
            },
            PresenceState::HeartbeatStopped { input } => PresenceState::HeartbeatStopped {
                input: input.clone(),
            },
        }
    }
}

/// An event the presence engine reacts to.
#[derive(Debug, PartialEq)]
pub enum PresenceEvent {
    /// The application changed the channel and channel group lists.
    Joined {
        /// The new channel list.
        channels: Option<Vec<String>>,
        /// The new channel group list.
        channel_groups: Option<Vec<String>>,
    },
    /// The application left all channels or shut down.
    LeftAll,
    /// The heartbeat request succeeded.
    HeartbeatSuccess,
    /// The heartbeat request failed.
    HeartbeatFailure {
        /// Why it failed.
        reason: PubNubError,
    },
    /// Heartbeat retries are exhausted.
    HeartbeatGiveUp {
        /// The failure that exhausted them.
        reason: PubNubError,
    },
    /// The heartbeat interval elapsed.
    TimesUp,
    /// The application asked to pause all activity.
    Disconnect,
    /// The application asked to resume activity.
    Reconnect,
}

/// Ghost counterpart of [`PresenceEvent`].
pub ghost enum PresenceEventModel {
    Joined { channels: Option<Seq<Seq<char>>>, channel_groups: Option<Seq<Seq<char>>> },
    LeftAll,
    HeartbeatSuccess,
    HeartbeatFailure { reason: PubNubErrorModel },
    HeartbeatGiveUp { reason: PubNubErrorModel },
    TimesUp,
    Disconnect,
    Reconnect,
}

impl DeepView for PresenceEvent {
    type V = PresenceEventModel;

    open spec fn deep_view(&self) -> PresenceEventModel {
        match self {
            PresenceEvent::Joined { channels, channel_groups } => PresenceEventModel::Joined {
                channels: channels.deep_view(),
                channel_groups: channel_groups.deep_view(),
            },
            PresenceEvent::LeftAll => PresenceEventModel::LeftAll,
            PresenceEvent::HeartbeatSuccess => PresenceEventModel::HeartbeatSuccess,
            PresenceEvent::HeartbeatFailure { reason } => PresenceEventModel::HeartbeatFailure {
                reason: reason.deep_view(),
            },
            PresenceEvent::HeartbeatGiveUp { reason } => PresenceEventModel::HeartbeatGiveUp {
                reason: reason.deep_view(),
            },
            PresenceEvent::TimesUp => PresenceEventModel::TimesUp,
            PresenceEvent::Disconnect => PresenceEventModel::Disconnect,
            PresenceEvent::Reconnect => PresenceEventModel::Reconnect,
        }
    }
}

/// One instruction of a presence transition to the effect dispatcher.
#[derive(Debug, PartialEq)]
pub enum PresenceEffectInvocation {
    /// Announce presence for these channels and groups.
    Heartbeat {
        /// Channels and groups to announce.
        input: SubscribeInput,
    },
    /// Retry a failed heartbeat after the policy's delay.
    DelayedHeartbeat {
        /// Channels and groups to announce.
        input: SubscribeInput,
        /// Which retry attempt this is.
        attempts: u8,
        /// The failure that caused the retry.
        reason: PubNubError,
    },
    /// Abort the in-flight delayed heartbeat.
    CancelDelayedHeartbeat,
    /// Wait out the heartbeat interval.
    Wait {
        /// Channels and groups to announce afterwards.
        input: SubscribeInput,
    },
    /// Abort the in-flight wait.
    CancelWait,
    /// Fire the one-shot leave request.
    Leave {
        /// Channels and groups to withdraw from.
        input: SubscribeInput,
    },
}

/// Ghost counterpart of [`PresenceEffectInvocation`].
pub ghost enum PresenceInvocationModel {
    Heartbeat { input: InputModel },
    DelayedHeartbeat { input: InputModel, attempts: u8, reason: PubNubErrorModel },
    CancelDelayedHeartbeat,
    Wait { input: InputModel },
    CancelWait,
    Leave { input: InputModel },
}

impl DeepView for PresenceEffectInvocation {
    type V = PresenceInvocationModel;

    open spec fn deep_view(&self) -> PresenceInvocationModel {
        match self {
            PresenceEffectInvocation::Heartbeat { input } => PresenceInvocationModel::Heartbeat {
                input: input.deep_view(),
            },
            PresenceEffectInvocation::DelayedHeartbeat { input, attempts, reason } => {
                PresenceInvocationModel::DelayedHeartbeat {
                    input: input.deep_view(),
                    attempts: *attempts,
                    reason: reason.deep_view(),
                }
            },
            PresenceEffectInvocation::CancelDelayedHeartbeat => {
                PresenceInvocationModel::CancelDelayedHeartbeat
            },
            PresenceEffectInvocation::Wait { input } => PresenceInvocationModel::Wait {
                input: input.deep_view(),
            },
            PresenceEffectInvocation::CancelWait => PresenceInvocationModel::CancelWait,
            PresenceEffectInvocation::Leave { input } => PresenceInvocationModel::Leave {
                input: input.deep_view(),
            },
        }
    }
}

/// A presence transition: the state to move to, and the invocations to
/// hand to the effect dispatcher, in order.
#[derive(Debug, PartialEq)]
pub struct PresenceTransition {
    /// Exit cancellations, mid-transition instructions, then the entered
    /// state's primary effect.
    pub invocations: Vec<PresenceEffectInvocation>,
    /// The state to move to.
    pub state: PresenceState,
}

/// Ghost counterpart of [`PresenceTransition`].
pub ghost struct PresenceTransitionModel {
    pub invocations: Seq<PresenceInvocationModel>,
    pub state: PresenceStateModel,
}

impl DeepView for PresenceTransition {
    type V = PresenceTransitionModel;

    open spec fn deep_view(&self) -> PresenceTransitionModel {
        PresenceTransitionModel {
            invocations: self.invocations.deep_view(),
            state: self.state.deep_view(),
        }
    }
}

/// The invocations an optional invocation list denotes.
pub open spec fn spec_opt_presence_invs(
    o: Option<Seq<PresenceInvocationModel>>,
) -> Seq<PresenceInvocationModel> {
    match o {
        Some(s) => s,
        None => Seq::<PresenceInvocationModel>::empty(),
    }
}

/// The primary effect started on entry into a presence state: the
/// heartbeat, the interval wait or the delayed heartbeat retry.
pub open spec fn spec_presence_enter(s: PresenceStateModel) -> Option<
    Seq<PresenceInvocationModel>,
> {
    match s {
        PresenceStateModel::Heartbeating { input } => Some(
            seq![PresenceInvocationModel::Heartbeat { input }],
        ),
        PresenceStateModel::HeartbeatCooldown { input } => Some(
            seq![PresenceInvocationModel::Wait { input }],
        ),
        PresenceStateModel::HeartbeatReconnecting { input, attempts, reason } => Some(
            seq![PresenceInvocationModel::DelayedHeartbeat { input, attempts, reason }],
        ),
        _ => None,
    }
}

/// The cancellation issued on exit from a presence state: the wait and
/// the delayed heartbeat must be cancellable so that a change of the
/// channel mix replaces them without waiting for the timer.
pub open spec fn spec_presence_exit(s: PresenceStateModel) -> Option<
    Seq<PresenceInvocationModel>,
> {
    match s {
        PresenceStateModel::HeartbeatCooldown { .. } => Some(
            seq![PresenceInvocationModel::CancelWait],
        ),
        PresenceStateModel::HeartbeatReconnecting { .. } => Some(
            seq![PresenceInvocationModel::CancelDelayedHeartbeat],
        ),
        _ => None,
    }
}

/// The presence transition from `s` to `next`: exit cancellations, then
/// the given mid-transition invocations, then the entry effect of `next`.
pub open spec fn spec_presence_transition_to(
    s: PresenceStateModel,
    next: PresenceStateModel,
    mid: Option<Seq<PresenceInvocationModel>>,
) -> PresenceTransitionModel {
    PresenceTransitionModel {
        invocations: spec_opt_presence_invs(spec_presence_exit(s)) + spec_opt_presence_invs(mid)
            + spec_opt_presence_invs(spec_presence_enter(next)),
        state: next,
    }
}

/// The transition table of the presence engine: a change of the channel
/// mix re-heartbeats at once (a stopped engine only adopts the new
/// input); heartbeat outcomes drive the heartbeat / cooldown / retry
/// cycle; `LeftAll` fires the one-shot leave and deactivates the engine —
/// silently when it was stopped; `Disconnect` and `Reconnect` pause and
/// resume.
pub open spec fn spec_presence_transition(
    s: PresenceStateModel,
    e: PresenceEventModel,
) -> Option<PresenceTransitionModel> {
    match e {
        PresenceEventModel::Joined { channels, channel_groups } => {
            let input = InputModel::from_lists(channels, channel_groups);
            match s {
                PresenceStateModel::HeartbeatStopped { .. } => Some(
                    spec_presence_transition_to(
                        s,
                        PresenceStateModel::HeartbeatStopped { input },
                        None,
                    ),
                ),
                _ => Some(
                    spec_presence_transition_to(
                        s,
                        PresenceStateModel::Heartbeating { input },
                        None,
                    ),
                ),
            }
        },
        PresenceEventModel::LeftAll => match s {
            PresenceStateModel::Inactive => None,
            PresenceStateModel::HeartbeatStopped { .. } => Some(
                spec_presence_transition_to(s, PresenceStateModel::Inactive, None),
            ),
            PresenceStateModel::Heartbeating { input } => Some(
                spec_presence_transition_to(
                    s,
                    PresenceStateModel::Inactive,
                    Some(seq![PresenceInvocationModel::Leave { input }]),
                ),
            ),
            PresenceStateModel::HeartbeatCooldown { input } => Some(
                spec_presence_transition_to(
                    s,
                    PresenceStateModel::Inactive,
                    Some(seq![PresenceInvocationModel::Leave { input }]),
                ),
            ),
            PresenceStateModel::HeartbeatReconnecting { input, .. } => Some(
                spec_presence_transition_to(
                    s,
                    PresenceStateModel::Inactive,
                    Some(seq![PresenceInvocationModel::Leave { input }]),
                ),
            ),
            PresenceStateModel::HeartbeatFailed { input, .. } => Some(
                spec_presence_transition_to(
                    s,
                    PresenceStateModel::Inactive,
                    Some(seq![PresenceInvocationModel::Leave { input }]),
                ),
            ),
        },
        PresenceEventModel::HeartbeatSuccess => match s {
            PresenceStateModel::Heartbeating { input } => Some(
                spec_presence_transition_to(
                    s,
                    PresenceStateModel::HeartbeatCooldown { input },
                    None,
                ),
            ),
            PresenceStateModel::HeartbeatReconnecting { input, .. } => Some(
                spec_presence_transition_to(
                    s,
                    PresenceStateModel::HeartbeatCooldown { input },
                    None,
                ),
            ),
            _ => None,
        },
        PresenceEventModel::HeartbeatFailure { reason } => match s {
            PresenceStateModel::Heartbeating { input } => Some(
                spec_presence_transition_to(
                    s,
                    PresenceStateModel::HeartbeatReconnecting { input, attempts: 1, reason },
                    None,
                ),
            ),
            PresenceStateModel::HeartbeatReconnecting { input, attempts, .. } => Some(
                spec_presence_transition_to(
                    s,
                    PresenceStateModel::HeartbeatReconnecting {
                        input,
                        attempts: crate::subscribe_state::spec_next_attempt(attempts),
                        reason,
                    },
                    None,
                ),
            ),
            _ => None,
        },
        PresenceEventModel::HeartbeatGiveUp { reason } => match s {
            PresenceStateModel::HeartbeatReconnecting { input, .. } => Some(
                spec_presence_transition_to(
                    s,
                    PresenceStateModel::HeartbeatFailed { input, reason },
                    None,
                ),
            ),
            _ => None,
        },
        PresenceEventModel::TimesUp => match s {
            PresenceStateModel::HeartbeatCooldown { input } => Some(
                spec_presence_transition_to(
                    s,
                    PresenceStateModel::Heartbeating { input },
                    None,
                ),
            ),
            _ => None,
        },
        PresenceEventModel::Disconnect => match s {
            PresenceStateModel::Heartbeating { input } => Some(
                spec_presence_transition_to(
                    s,
                    PresenceStateModel::HeartbeatStopped { input },
                    None,
                ),
            ),
            PresenceStateModel::HeartbeatCooldown { input } => Some(
                spec_presence_transition_to(
                    s,
                    PresenceStateModel::HeartbeatStopped { input },
                    None,
                ),
            ),
            PresenceStateModel::HeartbeatReconnecting { input, .. } => Some(
                spec_presence_transition_to(
                    s,
                    PresenceStateModel::HeartbeatStopped { input },
                    None,
                ),
            ),
            _ => None,
        },
        PresenceEventModel::Reconnect => match s {
            PresenceStateModel::HeartbeatStopped { input } => Some(
                spec_presence_transition_to(
                    s,
                    PresenceStateModel::Heartbeating { input },
                    None,
                ),
            ),
            PresenceStateModel::HeartbeatFailed { input, .. } => Some(
                spec_presence_transition_to(
                    s,
                    PresenceStateModel::Heartbeating { input },
                    None,
                ),
            ),
            _ => None,
        },
    }
}

impl PresenceState {
    /// The primary effect invocation for entry into this state, if any.
    pub fn enter(&self) -> (r: Option<Vec<PresenceEffectInvocation>>)
        ensures
            r.deep_view() == spec_presence_enter(self.deep_view()),
    {
        match self {
            PresenceState::Heartbeating { input } => {
                let mut v: Vec<PresenceEffectInvocation> = Vec::new();
                v.push(PresenceEffectInvocation::Heartbeat { input: input.clone() });
                proof {
                    assert(v.deep_view() =~= spec_presence_enter(self.deep_view()).unwrap());
                }
                Some(v)
            },
            PresenceState::HeartbeatCooldown { input } => {
                let mut v: Vec<PresenceEffectInvocation> = Vec::new();
                v.push(PresenceEffectInvocation::Wait { input: input.clone() });
                proof {
                    assert(v.deep_view() =~= spec_presence_enter(self.deep_view()).unwrap());
                }
                Some(v)
            },
            PresenceState::HeartbeatReconnecting { input, attempts, reason } => {
                let mut v: Vec<PresenceEffectInvocation> = Vec::new();
                v.push(
                    PresenceEffectInvocation::DelayedHeartbeat {
                        input: input.clone(),
                        attempts: *attempts,
                        reason: reason.clone(),
                    },
                );
                proof {
                    assert(v.deep_view() =~= spec_presence_enter(self.deep_view()).unwrap());
                }
                Some(v)
            },
            _ => None,
        }
    }

    /// The cancellation invocation for exit from this state, if any.
    pub fn exit(&self) -> (r: Option<Vec<PresenceEffectInvocation>>)
        ensures
            r.deep_view() == spec_presence_exit(self.deep_view()),
    {
        match self {
            PresenceState::HeartbeatCooldown { .. } => {
                let mut v: Vec<PresenceEffectInvocation> = Vec::new();
                v.push(PresenceEffectInvocation::CancelWait);
                proof {
                    assert(v.deep_view() =~= spec_presence_exit(self.deep_view()).unwrap());
                }
                Some(v)
            },
            PresenceState::HeartbeatReconnecting { .. } => {
                let mut v: Vec<PresenceEffectInvocation> = Vec::new();
                v.push(PresenceEffectInvocation::CancelDelayedHeartbeat);
                proof {
                    assert(v.deep_view() =~= spec_presence_exit(self.deep_view()).unwrap());
                }
                Some(v)
            },
            _ => None,
        }
    }

    /// Assemble the transition from this state to `state`.
    pub fn transition_to(
        &self,
        state: PresenceState,
        invocations: Option<Vec<PresenceEffectInvocation>>,
    ) -> (r: PresenceTransition)
        ensures
            r.deep_view() == spec_presence_transition_to(
                self.deep_view(),
                state.deep_view(),
                invocations.deep_view(),
            ),
    {
        let ghost mid_model = invocations.deep_view();
        let mut invs: Vec<PresenceEffectInvocation> = match self.exit() {
            Some(v) => v,
            None => Vec::new(),
        };
        let ghost exit_part = invs.deep_view();
        let mut mid: Vec<PresenceEffectInvocation> = match invocations {
            Some(v) => v,
            None => Vec::new(),
        };
        proof {
            assert(mid.deep_view() =~= spec_opt_presence_invs(mid_model));
        }
        invs.append(&mut mid);
        let ghost after_mid = invs.deep_view();
        let mut entry: Vec<PresenceEffectInvocation> = match state.enter() {
            Some(v) => v,
            None => Vec::new(),
        };
        let ghost entry_part = entry.deep_view();
        invs.append(&mut entry);
        proof {
            assert(exit_part =~= spec_opt_presence_invs(spec_presence_exit(self.deep_view())));
            assert(entry_part =~= spec_opt_presence_invs(spec_presence_enter(state.deep_view())));
            assert(after_mid =~= exit_part + spec_opt_presence_invs(mid_model));
            assert(invs.deep_view() =~= after_mid + entry_part);
            assert(invs.deep_view() =~= spec_opt_presence_invs(
                spec_presence_exit(self.deep_view()),
            ) + spec_opt_presence_invs(mid_model) + spec_opt_presence_invs(
                spec_presence_enter(state.deep_view()),
            ));
        }
        PresenceTransition { invocations: invs, state }
    }

    /// React to an event: the transition the state makes for it, or
    /// nothing when the state does not handle the event.
    pub fn transition(&self, event: &PresenceEvent) -> (r: Option<PresenceTransition>)
        ensures
            r.deep_view() == spec_presence_transition(self.deep_view(), event.deep_view()),
    {
        match event {
            PresenceEvent::Joined { channels, channel_groups } => {
                let input = SubscribeInput::new(channels, channel_groups);
                match self {
                    PresenceState::HeartbeatStopped { .. } => Some(
                        self.transition_to(PresenceState::HeartbeatStopped { input }, None),
                    ),
                    _ => Some(self.transition_to(PresenceState::Heartbeating { input }, None)),
                }
            },
            PresenceEvent::LeftAll => match self {
                PresenceState::Inactive => None,
                PresenceState::HeartbeatStopped { .. } => Some(
                    self.transition_to(PresenceState::Inactive, None),
                ),
                PresenceState::Heartbeating { input } => Some(
                    self.transition_to(PresenceState::Inactive, Some(leave_invocation(input))),
                ),
                PresenceState::HeartbeatCooldown { input } => Some(
                    self.transition_to(PresenceState::Inactive, Some(leave_invocation(input))),
                ),
                PresenceState::HeartbeatReconnecting { input, .. } => Some(
                    self.transition_to(PresenceState::Inactive, Some(leave_invocation(input))),
                ),
                PresenceState::HeartbeatFailed { input, .. } => Some(
                    self.transition_to(PresenceState::Inactive, Some(leave_invocation(input))),
                ),
            },
            PresenceEvent::HeartbeatSuccess => match self {
                PresenceState::Heartbeating { input } => Some(
                    self.transition_to(
                        PresenceState::HeartbeatCooldown { input: input.clone() },
                        None,
                    ),
                ),
                PresenceState::HeartbeatReconnecting { input, .. } => Some(
                    self.transition_to(
                        PresenceState::HeartbeatCooldown { input: input.clone() },
                        None,
                    ),
                ),
                _ => None,
            },
            PresenceEvent::HeartbeatFailure { reason } => match self {
                PresenceState::Heartbeating { input } => Some(
                    self.transition_to(
                        PresenceState::HeartbeatReconnecting {
                            input: input.clone(),
                            attempts: 1,
                            reason: reason.clone(),
                        },
                        None,
                    ),
                ),
                PresenceState::HeartbeatReconnecting { input, attempts, .. } => {
                    let next_attempts: u8 = if *attempts == u8::MAX {
                        *attempts
                    } else {
                        *attempts + 1
                    };
                    Some(
                        self.transition_to(
                            PresenceState::HeartbeatReconnecting {
                                input: input.clone(),
                                attempts: next_attempts,
                                reason: reason.clone(),
                            },
                            None,
                        ),
                    )
                },
                _ => None,
            },
            PresenceEvent::HeartbeatGiveUp { reason } => match self {
                PresenceState::HeartbeatReconnecting { input, .. } => Some(
                    self.transition_to(
                        PresenceState::HeartbeatFailed {
                            input: input.clone(),
                            reason: reason.clone(),
                        },
                        None,
                    ),
                ),
                _ => None,
            },
            PresenceEvent::TimesUp => match self {
                PresenceState::HeartbeatCooldown { input } => Some(
                    self.transition_to(
                        PresenceState::Heartbeating { input: input.clone() },
                        None,
                    ),
                ),
                _ => None,
            },
            PresenceEvent::Disconnect => match self {
                PresenceState::Heartbeating { input } => Some(
                    self.transition_to(
                        PresenceState::HeartbeatStopped { input: input.clone() },
                        None,
                    ),
                ),
                PresenceState::HeartbeatCooldown { input } => Some(
                    self.transition_to(
                        PresenceState::HeartbeatStopped { input: input.clone() },
                        None,
                    ),
                ),
                PresenceState::HeartbeatReconnecting { input, .. } => Some(
                    self.transition_to(
                        PresenceState::HeartbeatStopped { input: input.clone() },
                        None,
                    ),
                ),
                _ => None,
            },
            PresenceEvent::Reconnect => match self {
                PresenceState::HeartbeatStopped { input } => Some(
                    self.transition_to(
                        PresenceState::Heartbeating { input: input.clone() },
                        None,
                    ),
                ),
                PresenceState::HeartbeatFailed { input, .. } => Some(
                    self.transition_to(
                        PresenceState::Heartbeating { input: input.clone() },
                        None,
                    ),
                ),
                _ => None,
            },
        }
    }
}

/// A single `Leave` invocation for these channels and groups.
fn leave_invocation(input: &SubscribeInput) -> (r: Vec<PresenceEffectInvocation>)
    ensures
        r.deep_view() == seq![
            PresenceInvocationModel::Leave { input: input.deep_view() },
        ],
{
    let mut v: Vec<PresenceEffectInvocation> = Vec::new();
    v.push(PresenceEffectInvocation::Leave { input: input.clone() });
    proof {
        assert(v.deep_view() =~= seq![
            PresenceInvocationModel::Leave { input: input.deep_view() },
        ]);
    }
    v
}

/// The presence engine: the current state, driven by events.
pub struct PresenceEventEngine {
    current_state: PresenceState,
}

/// What one presence engine step does: the state after processing the
/// event, and the invocations handed to the dispatcher.
pub open spec fn spec_presence_engine_step(
    s: PresenceStateModel,
    e: PresenceEventModel,
) -> (PresenceStateModel, Seq<PresenceInvocationModel>) {
    match spec_presence_transition(s, e) {
        Some(t) => (t.state, t.invocations),
        None => (s, Seq::<PresenceInvocationModel>::empty()),
    }
}

impl PresenceEventEngine {
    /// The state the engine is in.
    pub closed spec fn model(&self) -> PresenceStateModel {
        self.current_state.deep_view()
    }

    /// An engine that starts in the given state.
    pub fn new(state: PresenceState) -> (r: Self)
        ensures
            r.model() == state.deep_view(),
    {
        PresenceEventEngine { current_state: state }
    }

    /// A copy of the current state, as a consistent snapshot.
    pub fn current_state(&self) -> (r: PresenceState)
        ensures
            r.deep_view() == self.model(),
    {
        self.current_state.clone()
    }

    /// Process one event; an unhandled event changes nothing and
    /// dispatches nothing.
    pub fn process(&mut self, event: &PresenceEvent) -> (invocations: Vec<
        PresenceEffectInvocation,
    >)
        ensures
            (final(self).model(), invocations.deep_view()) == spec_presence_engine_step(
                old(self).model(),
                event.deep_view(),
            ),
    {
        match self.current_state.transition(event) {
            Some(t) => {
                let PresenceTransition { invocations, state } = t;
                self.current_state = state;
                invocations
            },
            None => {
                let invocations: Vec<PresenceEffectInvocation> = Vec::new();
                proof {
                    assert(invocations.deep_view() =~= Seq::<PresenceInvocationModel>::empty());
                }
                invocations
            },
        }
    }
}

// ---------------------------------------------------------------------------
// Presence effects
// ---------------------------------------------------------------------------
/// Successful completion of a heartbeat request. The endpoint returns no
/// data beyond the acknowledgement.
#[derive(Debug, PartialEq)]
pub struct HeartbeatResult;

/// The pluggable heartbeat call: announces presence over the transport.
/// The application implements it; the core promises nothing about what it
/// returns.
pub trait HeartbeatFunction {
    /// Announce presence for these channels and groups.
    fn call(
        &self,
        channels: &Option<Vec<String>>,
        channel_groups: &Option<Vec<String>>,
        attempt: u8,
        reason: Option<PubNubError>,
        effect_id: &str,
    ) -> Result<HeartbeatResult, PubNubError>;
}

/// Successful completion of a leave request. The endpoint returns no
/// data beyond the acknowledgement.
#[derive(Debug, PartialEq)]
pub struct LeaveResult;

/// The pluggable leave call: withdraws the client's presence over the
/// transport. The application implements it; the core promises nothing
/// about what it returns, and the engine expects no follow-up event from
/// it.
pub trait LeaveFunction {
    /// Withdraw presence for these channels and groups.
    fn call(
        &self,
        channels: &Option<Vec<String>>,
        channel_groups: &Option<Vec<String>>,
        effect_id: &str,
    ) -> Result<LeaveResult, PubNubError>;
}

/// A running effect of the presence engine, as the dispatcher sees it.
#[derive(Debug, PartialEq)]
pub enum PresenceEffect {
    /// A heartbeat announce.
    Heartbeat {
        /// Channels and groups to announce.
        input: SubscribeInput,
    },
    /// A heartbeat retry after the policy's delay.
    DelayedHeartbeat {
        /// Channels and groups to announce.
        input: SubscribeInput,
        /// Which retry attempt this is.
        attempts: u8,
        /// The failure that caused the retry.
        reason: PubNubError,
        /// The policy that gates the retry.
        retry_policy: RequestRetryPolicy,
    },
    /// The one-shot leave request.
    Leave {
        /// Channels and groups to withdraw from.
        input: SubscribeInput,
    },
    /// The wait between heartbeats.
    Wait {
        /// Channels and groups to announce afterwards.
        input: SubscribeInput,
    },
}

/// Ghost counterpart of [`PresenceEffect`].
pub ghost enum PresenceEffectModel {
    Heartbeat { input: InputModel },
    DelayedHeartbeat {
        input: InputModel,
        attempts: u8,
        reason: PubNubErrorModel,
        retry_policy: RequestRetryPolicy,
    },
    Leave { input: InputModel },
    Wait { input: InputModel },
}

impl DeepView for PresenceEffect {
    type V = PresenceEffectModel;

    open spec fn deep_view(&self) -> PresenceEffectModel {
        match self {
            PresenceEffect::Heartbeat { input } => PresenceEffectModel::Heartbeat {
                input: input.deep_view(),
            },
            PresenceEffect::DelayedHeartbeat { input, attempts, reason, retry_policy } => {
                PresenceEffectModel::DelayedHeartbeat {
                    input: input.deep_view(),
                    attempts: *attempts,
                    reason: reason.deep_view(),
                    retry_policy: *retry_policy,
                }
            },
            PresenceEffect::Leave { input } => PresenceEffectModel::Leave {
                input: input.deep_view(),
            },
            PresenceEffect::Wait { input } => PresenceEffectModel::Wait {
                input: input.deep_view(),
            },
        }
    }
}

/// The stable id under which the dispatcher tracks a presence effect.
pub open spec fn spec_presence_effect_id(e: PresenceEffectModel) -> Seq<char> {
    match e {
        PresenceEffectModel::Heartbeat { .. } => "HEARTBEAT"@,
        PresenceEffectModel::DelayedHeartbeat { .. } => "DELAYED_HEARTBEAT"@,
        PresenceEffectModel::Leave { .. } => "LEAVE"@,
        PresenceEffectModel::Wait { .. } => "WAIT"@,
    }
}

impl PresenceEffect {
    /// The stable id under which the dispatcher tracks this effect.
    pub fn id(&self) -> (r: String)
        ensures
            r@ == spec_presence_effect_id(self.deep_view()),
    {
        match self {
            PresenceEffect::Heartbeat { .. } => "HEARTBEAT".to_owned(),
            PresenceEffect::DelayedHeartbeat { .. } => "DELAYED_HEARTBEAT".to_owned(),
            PresenceEffect::Leave { .. } => "LEAVE".to_owned(),
            PresenceEffect::Wait { .. } => "WAIT".to_owned(),
        }
    }

    /// Whether the dispatcher can cancel this effect: the wait and the
    /// delayed heartbeat race their work against the cancel signal.
    pub fn cancellable(&self) -> (r: bool)
        ensures
            r == (self.deep_view() matches PresenceEffectModel::DelayedHeartbeat { .. }
                || self.deep_view() matches PresenceEffectModel::Wait { .. }),
    {
        match self {
            PresenceEffect::DelayedHeartbeat { .. } => true,
            PresenceEffect::Wait { .. } => true,
            _ => false,
        }
    }
}

/// The events a completed heartbeat feeds back into the engine: success
/// acknowledges, a cancelled effect is filtered to no event at all, and
/// any other failure becomes a `HeartbeatFailure`.
pub fn heartbeat_events_from_result(
    result: Result<HeartbeatResult, PubNubError>,
) -> (r: Vec<PresenceEvent>)
    ensures
        match result {
            Ok(_) => r.deep_view() == seq![PresenceEventModel::HeartbeatSuccess],
            Err(e) => if e.deep_view() == PubNubErrorModel::EffectCanceled {
                r.deep_view() == Seq::<PresenceEventModel>::empty()
            } else {
                r.deep_view() == seq![
                    PresenceEventModel::HeartbeatFailure { reason: e.deep_view() },
                ]
            },
        },
{
    match result {
        Ok(_) => {
            let mut r: Vec<PresenceEvent> = Vec::new();
            r.push(PresenceEvent::HeartbeatSuccess);
            proof {
                assert(r.deep_view() =~= seq![PresenceEventModel::HeartbeatSuccess]);
            }
            r
        },
        Err(PubNubError::EffectCanceled) => {
            let r: Vec<PresenceEvent> = Vec::new();
            proof {
                assert(r.deep_view() =~= Seq::<PresenceEventModel>::empty());
            }
            r
        },
        Err(e) => {
            let ghost reason_model = e.deep_view();
            let mut r: Vec<PresenceEvent> = Vec::new();
            r.push(PresenceEvent::HeartbeatFailure { reason: e });
            proof {
                assert(r.deep_view() =~= seq![
                    PresenceEventModel::HeartbeatFailure { reason: reason_model },
                ]);
            }
            r
        },
    }
}

/// Run one delayed heartbeat retry. The policy decides first: a
/// non-retriable failure gives up at once. Otherwise the
/// application-supplied heartbeat call runs, and whatever it returns is
/// mapped by [`heartbeat_events_from_result`].
pub fn delayed_heartbeat_execute<F: HeartbeatFunction>(
    input: &SubscribeInput,
    attempt: u8,
    reason: PubNubError,
    effect_id: &str,
    retry_policy: &RequestRetryPolicy,
    executor: &F,
) -> (r: Vec<PresenceEvent>)
    ensures
        !spec_retriable_error(*retry_policy, attempt, reason.deep_view()) ==> r.deep_view() == seq![
            PresenceEventModel::HeartbeatGiveUp { reason: reason.deep_view() },
        ],
        spec_retriable_error(*retry_policy, attempt, reason.deep_view()) ==> {
            ||| r.deep_view() == Seq::<PresenceEventModel>::empty()
            ||| (r.deep_view().len() == 1 && (r.deep_view()[0]
                == PresenceEventModel::HeartbeatSuccess || r.deep_view()[0] matches
                PresenceEventModel::HeartbeatFailure { .. }))
        },
{
    if !retry_policy.retriable_error(attempt, &reason) {
        let ghost reason_model = reason.deep_view();
        let mut r: Vec<PresenceEvent> = Vec::new();
        r.push(PresenceEvent::HeartbeatGiveUp { reason });
        proof {
            assert(r.deep_view() =~= seq![
                PresenceEventModel::HeartbeatGiveUp { reason: reason_model },
            ]);
        }
        return r;
    }
    let result = executor.call(
        &input.channels(),
        &input.channel_groups(),
        attempt,
        Some(reason),
        effect_id,
    );
    heartbeat_events_from_result(result)
}

} // verus!
