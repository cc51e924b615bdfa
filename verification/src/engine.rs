//! The event-driven runtime of the subscribe engine.
//!
//! The runtime owns the current state. For each event it asks the state
//! for a transition; an event the state does not handle is a no-op — not
//! an error — and disturbs nothing. When there is a transition, the state
//! is swapped and the transition's invocation list is handed back for the
//! effect dispatcher to run.

use vstd::prelude::*;

use crate::input::{spec_opt_name_set, spec_opt_no_dups, InputModel};
use crate::subscribe_effect::{InvocationModel, SubscribeEffectInvocation};
use crate::subscribe_event::{SubscribeEvent, SubscribeEventModel};
use crate::subscribe_state::{spec_transition, SubscribeState, SubscribeStateModel, Transition};

verus! {

/// What one engine step does: the state after processing the event, and
/// the invocations handed to the dispatcher. An unhandled event keeps the
/// state and dispatches nothing.
pub open spec fn spec_engine_step(
    s: SubscribeStateModel,
    e: SubscribeEventModel,
) -> (SubscribeStateModel, Seq<InvocationModel>) {
    match spec_transition(s, e) {
        Some(t) => (t.state, t.invocations),
        None => (s, Seq::<InvocationModel>::empty()),
    }
}

/// An event a state does not handle is a no-op: the engine keeps its
/// state and dispatches no invocation.
pub proof fn lemma_unhandled_event_is_noop(s: SubscribeStateModel, e: SubscribeEventModel)
    requires
        spec_transition(s, e) is None,
    ensures
        spec_engine_step(s, e) == (s, Seq::<InvocationModel>::empty()),
{
}

/// The input of a state: every state but `Unsubscribed` carries one.
pub open spec fn spec_state_input(s: SubscribeStateModel) -> Option<InputModel> {
    match s {
        SubscribeStateModel::Unsubscribed => None,
        SubscribeStateModel::Handshaking { input, .. } => Some(input),
        SubscribeStateModel::HandshakeReconnecting { input, .. } => Some(input),
        SubscribeStateModel::HandshakeStopped { input, .. } => Some(input),
        SubscribeStateModel::HandshakeFailed { input, .. } => Some(input),
        SubscribeStateModel::Receiving { input, .. } => Some(input),
        SubscribeStateModel::ReceiveReconnecting { input, .. } => Some(input),
        SubscribeStateModel::ReceiveStopped { input, .. } => Some(input),
        SubscribeStateModel::ReceiveFailed { input, .. } => Some(input),
    }
}

/// The subscribe engine: the current state, driven by events.
pub struct SubscribeEventEngine {
    current_state: SubscribeState,
}

impl SubscribeEventEngine {
    /// The state the engine is in.
    pub closed spec fn model(&self) -> SubscribeStateModel {
        self.current_state.deep_view()
    }

    /// Whether the engine's state is well-formed: its input, where it
    /// has one, holds each name once. Established by starting from a
    /// well-formed state and preserved by every processed event.
    pub closed spec fn state_wf(&self) -> bool {
        self.current_state.wf()
    }

    /// An engine that starts in the given state.
    pub fn new(state: SubscribeState) -> (r: Self)
        ensures
            r.model() == state.deep_view(),
            r.state_wf() == state.wf(),
    {
        SubscribeEventEngine { current_state: state }
    }

    /// A copy of the current state, as a consistent snapshot.
    pub fn current_state(&self) -> (r: SubscribeState)
        ensures
            r.deep_view() == self.model(),
            self.state_wf() ==> r.wf(),
    {
        self.current_state.clone()
    }

    /// Process one event: ask the current state for a transition, swap the
    /// state when there is one, and hand back the invocations for the
    /// effect dispatcher — exit cancellations first, the entered state's
    /// primary effect last. An unhandled event changes nothing and
    /// dispatches nothing.
    pub fn process(&mut self, event: &SubscribeEvent) -> (invocations: Vec<
        SubscribeEffectInvocation,
    >)
        ensures
            (final(self).model(), invocations.deep_view()) == spec_engine_step(
                old(self).model(),
                event.deep_view(),
            ),
            old(self).state_wf() ==> final(self).state_wf(),
    {
        match self.current_state.transition(event) {
            Some(t) => {
                let Transition { invocations, state } = t;
                self.current_state = state;
                invocations
            },
            None => {
                let invocations: Vec<SubscribeEffectInvocation> = Vec::new();
                proof {
                    assert(invocations.deep_view() =~= Seq::<InvocationModel>::empty());
                }
                invocations
            },
        }
    }

    /// The channel and channel group lists of the current state's input,
    /// or two missing lists when the engine is unsubscribed.
    pub fn current_subscription(&self) -> (r: (Option<Vec<String>>, Option<Vec<String>>))
        ensures
            match spec_state_input(self.model()) {
                Some(input) => spec_opt_name_set(r.0.deep_view()) == input.channels
                    && spec_opt_name_set(r.1.deep_view()) == input.channel_groups,
                None => r.0 is None && r.1 is None,
            },
            self.state_wf() ==> spec_opt_no_dups(r.0.deep_view()) && spec_opt_no_dups(
                r.1.deep_view(),
            ),
    {
        match &self.current_state {
            SubscribeState::Unsubscribed => (None, None),
            SubscribeState::Handshaking { input, .. } => (input.channels(), input.channel_groups()),
            SubscribeState::HandshakeReconnecting { input, .. } => (
                input.channels(),
                input.channel_groups(),
            ),
            SubscribeState::HandshakeStopped { input, .. } => (
                input.channels(),
                input.channel_groups(),
            ),
            SubscribeState::HandshakeFailed { input, .. } => (
                input.channels(),
                input.channel_groups(),
            ),
            SubscribeState::Receiving { input, .. } => (input.channels(), input.channel_groups()),
            SubscribeState::ReceiveReconnecting { input, .. } => (
                input.channels(),
                input.channel_groups(),
            ),
            SubscribeState::ReceiveStopped { input, .. } => (
                input.channels(),
                input.channel_groups(),
            ),
            SubscribeState::ReceiveFailed { input, .. } => (
                input.channels(),
                input.channel_groups(),
            ),
        }
    }
}

} // verus!
