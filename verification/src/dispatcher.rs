//! Bookkeeping of the effect dispatcher.
//!
//! The dispatcher runs the long-running effects of a transition and keeps
//! at most one active effect per effect id. A cancellation invocation
//! names, through its id, the start invocation it pairs with; the
//! dispatcher looks the running effect up by that id and removes it so
//! the application can signal its abort. Emit invocations are handed back
//! for immediate, synchronous execution and are never tracked: they
//! cannot fail and cannot be cancelled.

use vstd::prelude::*;

use crate::strings::str_eq;
use crate::subscribe_effect::{
    spec_create_effect, spec_effect_id, spec_invocation_id, spec_is_cancellation, InvocationModel,
    SubscribeEffect, SubscribeEffectHandler, SubscribeEffectInvocation, SubscribeEffectModel,
};

verus! {

broadcast use vstd::seq_lib::group_seq_properties;

/// The id of the start invocation a cancellation pairs with, if the
/// invocation is a cancellation.
pub open spec fn spec_cancellation_target(i: InvocationModel) -> Option<Seq<char>> {
    match i {
        InvocationModel::CancelHandshake => Some("HANDSHAKE"@),
        InvocationModel::CancelHandshakeReconnect => Some("HANDSHAKE_RECONNECT"@),
        InvocationModel::CancelReceive => Some("RECEIVE_MESSAGES"@),
        InvocationModel::CancelReceiveReconnect => Some("RECEIVE_MESSAGES_RECONNECT"@),
        _ => None,
    }
}

/// Whether the invocation is tracked by id while it runs: the four
/// long-running effects are, the emit instructions are not.
pub open spec fn spec_is_tracked(i: InvocationModel) -> bool {
    match i {
        InvocationModel::Handshake { .. } => true,
        InvocationModel::HandshakeReconnect { .. } => true,
        InvocationModel::Receive { .. } => true,
        InvocationModel::ReceiveReconnect { .. } => true,
        _ => false,
    }
}

/// The ids of the running effects, in start order.
pub open spec fn spec_active_ids(active: Seq<SubscribeEffectModel>) -> Seq<Seq<char>> {
    active.map_values(|e: SubscribeEffectModel| spec_effect_id(e))
}

/// First index of a running effect with this id.
pub open spec fn spec_first_active_with_id(
    active: Seq<SubscribeEffectModel>,
    id: Seq<char>,
    from: int,
) -> Option<usize>
    decreases active.len() - from,
{
    if from < 0 || from >= active.len() {
        None
    } else if spec_effect_id(active[from]) == id {
        Some(from as usize)
    } else {
        spec_first_active_with_id(active, id, from + 1)
    }
}

/// Bookkeeping of running effects: the dispatcher's view of what is in
/// flight, at most one effect per effect id.
pub struct EffectDispatcher {
    /// The effects currently running, in start order.
    active: Vec<SubscribeEffect>,
}

impl EffectDispatcher {
    /// The running effects.
    pub closed spec fn model(&self) -> Seq<SubscribeEffectModel> {
        self.active.deep_view()
    }

    /// A dispatcher with nothing in flight.
    pub fn new() -> (r: Self)
        ensures
            r.model() == Seq::<SubscribeEffectModel>::empty(),
    {
        let active: Vec<SubscribeEffect> = Vec::new();
        proof {
            assert(active.deep_view() =~= Seq::<SubscribeEffectModel>::empty());
        }
        EffectDispatcher { active }
    }

    /// Apply one invocation. A start invocation creates its effect
    /// through the handler, tracks it and hands it back to be run; its id
    /// must not be in flight (the engine cancels on exit before it starts
    /// on entry). A cancellation removes the first running effect under
    /// the paired id — the effect the application must now signal — and
    /// finds nothing when that effect already completed. An emit
    /// invocation is handed back untracked.
    pub fn dispatch(
        &mut self,
        handler: &SubscribeEffectHandler,
        invocation: &SubscribeEffectInvocation,
    ) -> (r: Option<SubscribeEffect>)
        requires
            spec_is_tracked(invocation.deep_view()) ==> !spec_active_ids(
                old(self).model(),
            ).contains(spec_invocation_id(invocation.deep_view())),
        ensures
            spec_is_tracked(invocation.deep_view()) ==> {
                &&& r.deep_view() == spec_create_effect(
                    handler.retry_policy,
                    invocation.deep_view(),
                )
                &&& r is Some
                &&& final(self).model() == old(self).model().push(r.unwrap().deep_view())
            },
            spec_is_cancellation(invocation.deep_view()) ==> {
                &&& r is None
                &&& match spec_first_active_with_id(
                    old(self).model(),
                    spec_cancellation_target(invocation.deep_view()).unwrap(),
                    0,
                ) {
                    Some(i) => final(self).model() == old(self).model().update(
                        i as int,
                        old(self).model().last(),
                    ).drop_last(),
                    None => final(self).model() == old(self).model(),
                }
            },
            !spec_is_tracked(invocation.deep_view()) && !spec_is_cancellation(
                invocation.deep_view(),
            ) ==> {
                &&& r.deep_view() == spec_create_effect(
                    handler.retry_policy,
                    invocation.deep_view(),
                )
                &&& final(self).model() == old(self).model()
            },
    {
        if invocation.is_cancellation() {
            let target = match invocation {
                SubscribeEffectInvocation::CancelHandshake => "HANDSHAKE",
                SubscribeEffectInvocation::CancelHandshakeReconnect => "HANDSHAKE_RECONNECT",
                SubscribeEffectInvocation::CancelReceive => "RECEIVE_MESSAGES",
                _ => "RECEIVE_MESSAGES_RECONNECT",
            };
            proof {
                assert(target@ == spec_cancellation_target(invocation.deep_view()).unwrap());
            }
            self.remove_by_id(target);
            return None;
        }
        let effect = handler.create(invocation);
        match effect {
            Some(created) => {
                if created.is_trackable() {
                    let ghost before = self.model();
                    let ghost created_model = created.deep_view();
                    self.active.push(created.clone());
                    proof {
                        assert(self.model() =~= before.push(created_model));
                    }
                }
                Some(created)
            },
            None => None,
        }
    }

    /// Remove the first running effect with this id, if any.
    fn remove_by_id(&mut self, id: &str)
        ensures
            match spec_first_active_with_id(old(self).model(), id@, 0) {
                Some(i) => final(self).model() == old(self).model().update(
                    i as int,
                    old(self).model().last(),
                ).drop_last(),
                None => final(self).model() == old(self).model(),
            },
    {
        let ghost all = self.model();
        let n = self.active.len();
        let mut i: usize = 0;
        while i < n
            invariant
                n == self.active.len(),
                0 <= i <= n,
                all == self.model(),
                all == old(self).model(),
                spec_first_active_with_id(all, id@, 0) == spec_first_active_with_id(
                    all,
                    id@,
                    i as int,
                ),
            decreases n - i,
        {
            let current = self.active[i].id();
            if str_eq(current.as_str(), id) {
                proof {
                    assert(spec_effect_id(all[i as int]) == id@);
                    assert(spec_first_active_with_id(all, id@, 0) == Some(i));
                }
                self.active.swap_remove(i);
                proof {
                    assert(self.model() =~= all.update(i as int, all.last()).drop_last());
                }
                return ;
            }
            i = i + 1;
        }
    }
}

impl SubscribeEffect {
    /// Whether the dispatcher tracks this effect by id while it runs.
    pub fn is_trackable(&self) -> (r: bool)
        ensures
            r == match self.deep_view() {
                SubscribeEffectModel::Handshake { .. } => true,
                SubscribeEffectModel::HandshakeReconnect { .. } => true,
                SubscribeEffectModel::Receive { .. } => true,
                SubscribeEffectModel::ReceiveReconnect { .. } => true,
                _ => false,
            },
    {
        match self {
            SubscribeEffect::Handshake { .. } => true,
            SubscribeEffect::HandshakeReconnect { .. } => true,
            SubscribeEffect::Receive { .. } => true,
            SubscribeEffect::ReceiveReconnect { .. } => true,
            _ => false,
        }
    }
}

} // verus!
