//! Routing of received updates to registered listeners.
//!
//! The manager holds the subscribe engine and the registered listener
//! subscriptions. Statuses fan out to every listener; updates fan out to
//! every listener whose channel list names the update's channel. The
//! manager computes the deliveries; actually handing them to the
//! listeners' notification channels is the application's job, outside the
//! core.

use vstd::prelude::*;

use crate::engine::SubscribeEventEngine;
use crate::error::clone_string_vec;
use crate::input::vec_contains_string;
use crate::subscribe_types::SubscribeStatus;
use crate::update::{spec_update_channel, Update, UpdateModel};

verus! {

broadcast use vstd::seq_lib::group_seq_properties;

/// A registered listener: a unique id and the channels it cares about.
#[derive(Debug, PartialEq)]
pub struct Subscription {
    /// Unique identifier of the listener.
    pub id: String,
    /// Channels the listener wants updates for.
    pub channels: Vec<String>,
}

/// Ghost counterpart of [`Subscription`].
pub ghost struct SubscriptionModel {
    pub id: Seq<char>,
    pub channels: Seq<Seq<char>>,
}

impl DeepView for Subscription {
    type V = SubscriptionModel;

    open spec fn deep_view(&self) -> SubscriptionModel {
        SubscriptionModel { id: self.id.deep_view(), channels: self.channels.deep_view() }
    }
}

impl Clone for Subscription {
    /// Copy of the listener registration with the same content.
    fn clone(&self) -> (r: Self)
        ensures
            r.deep_view() == self.deep_view(),
    {
        Subscription { id: self.id.clone(), channels: clone_string_vec(&self.channels) }
    }
}

/// The ids that a status fan-out reaches: every registered listener, in
/// registration order.
pub open spec fn spec_status_recipients(subs: Seq<SubscriptionModel>) -> Seq<Seq<char>> {
    subs.map_values(|s: SubscriptionModel| s.id)
}

/// The ids an update is delivered to: every registered listener whose
/// channel list names the update's channel, in registration order.
pub open spec fn spec_update_deliveries(
    subs: Seq<SubscriptionModel>,
    u: UpdateModel,
) -> Seq<Seq<char>>
    decreases subs.len(),
{
    if subs.len() == 0 {
        Seq::<Seq<char>>::empty()
    } else {
        spec_update_deliveries(subs.drop_last(), u) + (
        if subs.last().channels.contains(spec_update_channel(u)) {
            seq![subs.last().id]
        } else {
            Seq::<Seq<char>>::empty()
        })
    }
}

/// The deliveries of a list of updates: the updates in order, each fanned
/// out to the interested listeners in registration order.
pub open spec fn spec_message_deliveries(
    subs: Seq<SubscriptionModel>,
    msgs: Seq<UpdateModel>,
) -> Seq<(Seq<char>, UpdateModel)>
    decreases msgs.len(),
{
    if msgs.len() == 0 {
        Seq::<(Seq<char>, UpdateModel)>::empty()
    } else {
        spec_message_deliveries(subs, msgs.drop_last()) + spec_update_deliveries(
            subs,
            msgs.last(),
        ).map_values(|id: Seq<char>| (id, msgs.last()))
    }
}

/// First index at or after `from` whose registration has this id.
pub open spec fn spec_first_index_with_id_from(
    subs: Seq<SubscriptionModel>,
    id: Seq<char>,
    from: int,
) -> Option<usize>
    decreases subs.len() - from,
{
    if from < 0 || from >= subs.len() {
        None
    } else if subs[from].id == id {
        Some(from as usize)
    } else {
        spec_first_index_with_id_from(subs, id, from + 1)
    }
}

/// First index whose registration has this id.
pub open spec fn spec_first_index_with_id(
    subs: Seq<SubscriptionModel>,
    id: Seq<char>,
) -> Option<usize> {
    spec_first_index_with_id_from(subs, id, 0)
}

/// Active subscriptions manager: the subscribe engine plus the registered
/// listeners.
pub struct SubscriptionManager {
    /// State machine responsible for the subscription loop.
    pub subscribe_event_engine: SubscribeEventEngine,
    /// Registered listeners, in registration order.
    pub subscribers: Vec<Subscription>,
}

impl SubscriptionManager {
    /// A manager around the given engine, with no listener registered yet.
    pub fn new(subscribe_event_engine: SubscribeEventEngine) -> (r: Self)
        ensures
            r.subscribers.deep_view() == Seq::<SubscriptionModel>::empty(),
            r.subscribe_event_engine == subscribe_event_engine,
    {
        let subscribers: Vec<Subscription> = Vec::new();
        proof {
            assert(subscribers.deep_view() =~= Seq::<SubscriptionModel>::empty());
        }
        SubscriptionManager { subscribe_event_engine, subscribers }
    }

    /// Register a listener: appended after the ones already registered.
    pub fn register(&mut self, subscription: Subscription)
        ensures
            final(self).subscribers.deep_view() == old(self).subscribers.deep_view().push(
                subscription.deep_view(),
            ),
            final(self).subscribe_event_engine == old(self).subscribe_event_engine,
    {
        let ghost before = self.subscribers.deep_view();
        let ghost pushed = subscription.deep_view();
        self.subscribers.push(subscription);
        proof {
            assert(self.subscribers.deep_view() =~= before.push(pushed));
        }
    }

    /// Unregister a listener by id: the first registration with the same
    /// id is replaced by the last one and the list shrinks by one; without
    /// a match nothing changes.
    pub fn unregister(&mut self, subscription: &Subscription)
        ensures
            match spec_first_index_with_id(
                old(self).subscribers.deep_view(),
                subscription.deep_view().id,
            ) {
                Some(i) => final(self).subscribers.deep_view() == old(
                    self,
                ).subscribers.deep_view().update(
                    i as int,
                    old(self).subscribers.deep_view().last(),
                ).drop_last(),
                None => final(self).subscribers.deep_view() == old(self).subscribers.deep_view(),
            },
            final(self).subscribe_event_engine == old(self).subscribe_event_engine,
    {
        let ghost all = self.subscribers.deep_view();
        let ghost target = subscription.deep_view().id;
        let n = self.subscribers.len();
        let mut i: usize = 0;
        while i < n
            invariant
                n == self.subscribers.len(),
                0 <= i <= n,
                all == self.subscribers.deep_view(),
                target == subscription.deep_view().id,
                self.subscribe_event_engine == old(self).subscribe_event_engine,
                all == old(self).subscribers.deep_view(),
                spec_first_index_with_id(all, target) == spec_first_index_with_id_from(
                    all,
                    target,
                    i as int,
                ),
            decreases n - i,
        {
            if (&self.subscribers[i].id).eq(&subscription.id) {
                proof {
                    assert(all[i as int].id == target);
                    assert(spec_first_index_with_id(all, target) == Some(i));
                }
                self.subscribers.swap_remove(i);
                proof {
                    assert(self.subscribers.deep_view() =~= all.update(
                        i as int,
                        all.last(),
                    ).drop_last());
                }
                return ;
            }
            i = i + 1;
        }
    }

    /// The ids of the listeners a status is handed to: all of them, in
    /// registration order. The status itself plays no part in the
    /// routing.
    pub fn notify_new_status(&self, _status: &SubscribeStatus) -> (r: Vec<String>)
        ensures
            r.deep_view() == spec_status_recipients(self.subscribers.deep_view()),
    {
        let ghost subs = self.subscribers.deep_view();
        let mut r: Vec<String> = Vec::new();
        let n = self.subscribers.len();
        let mut i: usize = 0;
        while i < n
            invariant
                n == self.subscribers.len(),
                0 <= i <= n,
                subs == self.subscribers.deep_view(),
                r@.len() == i,
                forall|j: int| 0 <= j < i ==> #[trigger] r@[j]@ == subs[j].id,
            decreases n - i,
        {
            r.push(self.subscribers[i].id.clone());
            i = i + 1;
        }
        proof {
            assert(r.deep_view() =~= spec_status_recipients(subs));
        }
        r
    }

    /// The deliveries of a list of updates: for each update, in order,
    /// the id of every listener whose channel list names the update's
    /// channel, paired with the update.
    pub fn notify_new_messages(&self, messages: Vec<Update>) -> (r: Vec<(String, Update)>)
        ensures
            r.deep_view() == spec_message_deliveries(
                self.subscribers.deep_view(),
                messages.deep_view(),
            ),
    {
        let ghost subs = self.subscribers.deep_view();
        let ghost msgs = messages.deep_view();
        let mut r: Vec<(String, Update)> = Vec::new();
        let m = messages.len();
        let mut k: usize = 0;
        while k < m
            invariant
                m == messages.len(),
                0 <= k <= m,
                subs == self.subscribers.deep_view(),
                msgs == messages.deep_view(),
                r.deep_view() =~= spec_message_deliveries(subs, msgs.take(k as int)),
            decreases m - k,
        {
            let channel = messages[k].channel();
            let ghost before_update = r.deep_view();
            let n = self.subscribers.len();
            let mut i: usize = 0;
            while i < n
                invariant
                    n == self.subscribers.len(),
                    0 <= i <= n,
                    0 <= k < m,
                    m == messages.len(),
                    subs == self.subscribers.deep_view(),
                    msgs == messages.deep_view(),
                    channel@ == spec_update_channel(msgs[k as int]),
                    r.deep_view() =~= before_update + spec_update_deliveries(
                        subs.take(i as int),
                        msgs[k as int],
                    ).map_values(|id: Seq<char>| (id, msgs[k as int])),
                decreases n - i,
            {
                let ghost prev = r.deep_view();
                let ghost head = spec_update_deliveries(subs.take(i as int), msgs[k as int]);
                proof {
                    assert(subs.take(i as int + 1).drop_last() =~= subs.take(i as int));
                    assert(subs.take(i as int + 1).last() == subs[i as int]);
                }
                if vec_contains_string(&self.subscribers[i].channels, &channel) {
                    let pushed_id = self.subscribers[i].id.clone();
                    let pushed_msg = messages[k].clone();
                    proof {
                        assert(pushed_id@ == subs[i as int].id);
                        assert(pushed_msg.deep_view() == msgs[k as int]);
                    }
                    r.push((pushed_id, pushed_msg));
                    proof {
                        let f = |id: Seq<char>| (id, msgs[k as int]);
                        let grown = spec_update_deliveries(
                            subs.take(i as int + 1),
                            msgs[k as int],
                        );
                        assert(grown =~= head.push(subs[i as int].id));
                        head.lemma_push_map_commute(f, subs[i as int].id);
                        assert(grown.map_values(f) =~= head.map_values(f).push(
                            f(subs[i as int].id),
                        ));
                        assert(r.deep_view() =~= prev.push((subs[i as int].id, msgs[k as int])));
                        assert(prev.push((subs[i as int].id, msgs[k as int])) =~= before_update
                            + grown.map_values(f));
                        assert(r.deep_view() =~= before_update + grown.map_values(f));
                    }
                } else {
                    proof {
                        let grown = spec_update_deliveries(
                            subs.take(i as int + 1),
                            msgs[k as int],
                        );
                        assert(grown =~= head);
                        assert(r.deep_view() =~= before_update + grown.map_values(
                            |id: Seq<char>| (id, msgs[k as int]),
                        ));
                    }
                }
                i = i + 1;
            }
            proof {
                assert(subs.take(n as int) == subs);
                assert(msgs.take(k as int + 1).drop_last() =~= msgs.take(k as int));
                assert(msgs.take(k as int + 1).last() == msgs[k as int]);
                assert(r.deep_view() =~= spec_message_deliveries(subs, msgs.take(k as int + 1)));
            }
            k = k + 1;
        }
        proof {
            assert(msgs.take(m as int) == msgs);
        }
        r
    }
}

} // verus!
