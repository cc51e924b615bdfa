//! The receive retry effect: consult the retry policy, then re-issue the
//! long poll.

use vstd::prelude::*;

use crate::error::{PubNubError, PubNubErrorModel};
use crate::input::SubscribeInput;
use crate::retry::{spec_retriable_error, RequestRetryPolicy};
use crate::subscribe_effect::ReceiveFunction;
use crate::subscribe_event::{SubscribeEvent, SubscribeEventModel};
use crate::subscribe_types::SubscribeCursor;

verus! {

/// The events a completed receive retry feeds back into the engine: the
/// executor's own events on success, a cancelled effect is filtered to no
/// event at all, and any other failure becomes a single
/// `ReceiveReconnectFailure` carrying the error.
pub fn receive_reconnect_events_from_result(
    result: Result<Vec<SubscribeEvent>, PubNubError>,
) -> (r: Vec<SubscribeEvent>)
    ensures
        match result {
            Ok(events) => r == events,
            Err(e) => if e.deep_view() == PubNubErrorModel::EffectCanceled {
                r.deep_view() == Seq::<SubscribeEventModel>::empty()
            } else {
                r.deep_view() == seq![
                    SubscribeEventModel::ReceiveReconnectFailure { reason: e.deep_view() },
                ]
            },
        },
{
    match result {
        Ok(events) => events,
        Err(PubNubError::EffectCanceled) => {
            let r: Vec<SubscribeEvent> = Vec::new();
            proof {
                assert(r.deep_view() =~= Seq::<SubscribeEventModel>::empty());
            }
            r
        },
        Err(e) => {
            let ghost reason_model = e.deep_view();
            let mut r: Vec<SubscribeEvent> = Vec::new();
            r.push(SubscribeEvent::ReceiveReconnectFailure { reason: e });
            proof {
                assert(r.deep_view() =~= seq![
                    SubscribeEventModel::ReceiveReconnectFailure { reason: reason_model },
                ]);
            }
            r
        },
    }
}

/// Run one receive retry. The policy decides first: a non-retriable
/// failure gives up at once; an empty input asks the engine to
/// unsubscribe instead of polling for nothing. Otherwise the
/// application-supplied receive call runs from the cursor, and whatever
/// it returns is mapped by [`receive_reconnect_events_from_result`].
pub fn execute<F: ReceiveFunction>(
    input: &SubscribeInput,
    cursor: &SubscribeCursor,
    attempt: u8,
    reason: PubNubError,
    retry_policy: &RequestRetryPolicy,
    executor: &F,
) -> (r: Vec<SubscribeEvent>)
    ensures
        !spec_retriable_error(*retry_policy, attempt, reason.deep_view()) ==> r.deep_view() == seq![
            SubscribeEventModel::ReceiveReconnectGiveUp { reason: reason.deep_view() },
        ],
        spec_retriable_error(*retry_policy, attempt, reason.deep_view())
            && input.deep_view().is_empty() ==> r.deep_view() == seq![
            SubscribeEventModel::UnsubscribeAll,
        ],
{
    if !retry_policy.retriable_error(attempt, &reason) {
        let ghost reason_model = reason.deep_view();
        let mut r: Vec<SubscribeEvent> = Vec::new();
        r.push(SubscribeEvent::ReceiveReconnectGiveUp { reason });
        proof {
            assert(r.deep_view() =~= seq![
                SubscribeEventModel::ReceiveReconnectGiveUp { reason: reason_model },
            ]);
        }
        return r;
    }
    if input.is_empty() {
        let mut r: Vec<SubscribeEvent> = Vec::new();
        r.push(SubscribeEvent::UnsubscribeAll);
        proof {
            assert(r.deep_view() =~= seq![SubscribeEventModel::UnsubscribeAll]);
        }
        return r;
    }
    let result = executor.call(
        &input.channels(),
        &input.channel_groups(),
        cursor,
        attempt,
        Some(reason),
    );
    receive_reconnect_events_from_result(result)
}

} // verus!
