//! The receive effect: one long poll for updates.

use vstd::prelude::*;

use crate::error::{PubNubError, PubNubErrorModel};
use crate::subscribe_effect::ReceiveFunction;
use crate::subscribe_event::{SubscribeEvent, SubscribeEventModel};
use crate::subscribe_types::SubscribeCursor;

verus! {

/// The events a completed receive call feeds back into the engine: the
/// executor's own events on success, a cancelled effect is filtered to no
/// event at all, and any other failure becomes a single `ReceiveFailure`
/// carrying the error.
pub fn receive_events_from_result(
    result: Result<Vec<SubscribeEvent>, PubNubError>,
) -> (r: Vec<SubscribeEvent>)
    ensures
        match result {
            Ok(events) => r == events,
            Err(e) => if e.deep_view() == PubNubErrorModel::EffectCanceled {
                r.deep_view() == Seq::<SubscribeEventModel>::empty()
            } else {
                r.deep_view() == seq![
                    SubscribeEventModel::ReceiveFailure { reason: e.deep_view() },
                ]
            },
        },
{
    match result {
        Ok(events) => events,
        Err(PubNubError::EffectCanceled) => {
            let r: Vec<SubscribeEvent> = Vec::new();
            proof {
                assert(r.deep_view() =~= Seq::<SubscribeEventModel>::empty());
            }
            r
        },
        Err(e) => {
            let ghost reason_model = e.deep_view();
            let mut r: Vec<SubscribeEvent> = Vec::new();
            r.push(SubscribeEvent::ReceiveFailure { reason: e });
            proof {
                assert(r.deep_view() =~= seq![
                    SubscribeEventModel::ReceiveFailure { reason: reason_model },
                ]);
            }
            r
        },
    }
}

/// Run one long poll through the application-supplied receive call and
/// turn its outcome into engine events. The call itself is outside the
/// core's control: whatever it returns, the result is mapped by
/// [`receive_events_from_result`], so the effect always produces an event
/// list — a failure becomes a `ReceiveFailure` event, and an effect
/// aborted by a state transition produces no event at all.
pub fn execute<F: ReceiveFunction>(
    channels: &Option<Vec<String>>,
    channel_groups: &Option<Vec<String>>,
    cursor: &SubscribeCursor,
    executor: &F,
) -> (r: Option<Vec<SubscribeEvent>>)
    ensures
        r is Some,
{
    let result = executor.call(channels, channel_groups, cursor, 0, None);
    Some(receive_events_from_result(result))
}

} // verus!
