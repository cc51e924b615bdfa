//! The handshake retry effect: consult the retry policy, then re-issue
//! the handshake.

use vstd::prelude::*;

use crate::error::{PubNubError, PubNubErrorModel};
use crate::input::SubscribeInput;
use crate::retry::{spec_retriable_error, RequestRetryPolicy};
use crate::subscribe_effect::{HandshakeFunction, SubscribeResult};
use crate::subscribe_event::{SubscribeEvent, SubscribeEventModel};

verus! {

/// The events a completed handshake retry feeds back into the engine:
/// success carries the server's cursor, a cancelled effect is filtered to
/// no event at all, and any other failure becomes a
/// `HandshakeReconnectFailure`.
pub fn handshake_reconnect_events_from_result(
    result: Result<SubscribeResult, PubNubError>,
) -> (r: Vec<SubscribeEvent>)
    ensures
        match result {
            Ok(res) => r.deep_view() == seq![
                SubscribeEventModel::HandshakeReconnectSuccess {
                    cursor: res.deep_view().cursor,
                },
            ],
            Err(e) => if e.deep_view() == PubNubErrorModel::EffectCanceled {
                r.deep_view() == Seq::<SubscribeEventModel>::empty()
            } else {
                r.deep_view() == seq![
                    SubscribeEventModel::HandshakeReconnectFailure { reason: e.deep_view() },
                ]
            },
        },
{
    match result {
        Ok(res) => {
            let ghost cursor_model = res.cursor.deep_view();
            let mut r: Vec<SubscribeEvent> = Vec::new();
            r.push(SubscribeEvent::HandshakeReconnectSuccess { cursor: res.cursor });
            proof {
                assert(r.deep_view() =~= seq![
                    SubscribeEventModel::HandshakeReconnectSuccess { cursor: cursor_model },
                ]);
            }
            r
        },
        Err(PubNubError::EffectCanceled) => {
            let r: Vec<SubscribeEvent> = Vec::new();
            proof {
                assert(r.deep_view() =~= Seq::<SubscribeEventModel>::empty());
            }
            r
        },
        Err(e) => {
            let ghost reason_model = e.deep_view();
            let mut r: Vec<SubscribeEvent> = Vec::new();
            r.push(SubscribeEvent::HandshakeReconnectFailure { reason: e });
            proof {
                assert(r.deep_view() =~= seq![
                    SubscribeEventModel::HandshakeReconnectFailure { reason: reason_model },
                ]);
            }
            r
        },
    }
}

/// Run one handshake retry. The policy decides first: a non-retriable
/// failure gives up at once; an empty input asks the engine to
/// unsubscribe instead of handshaking into nothing. Otherwise the
/// application-supplied handshake call runs, and whatever it returns is
/// mapped by [`handshake_reconnect_events_from_result`].
pub fn execute<F: HandshakeFunction>(
    input: &SubscribeInput,
    attempt: u8,
    reason: PubNubError,
    effect_id: &str,
    retry_policy: &RequestRetryPolicy,
    executor: &F,
) -> (r: Vec<SubscribeEvent>)
    ensures
        !spec_retriable_error(*retry_policy, attempt, reason.deep_view()) ==> r.deep_view() == seq![
            SubscribeEventModel::HandshakeReconnectGiveUp { reason: reason.deep_view() },
        ],
        spec_retriable_error(*retry_policy, attempt, reason.deep_view())
            && input.deep_view().is_empty() ==> r.deep_view() == seq![
            SubscribeEventModel::UnsubscribeAll,
        ],
        spec_retriable_error(*retry_policy, attempt, reason.deep_view())
            && !input.deep_view().is_empty() ==> {
            ||| r.deep_view() == Seq::<SubscribeEventModel>::empty()
            ||| (r.deep_view().len() == 1 && (r.deep_view()[0] matches
                SubscribeEventModel::HandshakeReconnectSuccess { .. } || r.deep_view()[0] matches
                SubscribeEventModel::HandshakeReconnectFailure { .. }))
        },
{
    if !retry_policy.retriable_error(attempt, &reason) {
        let ghost reason_model = reason.deep_view();
        let mut r: Vec<SubscribeEvent> = Vec::new();
        r.push(SubscribeEvent::HandshakeReconnectGiveUp { reason });
        proof {
            assert(r.deep_view() =~= seq![
                SubscribeEventModel::HandshakeReconnectGiveUp { reason: reason_model },
            ]);
        }
        return r;
    }
    if input.is_empty() {
        let mut r: Vec<SubscribeEvent> = Vec::new();
        r.push(SubscribeEvent::UnsubscribeAll);
        proof {
            assert(r.deep_view() =~= seq![SubscribeEventModel::UnsubscribeAll]);
        }
        return r;
    }
    let result = executor.call(
        &input.channels(),
        &input.channel_groups(),
        None,
        attempt,
        Some(reason),
        effect_id,
    );
    handshake_reconnect_events_from_result(result)
}

} // verus!
