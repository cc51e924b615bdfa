use pubnub::effects::handshake_reconnection;
use pubnub::engine::SubscribeEventEngine;
use pubnub::error::PubNubError;
use pubnub::input::SubscribeInput;
use pubnub::retry::RequestRetryPolicy;
use pubnub::subscribe_effect::{HandshakeFunction, SubscribeEffectInvocation, SubscribeResult};
use pubnub::subscribe_event::SubscribeEvent;
use pubnub::subscribe_state::SubscribeState;
use pubnub::subscribe_types::{SubscribeCursor, SubscribeStatus};
use pubnub::update::{Message, Update};

fn input(channels: &[&str], groups: &[&str]) -> SubscribeInput {
    SubscribeInput::new(
        &Some(channels.iter().map(|c| c.to_string()).collect()),
        &Some(groups.iter().map(|g| g.to_string()).collect()),
    )
}

fn cursor(tt: &str) -> SubscribeCursor {
    SubscribeCursor {
        timetoken: tt.into(),
        region: 1,
    }
}

fn transport_error(details: &str) -> PubNubError {
    PubNubError::Transport {
        details: details.to_string(),
        response: None,
    }
}

#[test]
fn happy_path_subscribe() {
    let mut engine = SubscribeEventEngine::new(SubscribeState::Unsubscribed);

    let invocations = engine.process(&SubscribeEvent::SubscriptionChanged {
        channels: Some(vec!["ch1".to_string()]),
        channel_groups: Some(vec!["gr1".to_string()]),
    });
    assert_eq!(
        engine.current_state(),
        SubscribeState::Handshaking {
            input: input(&["ch1"], &["gr1"]),
            cursor: None,
        }
    );
    assert_eq!(
        invocations,
        vec![SubscribeEffectInvocation::Handshake {
            input: input(&["ch1"], &["gr1"]),
            cursor: None,
        }]
    );

    let invocations = engine.process(&SubscribeEvent::HandshakeSuccess { cursor: cursor("10") });
    assert_eq!(
        engine.current_state(),
        SubscribeState::Receiving {
            input: input(&["ch1"], &["gr1"]),
            cursor: cursor("10"),
        }
    );
    let emitted: Vec<_> = invocations
        .iter()
        .filter(|i| matches!(i, SubscribeEffectInvocation::EmitStatus(_)))
        .collect();
    assert_eq!(
        emitted,
        vec![&SubscribeEffectInvocation::EmitStatus(SubscribeStatus::Connected)]
    );

    let m1 = Update::Message {
        channel: "ch1".to_string(),
        message: Message::General("m1-payload".to_string()),
    };
    let invocations = engine.process(&SubscribeEvent::ReceiveSuccess {
        cursor: cursor("20"),
        messages: vec![m1.clone()],
    });
    assert_eq!(
        engine.current_state(),
        SubscribeState::Receiving {
            input: input(&["ch1"], &["gr1"]),
            cursor: cursor("20"),
        }
    );
    assert!(invocations.contains(&SubscribeEffectInvocation::EmitMessages(vec![m1])));
}

struct FailingHandshake;

impl HandshakeFunction for FailingHandshake {
    fn call(
        &self,
        _channels: &Option<Vec<String>>,
        _channel_groups: &Option<Vec<String>>,
        _cursor: Option<&SubscribeCursor>,
        attempt: u8,
        _reason: Option<PubNubError>,
        _effect_id: &str,
    ) -> Result<SubscribeResult, PubNubError> {
        Err(transport_error(&format!("t{}", attempt + 1)))
    }
}

#[test]
fn handshake_retry_then_give_up() {
    let policy = RequestRetryPolicy::Linear {
        delay: 0,
        max_retry: 2,
    };
    let mut engine = SubscribeEventEngine::new(SubscribeState::Handshaking {
        input: input(&["ch1"], &["gr1"]),
        cursor: None,
    });

    engine.process(&SubscribeEvent::HandshakeFailure {
        reason: transport_error("t1"),
    });
    assert_eq!(
        engine.current_state(),
        SubscribeState::HandshakeReconnecting {
            input: input(&["ch1"], &["gr1"]),
            cursor: None,
            attempts: 1,
            reason: transport_error("t1"),
        }
    );

    // Run the reconnect effect until the policy gives up, feeding the
    // produced events back into the engine.
    loop {
        let (attempts, reason) = match engine.current_state() {
            SubscribeState::HandshakeReconnecting {
                attempts, reason, ..
            } => (attempts, reason),
            other => panic!("unexpected state: {:?}", other),
        };
        let events = handshake_reconnection::execute(
            &input(&["ch1"], &["gr1"]),
            attempts,
            reason,
            "HANDSHAKE_RECONNECT",
            &policy,
            &FailingHandshake,
        );
        assert_eq!(events.len(), 1);
        let gave_up = matches!(events[0], SubscribeEvent::HandshakeReconnectGiveUp { .. });
        let invocations = engine.process(&events[0]);
        if gave_up {
            assert_eq!(
                engine.current_state(),
                SubscribeState::HandshakeFailed {
                    input: input(&["ch1"], &["gr1"]),
                    cursor: None,
                    reason: transport_error("t3"),
                }
            );
            assert!(invocations.contains(&SubscribeEffectInvocation::EmitStatus(
                SubscribeStatus::ConnectionError(transport_error("t3"))
            )));
            break;
        }
    }
    // The engine went through attempts 1, 2 and 3 before giving up.
}

#[test]
fn dynamic_resubscribe_while_receiving() {
    let mut engine = SubscribeEventEngine::new(SubscribeState::Receiving {
        input: input(&["ch1"], &[]),
        cursor: cursor("10"),
    });

    let invocations = engine.process(&SubscribeEvent::SubscriptionChanged {
        channels: Some(vec!["ch2".to_string()]),
        channel_groups: Some(vec!["gr2".to_string()]),
    });

    assert_eq!(
        engine.current_state(),
        SubscribeState::Receiving {
            input: input(&["ch2"], &["gr2"]),
            cursor: cursor("10"),
        }
    );
    // The in-flight receive for ch1 is cancelled and a new one for
    // ch2/gr2 is started; no handshake is re-issued.
    assert_eq!(
        invocations,
        vec![
            SubscribeEffectInvocation::CancelReceive,
            SubscribeEffectInvocation::Receive {
                input: input(&["ch2"], &["gr2"]),
                cursor: cursor("10"),
            },
        ]
    );
}

#[test]
fn subscription_restore_keeps_preserved_cursor() {
    let mut engine = SubscribeEventEngine::new(SubscribeState::Handshaking {
        input: input(&["ch1"], &["gr1"]),
        cursor: Some(cursor("20")),
    });

    engine.process(&SubscribeEvent::SubscriptionRestored {
        channels: Some(vec!["ch2".to_string()]),
        channel_groups: Some(vec!["gr2".to_string()]),
        cursor: cursor("10"),
    });

    // The previously preserved cursor wins over the restored one.
    assert_eq!(
        engine.current_state(),
        SubscribeState::Handshaking {
            input: input(&["ch2"], &["gr2"]),
            cursor: Some(cursor("20")),
        }
    );
}

#[test]
fn disconnect_then_reconnect() {
    let mut engine = SubscribeEventEngine::new(SubscribeState::Receiving {
        input: input(&["ch1"], &["gr1"]),
        cursor: cursor("10"),
    });

    let invocations = engine.process(&SubscribeEvent::Disconnect);
    assert_eq!(
        engine.current_state(),
        SubscribeState::ReceiveStopped {
            input: input(&["ch1"], &["gr1"]),
            cursor: cursor("10"),
        }
    );
    assert!(invocations.contains(&SubscribeEffectInvocation::EmitStatus(
        SubscribeStatus::Disconnected
    )));

    engine.process(&SubscribeEvent::Reconnect);
    assert_eq!(
        engine.current_state(),
        SubscribeState::Handshaking {
            input: input(&["ch1"], &["gr1"]),
            cursor: Some(cursor("10")),
        }
    );
}

#[test]
fn unsubscribe_all_from_any_state() {
    let states = vec![
        SubscribeState::Handshaking {
            input: input(&["ch1"], &["gr1"]),
            cursor: None,
        },
        SubscribeState::HandshakeReconnecting {
            input: input(&["ch1"], &["gr1"]),
            cursor: None,
            attempts: 1,
            reason: transport_error("t"),
        },
        SubscribeState::HandshakeStopped {
            input: input(&["ch1"], &["gr1"]),
            cursor: None,
        },
        SubscribeState::HandshakeFailed {
            input: input(&["ch1"], &["gr1"]),
            cursor: None,
            reason: transport_error("t"),
        },
        SubscribeState::Receiving {
            input: input(&["ch1"], &["gr1"]),
            cursor: cursor("10"),
        },
        SubscribeState::ReceiveReconnecting {
            input: input(&["ch1"], &["gr1"]),
            cursor: cursor("10"),
            attempts: 1,
            reason: transport_error("t"),
        },
        SubscribeState::ReceiveStopped {
            input: input(&["ch1"], &["gr1"]),
            cursor: cursor("10"),
        },
        SubscribeState::ReceiveFailed {
            input: input(&["ch1"], &["gr1"]),
            cursor: cursor("10"),
            reason: transport_error("t"),
        },
    ];

    for state in states {
        let had_effect = matches!(
            state,
            SubscribeState::Handshaking { .. }
                | SubscribeState::HandshakeReconnecting { .. }
                | SubscribeState::Receiving { .. }
                | SubscribeState::ReceiveReconnecting { .. }
        );
        let mut engine = SubscribeEventEngine::new(state);
        let invocations = engine.process(&SubscribeEvent::UnsubscribeAll);
        assert_eq!(engine.current_state(), SubscribeState::Unsubscribed);
        assert!(invocations.contains(&SubscribeEffectInvocation::EmitStatus(
            SubscribeStatus::Disconnected
        )));
        // Any in-flight effect is cancelled first.
        if had_effect {
            assert!(invocations[0].is_cancellation());
        }
    }

    // In `Unsubscribed` there is nothing to drop: the event is a no-op.
    let mut engine = SubscribeEventEngine::new(SubscribeState::Unsubscribed);
    let invocations = engine.process(&SubscribeEvent::UnsubscribeAll);
    assert_eq!(engine.current_state(), SubscribeState::Unsubscribed);
    assert!(invocations.is_empty());
}
