use pubnub::effects::{handshake_reconnection, receive, receive_reconnection};
use pubnub::error::PubNubError;
use pubnub::input::SubscribeInput;
use pubnub::retry::RequestRetryPolicy;
use pubnub::subscribe_effect::{HandshakeFunction, ReceiveFunction, SubscribeResult};
use pubnub::subscribe_event::SubscribeEvent;
use pubnub::subscribe_types::SubscribeCursor;

struct MockReceiveOk;

impl ReceiveFunction for MockReceiveOk {
    fn call(
        &self,
        channels: &Option<Vec<String>>,
        channel_groups: &Option<Vec<String>>,
        cursor: &SubscribeCursor,
        attempt: u8,
        reason: Option<PubNubError>,
    ) -> Result<Vec<SubscribeEvent>, PubNubError> {
        assert_eq!(channels, &Some(vec!["ch1".to_string()]));
        assert_eq!(channel_groups, &Some(vec!["cg1".to_string()]));
        assert_eq!(attempt, 0);
        assert_eq!(reason, None);
        assert_eq!(cursor, &Default::default());

        Ok(vec![SubscribeEvent::ReceiveSuccess {
            cursor: Default::default(),
            messages: vec![],
        }])
    }
}

#[test]
fn receive_messages() {
    let result = receive::execute(
        &Some(vec!["ch1".to_string()]),
        &Some(vec!["cg1".to_string()]),
        &Default::default(),
        &MockReceiveOk,
    );

    assert!(matches!(
        result.unwrap().first().unwrap(),
        &SubscribeEvent::ReceiveSuccess { .. }
    ))
}

struct MockReceiveErr;

impl ReceiveFunction for MockReceiveErr {
    fn call(
        &self,
        _channels: &Option<Vec<String>>,
        _channel_groups: &Option<Vec<String>>,
        _cursor: &SubscribeCursor,
        _attempt: u8,
        _reason: Option<PubNubError>,
    ) -> Result<Vec<SubscribeEvent>, PubNubError> {
        Err(PubNubError::Transport {
            details: "test".into(),
            response: None,
        })
    }
}

#[test]
fn return_handskahe_failure_event_on_err() {
    let binding = receive::execute(
        &Some(vec!["ch1".to_string()]),
        &Some(vec!["cg1".to_string()]),
        &Default::default(),
        &MockReceiveErr,
    )
    .unwrap();
    let result = &binding[0];

    assert!(matches!(result, &SubscribeEvent::ReceiveFailure { .. }));
}

struct MockHandshakeOk;

impl HandshakeFunction for MockHandshakeOk {
    fn call(
        &self,
        channels: &Option<Vec<String>>,
        channel_groups: &Option<Vec<String>>,
        cursor: Option<&SubscribeCursor>,
        attempt: u8,
        reason: Option<PubNubError>,
        effect_id: &str,
    ) -> Result<SubscribeResult, PubNubError> {
        assert_eq!(channels, &Some(vec!["ch1".to_string()]));
        assert_eq!(channel_groups, &Some(vec!["cg1".to_string()]));
        assert_eq!(cursor, None);
        assert_eq!(attempt, 1);
        assert_eq!(
            reason.unwrap(),
            PubNubError::Transport {
                details: "test".into(),
                response: None
            }
        );
        assert_eq!(effect_id, "id");

        Ok(SubscribeResult {
            cursor: Default::default(),
            messages: vec![],
        })
    }
}

#[test]
fn initialize_handshake_reconnect_attempt() {
    let result = handshake_reconnection::execute(
        &SubscribeInput::new(
            &Some(vec!["ch1".to_string()]),
            &Some(vec!["cg1".to_string()]),
        ),
        1,
        PubNubError::Transport {
            details: "test".into(),
            response: None,
        },
        "id",
        &RequestRetryPolicy::Linear {
            delay: 0,
            max_retry: 1,
        },
        &MockHandshakeOk,
    );

    assert!(!result.is_empty());
    assert!(matches!(
        result.first().unwrap(),
        SubscribeEvent::HandshakeReconnectSuccess { .. }
    ));
}

struct MockHandshakeErr;

impl HandshakeFunction for MockHandshakeErr {
    fn call(
        &self,
        _channels: &Option<Vec<String>>,
        _channel_groups: &Option<Vec<String>>,
        _cursor: Option<&SubscribeCursor>,
        _attempt: u8,
        _reason: Option<PubNubError>,
        _effect_id: &str,
    ) -> Result<SubscribeResult, PubNubError> {
        Err(PubNubError::Transport {
            details: "test".into(),
            response: None,
        })
    }
}

#[test]
fn return_handshake_reconnect_failure_event_on_err() {
    let result = handshake_reconnection::execute(
        &SubscribeInput::new(
            &Some(vec!["ch1".to_string()]),
            &Some(vec!["cg1".to_string()]),
        ),
        1,
        PubNubError::Transport {
            details: "test".into(),
            response: None,
        },
        "id",
        &RequestRetryPolicy::NoRetry,
        &MockHandshakeErr,
    );

    assert!(!result.is_empty());
    assert!(matches!(
        result.first().unwrap(),
        SubscribeEvent::HandshakeReconnectGiveUp { .. }
    ));
}

#[test]
fn filter_canceled_effect_to_no_event() {
    let result = handshake_reconnection::execute(
        &SubscribeInput::new(&Some(vec!["ch1".to_string()]), &None),
        1,
        PubNubError::Transport {
            details: "test".into(),
            response: None,
        },
        "id",
        &RequestRetryPolicy::Linear {
            delay: 0,
            max_retry: 2,
        },
        &MockHandshakeCanceled,
    );

    assert!(result.is_empty());
}

struct MockHandshakeCanceled;

impl HandshakeFunction for MockHandshakeCanceled {
    fn call(
        &self,
        _channels: &Option<Vec<String>>,
        _channel_groups: &Option<Vec<String>>,
        _cursor: Option<&SubscribeCursor>,
        _attempt: u8,
        _reason: Option<PubNubError>,
        _effect_id: &str,
    ) -> Result<SubscribeResult, PubNubError> {
        Err(PubNubError::EffectCanceled)
    }
}

#[test]
fn ask_to_unsubscribe_for_empty_input() {
    let result = handshake_reconnection::execute(
        &SubscribeInput::new(&None, &None),
        1,
        PubNubError::Transport {
            details: "test".into(),
            response: None,
        },
        "id",
        &RequestRetryPolicy::Linear {
            delay: 0,
            max_retry: 2,
        },
        &MockHandshakeErr,
    );

    assert_eq!(result, vec![SubscribeEvent::UnsubscribeAll]);
}

struct MockReceiveCanceled;

impl ReceiveFunction for MockReceiveCanceled {
    fn call(
        &self,
        _channels: &Option<Vec<String>>,
        _channel_groups: &Option<Vec<String>>,
        _cursor: &SubscribeCursor,
        _attempt: u8,
        _reason: Option<PubNubError>,
    ) -> Result<Vec<SubscribeEvent>, PubNubError> {
        Err(PubNubError::EffectCanceled)
    }
}

#[test]
fn filter_cancelled_receive_to_no_event() {
    let result = receive::execute(
        &Some(vec!["ch1".to_string()]),
        &Some(vec!["cg1".to_string()]),
        &Default::default(),
        &MockReceiveCanceled,
    );

    assert_eq!(result, Some(vec![]));
}

#[test]
fn receive_reconnect_gives_up_past_max_retry() {
    struct NeverPolled;

    impl ReceiveFunction for NeverPolled {
        fn call(
            &self,
            _channels: &Option<Vec<String>>,
            _channel_groups: &Option<Vec<String>>,
            _cursor: &SubscribeCursor,
            _attempt: u8,
            _reason: Option<PubNubError>,
        ) -> Result<Vec<SubscribeEvent>, PubNubError> {
            panic!("the policy should give up before polling again");
        }
    }

    let events = receive_reconnection::execute(
        &SubscribeInput::new(&Some(vec!["ch1".to_string()]), &None),
        &Default::default(),
        3,
        PubNubError::Transport {
            details: "down".into(),
            response: None,
        },
        &RequestRetryPolicy::Linear {
            delay: 0,
            max_retry: 2,
        },
        &NeverPolled,
    );
    assert!(matches!(
        events.as_slice(),
        [SubscribeEvent::ReceiveReconnectGiveUp { .. }]
    ));
}

#[test]
fn receive_reconnect_maps_failures_and_filters_cancellation() {
    let policy = RequestRetryPolicy::Linear {
        delay: 0,
        max_retry: 2,
    };
    let input = SubscribeInput::new(&Some(vec!["ch1".to_string()]), &None);

    let events = receive_reconnection::execute(
        &input,
        &Default::default(),
        1,
        PubNubError::Transport {
            details: "down".into(),
            response: None,
        },
        &policy,
        &MockReceiveErr,
    );
    assert!(matches!(
        events.as_slice(),
        [SubscribeEvent::ReceiveReconnectFailure { .. }]
    ));

    let events = receive_reconnection::execute(
        &input,
        &Default::default(),
        1,
        PubNubError::Transport {
            details: "down".into(),
            response: None,
        },
        &policy,
        &MockReceiveCanceled,
    );
    assert!(events.is_empty());

    let events = receive_reconnection::execute(
        &SubscribeInput::new(&None, &None),
        &Default::default(),
        1,
        PubNubError::Transport {
            details: "down".into(),
            response: None,
        },
        &policy,
        &MockReceiveErr,
    );
    assert_eq!(events, vec![SubscribeEvent::UnsubscribeAll]);
}

#[test]
fn no_retry_policy_gives_up_on_too_many_requests() {
    let events = handshake_reconnection::execute(
        &SubscribeInput::new(&Some(vec!["ch1".to_string()]), &None),
        1,
        PubNubError::API {
            status: 429,
            message: "slow down".into(),
            service: None,
            affected_channels: None,
            affected_channel_groups: None,
        },
        "id",
        &RequestRetryPolicy::NoRetry,
        &MockHandshakeErr,
    );
    assert!(matches!(
        events.as_slice(),
        [SubscribeEvent::HandshakeReconnectGiveUp { .. }]
    ));
}
