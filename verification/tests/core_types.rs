use pubnub::access::{RevokeTokenDeserializer, RevokeTokenRequest, RevokeTokenRequestWithDeserializerBuilder, RevokeTokenResult};
use pubnub::dispatcher::EffectDispatcher;
use pubnub::engine::SubscribeEventEngine;
use pubnub::error::PubNubError;
use pubnub::input::SubscribeInput;
use pubnub::manager::{Subscription, SubscriptionManager};
use pubnub::retry::RequestRetryPolicy;
use pubnub::strings::parse_u32;
use pubnub::subscribe_effect::{SubscribeEffect, SubscribeEffectHandler, SubscribeEffectInvocation};
use pubnub::subscribe_state::SubscribeState;
use pubnub::subscribe_types::{
    MessageActionEvent, ObjectEvent, SubscribeCursor, SubscribeMessageType, SubscribeStatus,
};
use pubnub::transport::{TransportMethod, TransportResponse};
use pubnub::update::{Message, Update};

#[test]
fn cursor_default_starts_from_now() {
    let cursor: SubscribeCursor = Default::default();
    assert_eq!(cursor.timetoken, "0");
    assert_eq!(cursor.region, 0);
}

#[test]
fn cursor_query_params_for_start_from_now() {
    let cursor: SubscribeCursor = Default::default();
    assert_eq!(
        cursor.query_params(),
        vec![("tt".to_string(), "0".to_string())]
    );
}

#[test]
fn cursor_query_params_with_region() {
    let cursor = SubscribeCursor {
        timetoken: "17000000000000000".into(),
        region: 21,
    };
    assert_eq!(
        cursor.query_params(),
        vec![
            ("tt".to_string(), "17000000000000000".to_string()),
            ("tr".to_string(), "21".to_string()),
        ]
    );
}

#[test]
fn parse_u32_accepts_digits_only() {
    assert_eq!(parse_u32("150"), Some(150));
    assert_eq!(parse_u32("0"), Some(0));
    assert_eq!(parse_u32("4294967295"), Some(u32::MAX));
    assert_eq!(parse_u32("4294967296"), None);
    assert_eq!(parse_u32(""), None);
    assert_eq!(parse_u32("12a"), None);
    assert_eq!(parse_u32("-1"), None);
}

#[test]
fn header_lookup_takes_first_match() {
    let response = TransportResponse {
        status: 429,
        headers: vec![
            ("content-type".into(), "application/json".into()),
            ("retry-after".into(), "150".into()),
            ("retry-after".into(), "9".into()),
        ],
        body: None,
    };
    assert_eq!(response.header_value("retry-after"), Some("150".to_string()));
    assert_eq!(response.header_value("missing"), None);
}

#[test]
fn input_deduplicates_names() {
    let input = SubscribeInput::new(
        &Some(vec!["ch1".into(), "ch2".into(), "ch1".into()]),
        &None,
    );
    assert_eq!(input.channels(), Some(vec!["ch1".to_string(), "ch2".to_string()]));
    assert_eq!(input.channel_groups(), None);
    assert!(!input.is_empty());
    assert!(input.contains_channel(&"ch1".to_string()));
    assert!(!input.contains_channel(&"ch3".to_string()));
    assert!(!input.contains_channel_group(&Some("gr1".to_string())));
    assert!(!input.contains_channel_group(&None));
}

#[test]
fn input_is_empty_without_names() {
    assert!(SubscribeInput::new(&None, &None).is_empty());
    assert!(SubscribeInput::new(&Some(vec![]), &Some(vec![])).is_empty());
    assert!(!SubscribeInput::new(&None, &Some(vec!["gr1".into()])).is_empty());
}

#[test]
fn input_union_and_difference() {
    let base = SubscribeInput::new(&Some(vec!["ch1".into(), "ch2".into()]), &None);
    let more = SubscribeInput::new(&Some(vec!["ch2".into(), "ch3".into()]), &Some(vec!["gr1".into()]));

    let merged = base.clone().add(more.clone());
    assert_eq!(
        merged.channels(),
        Some(vec!["ch1".to_string(), "ch2".to_string(), "ch3".to_string()])
    );
    assert_eq!(merged.channel_groups(), Some(vec!["gr1".to_string()]));

    let reduced = merged.sub(SubscribeInput::new(&Some(vec!["ch2".into()]), &None));
    assert_eq!(
        reduced.channels(),
        Some(vec!["ch1".to_string(), "ch3".to_string()])
    );

    let mut in_place = base;
    in_place.add_assign(more);
    assert_eq!(
        in_place.channels(),
        Some(vec!["ch1".to_string(), "ch2".to_string(), "ch3".to_string()])
    );
    in_place.sub_assign(SubscribeInput::new(&Some(vec!["ch1".into()]), &None));
    assert_eq!(
        in_place.channels(),
        Some(vec!["ch2".to_string(), "ch3".to_string()])
    );
}

#[test]
fn message_type_codes() {
    assert_eq!(SubscribeMessageType::from_code(0), Some(SubscribeMessageType::Message));
    assert_eq!(SubscribeMessageType::from_code(1), Some(SubscribeMessageType::Signal));
    assert_eq!(SubscribeMessageType::from_code(2), Some(SubscribeMessageType::Object));
    assert_eq!(
        SubscribeMessageType::from_code(3),
        Some(SubscribeMessageType::MessageAction)
    );
    assert_eq!(SubscribeMessageType::from_code(4), Some(SubscribeMessageType::File));
    assert_eq!(SubscribeMessageType::from_code(5), None);
}

#[test]
fn object_event_names() {
    assert_eq!(ObjectEvent::try_from("update".to_string()), Ok(ObjectEvent::Update));
    assert_eq!(ObjectEvent::try_from("delete".to_string()), Ok(ObjectEvent::Delete));
    assert!(matches!(
        ObjectEvent::try_from("rename".to_string()),
        Err(PubNubError::Deserialization { .. })
    ));
    assert_eq!(
        MessageActionEvent::try_from("update".to_string()),
        Ok(MessageActionEvent::Update)
    );
    assert!(matches!(
        MessageActionEvent::try_from("added".to_string()),
        Err(PubNubError::Deserialization { .. })
    ));
}

#[test]
fn status_names() {
    assert_eq!(SubscribeStatus::Connected.name(), "Connected");
    assert_eq!(SubscribeStatus::Reconnected.name(), "Reconnected");
    assert_eq!(SubscribeStatus::Disconnected.name(), "Disconnected");
}

#[test]
fn handler_creates_effects_for_start_invocations() {
    let policy = RequestRetryPolicy::Linear {
        delay: 1,
        max_retry: 2,
    };
    let handler = SubscribeEffectHandler::new(policy);
    let input = SubscribeInput::new(&Some(vec!["ch1".into()]), &None);

    let effect = handler.create(&SubscribeEffectInvocation::Handshake {
        input: input.clone(),
        cursor: None,
    });
    assert_eq!(
        effect,
        Some(SubscribeEffect::Handshake {
            input: input.clone(),
            cursor: None,
        })
    );
    assert_eq!(effect.unwrap().id(), "HANDSHAKE");

    let reconnect = handler.create(&SubscribeEffectInvocation::HandshakeReconnect {
        input: input.clone(),
        cursor: None,
        attempts: 1,
        reason: PubNubError::EffectCanceled,
    });
    assert_eq!(
        reconnect,
        Some(SubscribeEffect::HandshakeReconnect {
            input,
            cursor: None,
            attempts: 1,
            reason: PubNubError::EffectCanceled,
            retry_policy: policy,
        })
    );

    assert_eq!(handler.create(&SubscribeEffectInvocation::CancelHandshake), None);
    assert_eq!(handler.create(&SubscribeEffectInvocation::CancelReceive), None);
}

#[test]
fn invocation_ids_pair_cancellations_with_starts() {
    let input = SubscribeInput::new(&Some(vec!["ch1".into()]), &None);
    let start = SubscribeEffectInvocation::Receive {
        input,
        cursor: Default::default(),
    };
    assert_eq!(start.id(), "RECEIVE_MESSAGES");
    assert!(!start.is_cancellation());
    assert_eq!(
        SubscribeEffectInvocation::CancelReceive.id(),
        "CANCEL_RECEIVE_MESSAGES"
    );
    assert!(SubscribeEffectInvocation::CancelReceive.is_cancellation());
}

#[test]
fn manager_routes_updates_by_channel() {
    let engine = SubscribeEventEngine::new(SubscribeState::Unsubscribed);
    let mut manager = SubscriptionManager::new(engine);
    manager.register(Subscription {
        id: "sub-a".into(),
        channels: vec!["ch1".into()],
    });
    manager.register(Subscription {
        id: "sub-b".into(),
        channels: vec!["ch1".into(), "ch2".into()],
    });

    let recipients = manager.notify_new_status(&SubscribeStatus::Connected);
    assert_eq!(recipients, vec!["sub-a".to_string(), "sub-b".to_string()]);

    let m1 = Update::Message {
        channel: "ch2".to_string(),
        message: Message::General("one".to_string()),
    };
    let m2 = Update::Signal {
        channel: "ch1".to_string(),
        message: Message::General("two".to_string()),
    };
    let deliveries = manager.notify_new_messages(vec![m1.clone(), m2.clone()]);
    assert_eq!(
        deliveries,
        vec![
            ("sub-b".to_string(), m1),
            ("sub-a".to_string(), m2.clone()),
            ("sub-b".to_string(), m2),
        ]
    );
}

#[test]
fn manager_unregisters_by_id() {
    let engine = SubscribeEventEngine::new(SubscribeState::Unsubscribed);
    let mut manager = SubscriptionManager::new(engine);
    let first = Subscription {
        id: "sub-a".into(),
        channels: vec!["ch1".into()],
    };
    let second = Subscription {
        id: "sub-b".into(),
        channels: vec!["ch2".into()],
    };
    manager.register(first.clone());
    manager.register(second);

    manager.unregister(&first);
    let recipients = manager.notify_new_status(&SubscribeStatus::Connected);
    assert_eq!(recipients, vec!["sub-b".to_string()]);

    // Unregistering an unknown listener changes nothing.
    manager.unregister(&first);
    let recipients = manager.notify_new_status(&SubscribeStatus::Connected);
    assert_eq!(recipients, vec!["sub-b".to_string()]);
}

#[test]
fn revoke_request_encodes_token_into_path() {
    let request = RevokeTokenRequest {
        subscribe_key: "demo".into(),
        token: "ab+c d".into(),
    };
    let transport_request = request.transport_request();
    // Fails if the encoder handed the token back unchanged.
    assert_eq!(transport_request.path, "/v3/pam/demo/grant/ab%2Bc%20d");
    assert_eq!(transport_request.method, TransportMethod::Delete);
    assert_eq!(
        transport_request.headers,
        vec![("Content-Type".to_string(), "application/json".to_string())]
    );
}

struct AcceptAll;

impl RevokeTokenDeserializer for AcceptAll {
    fn deserialize(&self, _bytes: &Vec<u8>) -> Result<RevokeTokenResult, PubNubError> {
        Ok(RevokeTokenResult)
    }
}

#[test]
fn revoke_response_without_body_is_api_error() {
    let builder = RevokeTokenRequestWithDeserializerBuilder {
        subscribe_key: "demo".into(),
        token: "token".into(),
    };
    let builder = builder.deserialize_with(AcceptAll);

    let no_body = TransportResponse {
        status: 200,
        headers: vec![],
        body: None,
    };
    let result = builder.request.process_response(no_body, &builder.deserializer);
    assert!(matches!(result, Err(PubNubError::API { status: 400, .. })));

    let with_body = TransportResponse {
        status: 200,
        headers: vec![],
        body: Some(vec![]),
    };
    let result = builder.request.process_response(with_body, &builder.deserializer);
    assert_eq!(result, Ok(RevokeTokenResult));
}

struct CannedTransport {
    response: std::cell::RefCell<Option<TransportResponse>>,
}

impl pubnub::transport::Transport for CannedTransport {
    fn send(
        &self,
        request: pubnub::transport::TransportRequest,
    ) -> Result<TransportResponse, PubNubError> {
        assert_eq!(request.path, "/v3/pam/demo/grant/token-1");
        assert_eq!(request.method, TransportMethod::Delete);
        Ok(self.response.borrow_mut().take().expect("one send expected"))
    }
}

#[test]
fn execute_blocking_runs_request_through_transport_and_codec() {
    let builder = RevokeTokenRequestWithDeserializerBuilder {
        subscribe_key: "demo".into(),
        token: "token-1".into(),
    }
    .deserialize_with(AcceptAll);

    let transport = CannedTransport {
        response: std::cell::RefCell::new(Some(TransportResponse {
            status: 200,
            headers: vec![],
            body: Some(vec![]),
        })),
    };
    assert_eq!(builder.execute_blocking(&transport), Ok(RevokeTokenResult));

    let transport = CannedTransport {
        response: std::cell::RefCell::new(Some(TransportResponse {
            status: 200,
            headers: vec![],
            body: None,
        })),
    };
    assert!(matches!(
        builder.execute_blocking(&transport),
        Err(PubNubError::API { status: 400, .. })
    ));
}

#[test]
fn general_api_error_defaults_to_bad_request() {
    let error = PubNubError::general_api_error("boom", None);
    assert!(matches!(error, PubNubError::API { status: 400, .. }));
    assert_eq!(error.status(), 400);

    let error = PubNubError::general_api_error("gone", Some(410));
    assert_eq!(error.status(), 410);

    let transport = PubNubError::Transport {
        details: "net down".into(),
        response: None,
    };
    assert_eq!(transport.status(), 0);
}

#[test]
fn dispatcher_pairs_cancellations_with_running_effects() {
    let handler = SubscribeEffectHandler::new(RequestRetryPolicy::NoRetry);
    let mut dispatcher = EffectDispatcher::new();
    let input = SubscribeInput::new(&Some(vec!["ch1".into()]), &None);

    let started = dispatcher.dispatch(
        &handler,
        &SubscribeEffectInvocation::Receive {
            input: input.clone(),
            cursor: Default::default(),
        },
    );
    assert_eq!(
        started,
        Some(SubscribeEffect::Receive {
            input,
            cursor: Default::default(),
        })
    );

    // An emit is handed back for immediate execution, untracked.
    let emitted = dispatcher.dispatch(
        &handler,
        &SubscribeEffectInvocation::EmitStatus(SubscribeStatus::Connected),
    );
    assert_eq!(
        emitted,
        Some(SubscribeEffect::EmitStatus(SubscribeStatus::Connected))
    );

    // The cancellation pairs with the running receive by id.
    let cancelled = dispatcher.dispatch(&handler, &SubscribeEffectInvocation::CancelReceive);
    assert_eq!(cancelled, None);

    // Cancelling again finds nothing in flight.
    let cancelled = dispatcher.dispatch(&handler, &SubscribeEffectInvocation::CancelReceive);
    assert_eq!(cancelled, None);
}

#[test]
fn execute_blocking_refuses_empty_subscribe_key() {
    struct UnreachableTransport;

    impl pubnub::transport::Transport for UnreachableTransport {
        fn send(
            &self,
            _request: pubnub::transport::TransportRequest,
        ) -> Result<TransportResponse, PubNubError> {
            panic!("an invalid configuration must be refused before any send");
        }
    }

    let builder = RevokeTokenRequestWithDeserializerBuilder {
        subscribe_key: "".into(),
        token: "token-1".into(),
    }
    .deserialize_with(AcceptAll);

    assert_eq!(
        builder.validate(),
        Err("Incomplete PubNub client configuration: 'subscribe_key' is empty.".to_string())
    );
    assert!(matches!(
        builder.execute_blocking(&UnreachableTransport),
        Err(PubNubError::API { status: 400, .. })
    ));
}
