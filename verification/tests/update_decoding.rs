use pubnub::error::PubNubError;
use pubnub::presence::{
    delayed_heartbeat_execute, HeartbeatFunction, HeartbeatResult, PresenceEffectInvocation,
    PresenceEvent, PresenceEventEngine, PresenceState,
};
use pubnub::input::SubscribeInput;
use pubnub::retry::RequestRetryPolicy;
use pubnub::subscribe_types::{MessageActionEvent, ObjectEvent, SubscribeCursor};
use pubnub::update::{
    ChannelObjectBody, Envelope, EnvelopePayload, File, Message, MessageAction, MessageActionData,
    FileData, Object, ObjectDataBody, Presence, Update,
};

fn envelope(payload: EnvelopePayload, message_type: u32) -> Envelope {
    Envelope {
        channel: "ch1".into(),
        subscription: "sub".into(),
        sender: Some("client-1".into()),
        published: SubscribeCursor {
            timetoken: "170".into(),
            region: 1,
        },
        message_type,
        payload,
    }
}

fn channel_body() -> ChannelObjectBody {
    ChannelObjectBody {
        name: Some("room".into()),
        description: None,
        type_info: None,
        status: None,
        id: "room-1".into(),
        custom: None,
        updated: "today".into(),
        tag: "etag".into(),
    }
}

#[test]
fn presence_join_from_envelope() {
    let env = envelope(
        EnvelopePayload::Presence {
            action: Some("join".into()),
            timestamp: 100,
            uuid: Some("u-1".into()),
            occupancy: Some(3),
            data: None,
            join: None,
            leave: None,
            timeout: None,
        },
        0,
    );
    assert_eq!(
        Presence::try_from(env),
        Ok(Presence::Join {
            timestamp: 100,
            uuid: "u-1".into(),
            channel: "ch1".into(),
            occupancy: 3,
        })
    );
}

#[test]
fn presence_missing_action_means_interval() {
    let env = envelope(
        EnvelopePayload::Presence {
            action: None,
            timestamp: 100,
            uuid: None,
            occupancy: None,
            data: None,
            join: Some(vec!["u-2".into()]),
            leave: None,
            timeout: None,
        },
        0,
    );
    assert_eq!(
        Presence::try_from(env),
        Ok(Presence::Interval {
            timestamp: 100,
            channel: "ch1".into(),
            occupancy: 0,
            join: Some(vec!["u-2".into()]),
            leave: None,
            timeout: None,
        })
    );
}

#[test]
fn presence_unknown_action_is_state_change() {
    let env = envelope(
        EnvelopePayload::Presence {
            action: Some("state-change".into()),
            timestamp: 100,
            uuid: Some("u-1".into()),
            occupancy: None,
            data: Some("{\"mood\":\"ok\"}".into()),
            join: None,
            leave: None,
            timeout: None,
        },
        0,
    );
    assert_eq!(
        Presence::try_from(env),
        Ok(Presence::StateChange {
            timestamp: 100,
            channel: "ch1".into(),
            uuid: "u-1".into(),
            data: Some("{\"mood\":\"ok\"}".into()),
        })
    );
}

#[test]
fn presence_rejects_other_payloads() {
    let env = envelope(EnvelopePayload::General("{}".into()), 0);
    assert!(matches!(
        Presence::try_from(env),
        Err(PubNubError::Deserialization { .. })
    ));
}

#[test]
fn object_channel_from_envelope() {
    let env = envelope(
        EnvelopePayload::Object {
            event: "update".into(),
            update_type: "channel".into(),
            data: ObjectDataBody::Channel(channel_body()),
        },
        2,
    );
    assert_eq!(
        Object::try_from(env),
        Ok(Object::Channel {
            event: Some(ObjectEvent::Update),
            timestamp: Some(170),
            data: channel_body(),
        })
    );
}

#[test]
fn object_rejects_mismatched_update_type() {
    let env = envelope(
        EnvelopePayload::Object {
            event: "update".into(),
            update_type: "uuid".into(),
            data: ObjectDataBody::Channel(channel_body()),
        },
        2,
    );
    assert!(matches!(
        Object::try_from(env),
        Err(PubNubError::Deserialization { .. })
    ));
}

#[test]
fn message_action_from_envelope() {
    let env = envelope(
        EnvelopePayload::MessageAction {
            event: "delete".into(),
            data: MessageActionData {
                message_timetoken: "160".into(),
                action_timetoken: "161".into(),
                action_type: "reaction".into(),
                value: "smile".into(),
            },
        },
        3,
    );
    assert_eq!(
        MessageAction::try_from(env),
        Ok(MessageAction {
            event: MessageActionEvent::Delete,
            sender: "client-1".into(),
            timestamp: 170,
            channel: "ch1".into(),
            subscription: "sub".into(),
            message_timetoken: "160".into(),
            action_timetoken: "161".into(),
            action_type: "reaction".into(),
            value: "smile".into(),
        })
    );
}

#[test]
fn file_from_envelope() {
    let env = envelope(
        EnvelopePayload::File {
            message: "see attachment".into(),
            file: FileData {
                id: "file-1".into(),
                name: "cat.png".into(),
            },
        },
        4,
    );
    assert_eq!(
        File::try_from(env),
        Ok(File {
            sender: "client-1".into(),
            timestamp: 170,
            channel: "ch1".into(),
            subscription: "sub".into(),
            message: "see attachment".into(),
            id: "file-1".into(),
            name: "cat.png".into(),
        })
    );
}

#[test]
fn update_dispatches_on_wire_discriminator() {
    let env = envelope(EnvelopePayload::General("\"hello\"".into()), 0);
    assert_eq!(
        Update::try_from(env),
        Ok(Update::Message {
            channel: "ch1".into(),
            message: Message::General("\"hello\"".into()),
        })
    );

    let env = envelope(EnvelopePayload::Custom("\"ping\"".into()), 1);
    assert_eq!(
        Update::try_from(env),
        Ok(Update::Signal {
            channel: "ch1".into(),
            message: Message::Custom("\"ping\"".into()),
        })
    );

    let env = envelope(EnvelopePayload::General("{}".into()), 9);
    assert!(matches!(
        Update::try_from(env),
        Err(PubNubError::Deserialization { .. })
    ));
}

#[test]
fn update_channel_accessor() {
    let update = Update::File {
        channel: "files".into(),
        file: File {
            sender: "s".into(),
            timestamp: 1,
            channel: "files".into(),
            subscription: "files".into(),
            message: "m".into(),
            id: "i".into(),
            name: "n".into(),
        },
    };
    assert_eq!(update.channel(), "files");
}

fn presence_input(channels: &[&str]) -> SubscribeInput {
    SubscribeInput::new(&Some(channels.iter().map(|c| c.to_string()).collect()), &None)
}

#[test]
fn presence_heartbeat_cycle() {
    let mut engine = PresenceEventEngine::new(PresenceState::Inactive);

    let invocations = engine.process(&PresenceEvent::Joined {
        channels: Some(vec!["ch1".to_string()]),
        channel_groups: None,
    });
    assert_eq!(
        engine.current_state(),
        PresenceState::Heartbeating {
            input: presence_input(&["ch1"]),
        }
    );
    assert_eq!(
        invocations,
        vec![PresenceEffectInvocation::Heartbeat {
            input: presence_input(&["ch1"]),
        }]
    );

    let invocations = engine.process(&PresenceEvent::HeartbeatSuccess);
    assert_eq!(
        engine.current_state(),
        PresenceState::HeartbeatCooldown {
            input: presence_input(&["ch1"]),
        }
    );
    assert_eq!(
        invocations,
        vec![PresenceEffectInvocation::Wait {
            input: presence_input(&["ch1"]),
        }]
    );

    let invocations = engine.process(&PresenceEvent::TimesUp);
    assert_eq!(
        engine.current_state(),
        PresenceState::Heartbeating {
            input: presence_input(&["ch1"]),
        }
    );
    // The wait is cancelled before the next heartbeat starts.
    assert_eq!(
        invocations,
        vec![
            PresenceEffectInvocation::CancelWait,
            PresenceEffectInvocation::Heartbeat {
                input: presence_input(&["ch1"]),
            },
        ]
    );

    let invocations = engine.process(&PresenceEvent::LeftAll);
    assert_eq!(engine.current_state(), PresenceState::Inactive);
    assert_eq!(
        invocations,
        vec![PresenceEffectInvocation::Leave {
            input: presence_input(&["ch1"]),
        }]
    );
}

#[test]
fn presence_retry_gate_gives_up_after_max_retry() {
    struct NeverCalled;

    impl HeartbeatFunction for NeverCalled {
        fn call(
            &self,
            _channels: &Option<Vec<String>>,
            _channel_groups: &Option<Vec<String>>,
            _attempt: u8,
            _reason: Option<PubNubError>,
            _effect_id: &str,
        ) -> Result<HeartbeatResult, PubNubError> {
            panic!("the policy should give up before calling the heartbeat");
        }
    }

    let events = delayed_heartbeat_execute(
        &presence_input(&["ch1"]),
        3,
        PubNubError::Transport {
            details: "down".into(),
            response: None,
        },
        "DELAYED_HEARTBEAT",
        &RequestRetryPolicy::Linear {
            delay: 0,
            max_retry: 2,
        },
        &NeverCalled,
    );
    assert!(matches!(
        events.as_slice(),
        [PresenceEvent::HeartbeatGiveUp { .. }]
    ));
}
