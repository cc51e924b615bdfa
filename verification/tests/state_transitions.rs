use pubnub::engine::SubscribeEventEngine;
use pubnub::error::PubNubError;
use pubnub::input::SubscribeInput;
use pubnub::subscribe_event::SubscribeEvent;
use pubnub::subscribe_state::SubscribeState;
use pubnub::subscribe_types::SubscribeCursor;

fn event_engine(start_state: SubscribeState) -> SubscribeEventEngine {
    SubscribeEventEngine::new(start_state)
}

fn check_transition(init_state: SubscribeState, event: SubscribeEvent, target_state: SubscribeState) {
    let mut engine = event_engine(init_state.clone());
    assert_eq!(engine.current_state(), init_state);

    engine.process(&event);

    assert_eq!(engine.current_state(), target_state);
}

fn input(channels: &[&str], groups: &[&str]) -> SubscribeInput {
    SubscribeInput::new(
        &Some(channels.iter().map(|c| c.to_string()).collect()),
        &Some(groups.iter().map(|g| g.to_string()).collect()),
    )
}

fn cursor(tt: &str) -> SubscribeCursor {
    SubscribeCursor {
        timetoken: tt.into(),
        region: 1,
    }
}

fn transport_error(details: &str) -> PubNubError {
    PubNubError::Transport {
        details: details.to_string(),
        response: None,
    }
}

#[test]
fn transition_for_unsubscribed_state() {
    // to handshaking on subscription changed
    check_transition(
        SubscribeState::Unsubscribed,
        SubscribeEvent::SubscriptionChanged {
            channels: Some(vec!["ch1".to_string()]),
            channel_groups: Some(vec!["gr1".to_string()]),
        },
        SubscribeState::Handshaking {
            input: input(&["ch1"], &["gr1"]),
            cursor: None,
        },
    );
    // to handshaking on subscription restored
    check_transition(
        SubscribeState::Unsubscribed,
        SubscribeEvent::SubscriptionRestored {
            channels: Some(vec!["ch1".to_string()]),
            channel_groups: Some(vec!["gr1".to_string()]),
            cursor: cursor("10"),
        },
        SubscribeState::Handshaking {
            input: input(&["ch1"], &["gr1"]),
            cursor: Some(cursor("10")),
        },
    );
    // to not change on unexpected event
    check_transition(
        SubscribeState::Unsubscribed,
        SubscribeEvent::ReceiveFailure {
            reason: PubNubError::Transport {
                details: "Test".to_string(),
                response: None,
            },
        },
        SubscribeState::Unsubscribed,
    );
}

#[test]
fn transition_handshaking_state() {
    // to handshaking on subscription changed
    check_transition(
        SubscribeState::Handshaking {
            input: input(&["ch1"], &["gr1"]),
            cursor: None,
        },
        SubscribeEvent::SubscriptionChanged {
            channels: Some(vec!["ch2".to_string()]),
            channel_groups: Some(vec!["gr2".to_string()]),
        },
        SubscribeState::Handshaking {
            input: input(&["ch2"], &["gr2"]),
            cursor: None,
        },
    );
    // to handshaking with custom cursor on subscription changed
    check_transition(
        SubscribeState::Handshaking {
            input: input(&["ch1"], &["gr1"]),
            cursor: Some(cursor("20")),
        },
        SubscribeEvent::SubscriptionChanged {
            channels: Some(vec!["ch2".to_string()]),
            channel_groups: Some(vec!["gr2".to_string()]),
        },
        SubscribeState::Handshaking {
            input: input(&["ch2"], &["gr2"]),
            cursor: Some(cursor("20")),
        },
    );
    // to handshake reconnect on handshake failure
    check_transition(
        SubscribeState::Handshaking {
            input: input(&["ch1"], &["gr1"]),
            cursor: None,
        },
        SubscribeEvent::HandshakeFailure {
            reason: transport_error("Test reason"),
        },
        SubscribeState::HandshakeReconnecting {
            input: input(&["ch1"], &["gr1"]),
            cursor: None,
            attempts: 1,
            reason: transport_error("Test reason"),
        },
    );
    // to handshake reconnect with custom cursor on handshake failure
    check_transition(
        SubscribeState::Handshaking {
            input: input(&["ch1"], &["gr1"]),
            cursor: Some(cursor("20")),
        },
        SubscribeEvent::HandshakeFailure {
            reason: transport_error("Test reason"),
        },
        SubscribeState::HandshakeReconnecting {
            input: input(&["ch1"], &["gr1"]),
            cursor: Some(cursor("20")),
            attempts: 1,
            reason: transport_error("Test reason"),
        },
    );
    // to handshake stopped on disconnect
    check_transition(
        SubscribeState::Handshaking {
            input: input(&["ch1"], &["gr1"]),
            cursor: None,
        },
        SubscribeEvent::Disconnect,
        SubscribeState::HandshakeStopped {
            input: input(&["ch1"], &["gr1"]),
            cursor: None,
        },
    );
    // to handshake stopped with custom cursor on disconnect
    check_transition(
        SubscribeState::Handshaking {
            input: input(&["ch1"], &["gr1"]),
            cursor: Some(cursor("20")),
        },
        SubscribeEvent::Disconnect,
        SubscribeState::HandshakeStopped {
            input: input(&["ch1"], &["gr1"]),
            cursor: Some(cursor("20")),
        },
    );
    // to receiving on handshake success
    check_transition(
        SubscribeState::Handshaking {
            input: input(&["ch1"], &["gr1"]),
            cursor: None,
        },
        SubscribeEvent::HandshakeSuccess { cursor: cursor("10") },
        SubscribeState::Receiving {
            input: input(&["ch1"], &["gr1"]),
            cursor: cursor("10"),
        },
    );
    // to receiving with custom cursor on handshake success
    check_transition(
        SubscribeState::Handshaking {
            input: input(&["ch1"], &["gr1"]),
            cursor: Some(cursor("20")),
        },
        SubscribeEvent::HandshakeSuccess { cursor: cursor("10") },
        SubscribeState::Receiving {
            input: input(&["ch1"], &["gr1"]),
            cursor: cursor("20"),
        },
    );
    // to handshaking on subscription restored
    check_transition(
        SubscribeState::Handshaking {
            input: input(&["ch1"], &["gr1"]),
            cursor: None,
        },
        SubscribeEvent::SubscriptionRestored {
            channels: Some(vec!["ch2".to_string()]),
            channel_groups: Some(vec!["gr2".to_string()]),
            cursor: cursor("10"),
        },
        SubscribeState::Handshaking {
            input: input(&["ch2"], &["gr2"]),
            cursor: Some(cursor("10")),
        },
    );
    // to handshaking with custom cursor on subscription restored
    check_transition(
        SubscribeState::Handshaking {
            input: input(&["ch1"], &["gr1"]),
            cursor: Some(cursor("20")),
        },
        SubscribeEvent::SubscriptionRestored {
            channels: Some(vec!["ch2".to_string()]),
            channel_groups: Some(vec!["gr2".to_string()]),
            cursor: cursor("10"),
        },
        SubscribeState::Handshaking {
            input: input(&["ch2"], &["gr2"]),
            cursor: Some(cursor("20")),
        },
    );
    // to not change on unexpected event
    check_transition(
        SubscribeState::Handshaking {
            input: input(&["ch1"], &["gr1"]),
            cursor: None,
        },
        SubscribeEvent::HandshakeReconnectGiveUp {
            reason: transport_error("Test reason"),
        },
        SubscribeState::Handshaking {
            input: input(&["ch1"], &["gr1"]),
            cursor: None,
        },
    );
}

#[test]
fn transition_handshake_reconnecting_state() {
    // to handshake reconnecting on reconnect failure
    check_transition(
        SubscribeState::HandshakeReconnecting {
            input: input(&["ch1"], &["gr1"]),
            cursor: None,
            attempts: 1,
            reason: transport_error("Test reason"),
        },
        SubscribeEvent::HandshakeReconnectFailure {
            reason: transport_error("Test reason on error"),
        },
        SubscribeState::HandshakeReconnecting {
            input: input(&["ch1"], &["gr1"]),
            cursor: None,
            attempts: 2,
            reason: transport_error("Test reason on error"),
        },
    );
    // to handshake reconnecting with custom cursor on reconnect failure
    check_transition(
        SubscribeState::HandshakeReconnecting {
            input: input(&["ch1"], &["gr1"]),
            cursor: Some(cursor("20")),
            attempts: 1,
            reason: transport_error("Test reason"),
        },
        SubscribeEvent::HandshakeReconnectFailure {
            reason: transport_error("Test reason on error"),
        },
        SubscribeState::HandshakeReconnecting {
            input: input(&["ch1"], &["gr1"]),
            cursor: Some(cursor("20")),
            attempts: 2,
            reason: transport_error("Test reason on error"),
        },
    );
    // to handshaking on subscription change
    check_transition(
        SubscribeState::HandshakeReconnecting {
            input: input(&["ch1"], &["gr1"]),
            cursor: None,
            attempts: 1,
            reason: transport_error("Test reason"),
        },
        SubscribeEvent::SubscriptionChanged {
            channels: Some(vec!["ch2".to_string()]),
            channel_groups: Some(vec!["gr2".to_string()]),
        },
        SubscribeState::Handshaking {
            input: input(&["ch2"], &["gr2"]),
            cursor: None,
        },
    );
    // to handshaking with custom cursor on subscription change
    check_transition(
        SubscribeState::HandshakeReconnecting {
            input: input(&["ch1"], &["gr1"]),
            cursor: Some(cursor("20")),
            attempts: 1,
            reason: transport_error("Test reason"),
        },
        SubscribeEvent::SubscriptionChanged {
            channels: Some(vec!["ch2".to_string()]),
            channel_groups: Some(vec!["gr2".to_string()]),
        },
        SubscribeState::Handshaking {
            input: input(&["ch2"], &["gr2"]),
            cursor: Some(cursor("20")),
        },
    );
    // to handshake stopped on disconnect
    check_transition(
        SubscribeState::HandshakeReconnecting {
            input: input(&["ch1"], &["gr1"]),
            cursor: None,
            attempts: 1,
            reason: transport_error("Test reason"),
        },
        SubscribeEvent::Disconnect,
        SubscribeState::HandshakeStopped {
            input: input(&["ch1"], &["gr1"]),
            cursor: None,
        },
    );
    // to handshake stopped with custom cursor on disconnect
    check_transition(
        SubscribeState::HandshakeReconnecting {
            input: input(&["ch1"], &["gr1"]),
            cursor: Some(cursor("20")),
            attempts: 1,
            reason: transport_error("Test reason"),
        },
        SubscribeEvent::Disconnect,
        SubscribeState::HandshakeStopped {
            input: input(&["ch1"], &["gr1"]),
            cursor: Some(cursor("20")),
        },
    );
    // to handshake failed on give up
    check_transition(
        SubscribeState::HandshakeReconnecting {
            input: input(&["ch1"], &["gr1"]),
            cursor: None,
            attempts: 1,
            reason: transport_error("Test reason"),
        },
        SubscribeEvent::HandshakeReconnectGiveUp {
            reason: transport_error("Test give up reason"),
        },
        SubscribeState::HandshakeFailed {
            input: input(&["ch1"], &["gr1"]),
            cursor: None,
            reason: transport_error("Test give up reason"),
        },
    );
    // to handshake failed with custom cursor on give up
    check_transition(
        SubscribeState::HandshakeReconnecting {
            input: input(&["ch1"], &["gr1"]),
            cursor: Some(cursor("20")),
            attempts: 1,
            reason: transport_error("Test reason"),
        },
        SubscribeEvent::HandshakeReconnectGiveUp {
            reason: transport_error("Test give up reason"),
        },
        SubscribeState::HandshakeFailed {
            input: input(&["ch1"], &["gr1"]),
            cursor: Some(cursor("20")),
            reason: transport_error("Test give up reason"),
        },
    );
    // to receiving on reconnect success
    check_transition(
        SubscribeState::HandshakeReconnecting {
            input: input(&["ch1"], &["gr1"]),
            cursor: None,
            attempts: 1,
            reason: transport_error("Test reason"),
        },
        SubscribeEvent::HandshakeReconnectSuccess { cursor: cursor("10") },
        SubscribeState::Receiving {
            input: input(&["ch1"], &["gr1"]),
            cursor: cursor("10"),
        },
    );
    // to receiving with custom cursor on reconnect success
    check_transition(
        SubscribeState::HandshakeReconnecting {
            input: input(&["ch1"], &["gr1"]),
            cursor: Some(cursor("20")),
            attempts: 1,
            reason: transport_error("Test reason"),
        },
        SubscribeEvent::HandshakeReconnectSuccess { cursor: cursor("10") },
        SubscribeState::Receiving {
            input: input(&["ch1"], &["gr1"]),
            cursor: cursor("20"),
        },
    );
    // to handshaking on subscription restored
    check_transition(
        SubscribeState::HandshakeReconnecting {
            input: input(&["ch1"], &["gr1"]),
            cursor: None,
            attempts: 1,
            reason: transport_error("Test reason"),
        },
        SubscribeEvent::SubscriptionRestored {
            channels: Some(vec!["ch2".to_string()]),
            channel_groups: Some(vec!["gr2".to_string()]),
            cursor: cursor("10"),
        },
        SubscribeState::Handshaking {
            input: input(&["ch2"], &["gr2"]),
            cursor: Some(cursor("10")),
        },
    );
    // to handshaking with custom cursor on subscription restored
    check_transition(
        SubscribeState::HandshakeReconnecting {
            input: input(&["ch1"], &["gr1"]),
            cursor: Some(cursor("20")),
            attempts: 1,
            reason: transport_error("Test reason"),
        },
        SubscribeEvent::SubscriptionRestored {
            channels: Some(vec!["ch2".to_string()]),
            channel_groups: Some(vec!["gr2".to_string()]),
            cursor: cursor("10"),
        },
        SubscribeState::Handshaking {
            input: input(&["ch2"], &["gr2"]),
            cursor: Some(cursor("20")),
        },
    );
    // to not change on unexpected event
    check_transition(
        SubscribeState::HandshakeReconnecting {
            input: input(&["ch1"], &["gr1"]),
            cursor: None,
            attempts: 1,
            reason: transport_error("Test reason"),
        },
        SubscribeEvent::ReceiveSuccess {
            cursor: cursor("10"),
            messages: vec![],
        },
        SubscribeState::HandshakeReconnecting {
            input: input(&["ch1"], &["gr1"]),
            cursor: None,
            attempts: 1,
            reason: transport_error("Test reason"),
        },
    );
}

#[test]
fn transition_handshake_failed_state() {
    // to handshaking on subscription changed
    check_transition(
        SubscribeState::HandshakeFailed {
            input: input(&["ch1"], &["gr1"]),
            cursor: None,
            reason: transport_error("Test reason"),
        },
        SubscribeEvent::SubscriptionChanged {
            channels: Some(vec!["ch2".to_string()]),
            channel_groups: Some(vec!["gr2".to_string()]),
        },
        SubscribeState::Handshaking {
            input: input(&["ch2"], &["gr2"]),
            cursor: None,
        },
    );
    // to handshaking with custom cursor on subscription changed
    check_transition(
        SubscribeState::HandshakeFailed {
            input: input(&["ch1"], &["gr1"]),
            cursor: Some(cursor("20")),
            reason: transport_error("Test reason"),
        },
        SubscribeEvent::SubscriptionChanged {
            channels: Some(vec!["ch2".to_string()]),
            channel_groups: Some(vec!["gr2".to_string()]),
        },
        SubscribeState::Handshaking {
            input: input(&["ch2"], &["gr2"]),
            cursor: Some(cursor("20")),
        },
    );
    // to handshaking on reconnect
    check_transition(
        SubscribeState::HandshakeFailed {
            input: input(&["ch1"], &["gr1"]),
            cursor: None,
            reason: transport_error("Test reason"),
        },
        SubscribeEvent::Reconnect,
        SubscribeState::Handshaking {
            input: input(&["ch1"], &["gr1"]),
            cursor: None,
        },
    );
    // to handshaking with custom cursor on reconnect
    check_transition(
        SubscribeState::HandshakeFailed {
            input: input(&["ch1"], &["gr1"]),
            cursor: Some(cursor("20")),
            reason: transport_error("Test reason"),
        },
        SubscribeEvent::Reconnect,
        SubscribeState::Handshaking {
            input: input(&["ch1"], &["gr1"]),
            cursor: Some(cursor("20")),
        },
    );
    // to handshaking on subscription restored
    check_transition(
        SubscribeState::HandshakeFailed {
            input: input(&["ch1"], &["gr1"]),
            cursor: None,
            reason: transport_error("Test reason"),
        },
        SubscribeEvent::SubscriptionRestored {
            channels: Some(vec!["ch2".to_string()]),
            channel_groups: Some(vec!["gr2".to_string()]),
            cursor: cursor("10"),
        },
        SubscribeState::Handshaking {
            input: input(&["ch2"], &["gr2"]),
            cursor: Some(cursor("10")),
        },
    );
    // to handshaking with custom cursor on subscription restored
    check_transition(
        SubscribeState::HandshakeFailed {
            input: input(&["ch1"], &["gr1"]),
            cursor: Some(cursor("20")),
            reason: transport_error("Test reason"),
        },
        SubscribeEvent::SubscriptionRestored {
            channels: Some(vec!["ch2".to_string()]),
            channel_groups: Some(vec!["gr2".to_string()]),
            cursor: cursor("10"),
        },
        SubscribeState::Handshaking {
            input: input(&["ch2"], &["gr2"]),
            cursor: Some(cursor("20")),
        },
    );
    // to not change on unexpected event
    check_transition(
        SubscribeState::HandshakeFailed {
            input: input(&["ch1"], &["gr1"]),
            cursor: None,
            reason: transport_error("Test reason"),
        },
        SubscribeEvent::ReceiveSuccess {
            cursor: cursor("10"),
            messages: vec![],
        },
        SubscribeState::HandshakeFailed {
            input: input(&["ch1"], &["gr1"]),
            cursor: None,
            reason: transport_error("Test reason"),
        },
    );
}

#[test]
fn transition_handshake_stopped_state() {
    // to handshaking on reconnect
    check_transition(
        SubscribeState::HandshakeStopped {
            input: input(&["ch1"], &["gr1"]),
            cursor: None,
        },
        SubscribeEvent::Reconnect,
        SubscribeState::Handshaking {
            input: input(&["ch1"], &["gr1"]),
            cursor: None,
        },
    );
    // to handshaking with custom cursor on reconnect
    check_transition(
        SubscribeState::HandshakeStopped {
            input: input(&["ch1"], &["gr1"]),
            cursor: Some(cursor("20")),
        },
        SubscribeEvent::Reconnect,
        SubscribeState::Handshaking {
            input: input(&["ch1"], &["gr1"]),
            cursor: Some(cursor("20")),
        },
    );
    // to handshaking on subscription restored
    check_transition(
        SubscribeState::HandshakeStopped {
            input: input(&["ch1"], &["gr1"]),
            cursor: None,
        },
        SubscribeEvent::SubscriptionRestored {
            channels: Some(vec!["ch2".to_string()]),
            channel_groups: Some(vec!["gr2".to_string()]),
            cursor: cursor("10"),
        },
        SubscribeState::Handshaking {
            input: input(&["ch2"], &["gr2"]),
            cursor: Some(cursor("10")),
        },
    );
    // to handshaking with custom cursor on subscription restored
    check_transition(
        SubscribeState::HandshakeStopped {
            input: input(&["ch1"], &["gr1"]),
            cursor: Some(cursor("20")),
        },
        SubscribeEvent::SubscriptionRestored {
            channels: Some(vec!["ch2".to_string()]),
            channel_groups: Some(vec!["gr2".to_string()]),
            cursor: cursor("10"),
        },
        SubscribeState::Handshaking {
            input: input(&["ch2"], &["gr2"]),
            cursor: Some(cursor("20")),
        },
    );
    // to not change on unexpected event
    check_transition(
        SubscribeState::HandshakeStopped {
            input: input(&["ch1"], &["gr1"]),
            cursor: None,
        },
        SubscribeEvent::ReceiveSuccess {
            cursor: cursor("10"),
            messages: vec![],
        },
        SubscribeState::HandshakeStopped {
            input: input(&["ch1"], &["gr1"]),
            cursor: None,
        },
    );
}

#[test]
fn transition_receiving_state() {
    // to receiving on subscription changed
    check_transition(
        SubscribeState::Receiving {
            input: input(&["ch1"], &["gr1"]),
            cursor: cursor("10"),
        },
        SubscribeEvent::SubscriptionChanged {
            channels: Some(vec!["ch2".to_string()]),
            channel_groups: Some(vec!["gr2".to_string()]),
        },
        SubscribeState::Receiving {
            input: input(&["ch2"], &["gr2"]),
            cursor: cursor("10"),
        },
    );
    // to receiving on subscription restored
    check_transition(
        SubscribeState::Receiving {
            input: input(&["ch1"], &["gr1"]),
            cursor: cursor("10"),
        },
        SubscribeEvent::SubscriptionRestored {
            channels: Some(vec!["ch2".to_string()]),
            channel_groups: Some(vec!["gr2".to_string()]),
            cursor: cursor("100"),
        },
        SubscribeState::Receiving {
            input: input(&["ch2"], &["gr2"]),
            cursor: cursor("100"),
        },
    );
    // to receiving on receive success
    check_transition(
        SubscribeState::Receiving {
            input: input(&["ch1"], &["gr1"]),
            cursor: cursor("10"),
        },
        SubscribeEvent::ReceiveSuccess {
            cursor: cursor("100"),
            messages: vec![],
        },
        SubscribeState::Receiving {
            input: input(&["ch1"], &["gr1"]),
            cursor: cursor("100"),
        },
    );
    // to receive reconnecting on receive failure
    check_transition(
        SubscribeState::Receiving {
            input: input(&["ch1"], &["gr1"]),
            cursor: cursor("10"),
        },
        SubscribeEvent::ReceiveFailure {
            reason: transport_error("Test reason"),
        },
        SubscribeState::ReceiveReconnecting {
            input: input(&["ch1"], &["gr1"]),
            cursor: cursor("10"),
            attempts: 1,
            reason: transport_error("Test reason"),
        },
    );
    // to receive stopped on disconnect
    check_transition(
        SubscribeState::Receiving {
            input: input(&["ch1"], &["gr1"]),
            cursor: cursor("10"),
        },
        SubscribeEvent::Disconnect,
        SubscribeState::ReceiveStopped {
            input: input(&["ch1"], &["gr1"]),
            cursor: cursor("10"),
        },
    );
    // to not change on unexpected event
    check_transition(
        SubscribeState::Receiving {
            input: input(&["ch1"], &["gr1"]),
            cursor: cursor("10"),
        },
        SubscribeEvent::HandshakeSuccess { cursor: cursor("100") },
        SubscribeState::Receiving {
            input: input(&["ch1"], &["gr1"]),
            cursor: cursor("10"),
        },
    );
}

#[test]
fn transition_receiving_reconnecting_state() {
    // to receive reconnecting on reconnect failure
    check_transition(
        SubscribeState::ReceiveReconnecting {
            input: input(&["ch1"], &["gr1"]),
            cursor: cursor("10"),
            attempts: 1,
            reason: transport_error("Test error"),
        },
        SubscribeEvent::ReceiveReconnectFailure {
            reason: transport_error("Test reconnect error"),
        },
        SubscribeState::ReceiveReconnecting {
            input: input(&["ch1"], &["gr1"]),
            cursor: cursor("10"),
            attempts: 2,
            reason: transport_error("Test reconnect error"),
        },
    );
    // to receiving on subscription changed
    check_transition(
        SubscribeState::ReceiveReconnecting {
            input: input(&["ch1"], &["gr1"]),
            cursor: cursor("10"),
            attempts: 1,
            reason: transport_error("Test error"),
        },
        SubscribeEvent::SubscriptionChanged {
            channels: Some(vec!["ch2".to_string()]),
            channel_groups: Some(vec!["gr2".to_string()]),
        },
        SubscribeState::Receiving {
            input: input(&["ch2"], &["gr2"]),
            cursor: cursor("10"),
        },
    );
    // to receiving on subscription restored
    check_transition(
        SubscribeState::ReceiveReconnecting {
            input: input(&["ch1"], &["gr1"]),
            cursor: cursor("10"),
            attempts: 1,
            reason: transport_error("Test error"),
        },
        SubscribeEvent::SubscriptionRestored {
            channels: Some(vec!["ch2".to_string()]),
            channel_groups: Some(vec!["gr2".to_string()]),
            cursor: cursor("100"),
        },
        SubscribeState::Receiving {
            input: input(&["ch2"], &["gr2"]),
            cursor: cursor("100"),
        },
    );
    // to receive stopped on disconnect
    check_transition(
        SubscribeState::ReceiveReconnecting {
            input: input(&["ch1"], &["gr1"]),
            cursor: cursor("10"),
            attempts: 1,
            reason: transport_error("Test error"),
        },
        SubscribeEvent::Disconnect,
        SubscribeState::ReceiveStopped {
            input: input(&["ch1"], &["gr1"]),
            cursor: cursor("10"),
        },
    );
    // to receive failed on give up
    check_transition(
        SubscribeState::ReceiveReconnecting {
            input: input(&["ch1"], &["gr1"]),
            cursor: cursor("10"),
            attempts: 1,
            reason: transport_error("Test error"),
        },
        SubscribeEvent::ReceiveReconnectGiveUp {
            reason: transport_error("Test give up error"),
        },
        SubscribeState::ReceiveFailed {
            input: input(&["ch1"], &["gr1"]),
            cursor: cursor("10"),
            reason: transport_error("Test give up error"),
        },
    );
    // to not change on unexpected event
    check_transition(
        SubscribeState::ReceiveReconnecting {
            input: input(&["ch1"], &["gr1"]),
            cursor: cursor("10"),
            attempts: 1,
            reason: transport_error("Test error"),
        },
        SubscribeEvent::HandshakeSuccess { cursor: cursor("100") },
        SubscribeState::ReceiveReconnecting {
            input: input(&["ch1"], &["gr1"]),
            cursor: cursor("10"),
            attempts: 1,
            reason: transport_error("Test error"),
        },
    );
}

#[test]
fn transition_receive_failed_state() {
    // to handshaking on subscription changed
    check_transition(
        SubscribeState::ReceiveFailed {
            input: input(&["ch1"], &["gr1"]),
            cursor: cursor("10"),
            reason: transport_error("Test error"),
        },
        SubscribeEvent::SubscriptionChanged {
            channels: Some(vec!["ch2".to_string()]),
            channel_groups: Some(vec!["gr2".to_string()]),
        },
        SubscribeState::Handshaking {
            input: input(&["ch2"], &["gr2"]),
            cursor: Some(cursor("10")),
        },
    );
    // to handshaking on subscription restored
    check_transition(
        SubscribeState::ReceiveFailed {
            input: input(&["ch1"], &["gr1"]),
            cursor: cursor("10"),
            reason: transport_error("Test error"),
        },
        SubscribeEvent::SubscriptionRestored {
            channels: Some(vec!["ch2".to_string()]),
            channel_groups: Some(vec!["gr2".to_string()]),
            cursor: cursor("100"),
        },
        SubscribeState::Handshaking {
            input: input(&["ch2"], &["gr2"]),
            cursor: Some(cursor("100")),
        },
    );
    // to handshaking on reconnect
    check_transition(
        SubscribeState::ReceiveFailed {
            input: input(&["ch1"], &["gr1"]),
            cursor: cursor("10"),
            reason: transport_error("Test error"),
        },
        SubscribeEvent::Reconnect,
        SubscribeState::Handshaking {
            input: input(&["ch1"], &["gr1"]),
            cursor: Some(cursor("10")),
        },
    );
    // to not change on unexpected event
    check_transition(
        SubscribeState::ReceiveFailed {
            input: input(&["ch1"], &["gr1"]),
            cursor: cursor("10"),
            reason: transport_error("Test error"),
        },
        SubscribeEvent::HandshakeSuccess { cursor: cursor("100") },
        SubscribeState::ReceiveFailed {
            input: input(&["ch1"], &["gr1"]),
            cursor: cursor("10"),
            reason: transport_error("Test error"),
        },
    );
}

#[test]
fn transition_receive_stopped_state() {
    // to handshaking on reconnect
    check_transition(
        SubscribeState::ReceiveStopped {
            input: input(&["ch1"], &["gr1"]),
            cursor: cursor("10"),
        },
        SubscribeEvent::Reconnect,
        SubscribeState::Handshaking {
            input: input(&["ch1"], &["gr1"]),
            cursor: Some(cursor("10")),
        },
    );
    // to receive stopped on subscription changed
    check_transition(
        SubscribeState::ReceiveStopped {
            input: input(&["ch1"], &["gr1"]),
            cursor: cursor("10"),
        },
        SubscribeEvent::SubscriptionChanged {
            channels: Some(vec!["ch2".to_string()]),
            channel_groups: Some(vec!["gr2".to_string()]),
        },
        SubscribeState::ReceiveStopped {
            input: input(&["ch2"], &["gr2"]),
            cursor: cursor("10"),
        },
    );
    // to receive stopped on subscription restored
    check_transition(
        SubscribeState::ReceiveStopped {
            input: input(&["ch1"], &["gr1"]),
            cursor: cursor("10"),
        },
        SubscribeEvent::SubscriptionRestored {
            channels: Some(vec!["ch2".to_string()]),
            channel_groups: Some(vec!["gr2".to_string()]),
            cursor: cursor("100"),
        },
        SubscribeState::ReceiveStopped {
            input: input(&["ch2"], &["gr2"]),
            cursor: cursor("100"),
        },
    );
    // to not change on unexpected event
    check_transition(
        SubscribeState::ReceiveStopped {
            input: input(&["ch1"], &["gr1"]),
            cursor: cursor("10"),
        },
        SubscribeEvent::HandshakeSuccess { cursor: cursor("100") },
        SubscribeState::ReceiveStopped {
            input: input(&["ch1"], &["gr1"]),
            cursor: cursor("10"),
        },
    );
}
