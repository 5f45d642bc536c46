use std::sync::Arc;
use tonsoe::error::{CodecError, GatewayError, HandshakeError};
use tonsoe::gateway::{GatewayCommand, Inbound};
use tonsoe::gateway_structs::{Hello, Identify, IdentifyConnectionProperties, Payload};
use tonsoe::websocket::{Handshake, HandshakeAction, HandshakeEvent, HandshakeState};

fn identify(shard_id: u32, shard_total: u32) -> Payload<Identify> {
    Payload::new(
        2,
        Identify {
            token: Arc::new(String::from("Token")),
            connection_properties: IdentifyConnectionProperties {
                operating_system: String::from("linux"),
                browser: String::from("tonsoe"),
                device: String::from("tonsoe"),
            },
            shard: [shard_id, shard_total],
            intents: 513,
        },
    )
}

fn frame(text: &str) -> HandshakeEvent {
    HandshakeEvent::Received(Inbound::Frame(String::from(text)))
}

fn awaiting_hello() -> Handshake {
    let (handshake, action) = Handshake::new(identify(1, 3)).unwrap().step(HandshakeEvent::Connected);
    assert!(matches!(action, HandshakeAction::ReadFrame));
    assert_eq!(handshake.state(), HandshakeState::AwaitHello);
    handshake
}

fn identifying() -> Handshake {
    let (handshake, _) = awaiting_hello().step(frame(
        "{\"t\":null,\"s\":null,\"op\":10,\"d\":{\"heartbeat_interval\":40000}}",
    ));
    assert_eq!(handshake.state(), HandshakeState::Identifying);
    handshake
}

fn assert_aborted(outcome: (Handshake, HandshakeAction), error: GatewayError) {
    assert_eq!(outcome.0.state(), HandshakeState::Failed(error));
    match outcome.1 {
        HandshakeAction::Abort(reported) => assert_eq!(reported, error),
        _ => panic!("the handshake went on"),
    }
}

#[test]
fn handshake_starts_by_connecting() {
    let handshake = Handshake::new(identify(0, 1)).unwrap();
    assert_eq!(handshake.state(), HandshakeState::Connecting);
}

#[test]
fn envelope_that_names_no_shard_starts_no_handshake() {
    assert!(Handshake::new(identify(1, 1)).is_none());
    assert!(Handshake::new(identify(0, 0)).is_none());
    assert!(Handshake::new(identify(5, 3)).is_none());
    assert!(Handshake::new(identify(u32::MAX - 1, u32::MAX)).is_some());
}

#[test]
fn hello_gives_the_identity_and_identify_goes_first() {
    let (handshake, action) = awaiting_hello().step(frame(
        "{\"op\":10,\"d\":{\"heartbeat_interval\":40000},\"s\":null,\"t\":null}",
    ));
    assert_eq!(handshake.state(), HandshakeState::Identifying);
    match action {
        HandshakeAction::Enqueue { command, .. } => {
            assert_eq!(command, GatewayCommand::Identify(identify(1, 3)))
        },
        _ => panic!("the Identify command was not the first"),
    }
    let (handshake, action) = handshake.step(HandshakeEvent::Queued);
    assert_eq!(handshake.state(), HandshakeState::Active);
    match action {
        HandshakeAction::Activate { gateway, .. } => {
            assert_eq!(gateway.connection_id.heartbeat_interval, 40000);
            assert_eq!(gateway.connection_id.shard_id, 1);
            assert_eq!(gateway.connection_id.shard_total, 3);
            assert_eq!(gateway.connection_id.last_sequence(), 0);
        },
        _ => panic!("the shard was not started"),
    }
}

#[test]
fn identify_is_the_first_command_on_the_queue() {
    let (handshake, action) = awaiting_hello().step(frame(
        "{\"op\":10,\"d\":{\"heartbeat_interval\":40000},\"s\":null,\"t\":null}",
    ));
    let event = match action {
        HandshakeAction::Enqueue { command, queue } => match queue.try_send(command) {
            Ok(()) => HandshakeEvent::Queued,
            Err(_) => HandshakeEvent::QueueClosed,
        },
        _ => panic!("nothing to enqueue"),
    };
    let (_, action) = handshake.step(event);
    match action {
        HandshakeAction::Activate { gateway, mut commands } => {
            gateway.gateway_sink_sender.try_send(gateway.heartbeat()).unwrap();
            assert_eq!(commands.try_recv().ok(), Some(GatewayCommand::Identify(identify(1, 3))));
            assert_eq!(commands.try_recv().ok(), Some(GatewayCommand::heartbeat(0)));
            assert!(commands.try_recv().is_err());
        },
        _ => panic!("the shard was not started"),
    }
}

#[test]
fn step_on_a_hello_that_was_read() {
    let hello = Payload::new(10, Hello { heartbeat_interval: 41250 });
    let (handshake, action) = awaiting_hello().on_hello(Ok(hello));
    assert_eq!(handshake.state(), HandshakeState::Identifying);
    assert!(matches!(
        action,
        HandshakeAction::Enqueue { command: GatewayCommand::Identify(_), .. }
    ));
    let (_, action) = handshake.step(HandshakeEvent::Queued);
    match action {
        HandshakeAction::Activate { gateway, .. } => {
            assert_eq!(gateway.connection_id.heartbeat_interval, 41250)
        },
        _ => panic!("the shard was not started"),
    }
}

#[test]
fn step_on_a_first_frame_that_was_not_read() {
    for error in [CodecError::Malformed, CodecError::Unexpected] {
        assert_aborted(
            awaiting_hello().on_hello(Err(error)),
            GatewayError::Handshake(HandshakeError::NotHello(error)),
        );
    }
}

#[test]
fn hello_out_of_turn_fails_the_handshake() {
    let hello = Payload::new(10, Hello { heartbeat_interval: 41250 });
    assert_aborted(
        Handshake::new(identify(0, 1)).unwrap().on_hello(Ok(hello.clone())),
        GatewayError::Handshake(HandshakeError::OutOfOrder),
    );
    assert_aborted(
        identifying().on_hello(Ok(hello)),
        GatewayError::Handshake(HandshakeError::OutOfOrder),
    );
}

#[test]
fn connection_that_cannot_be_opened_fails_the_handshake() {
    assert_aborted(
        Handshake::new(identify(0, 1)).unwrap().step(HandshakeEvent::ConnectFailed),
        GatewayError::Connect,
    );
}

#[test]
fn first_frame_that_is_no_hello_fails_the_handshake() {
    assert_aborted(
        awaiting_hello().step(frame("{\"op\":9,\"d\":false,\"s\":null,\"t\":null}")),
        GatewayError::Handshake(HandshakeError::NotHello(CodecError::Unexpected)),
    );
    assert_aborted(
        awaiting_hello().step(frame("{\"op\":10,\"d\":{\"heartbeat_interval\":")),
        GatewayError::Handshake(HandshakeError::NotHello(CodecError::Malformed)),
    );
}

#[test]
fn connection_that_ends_before_a_frame_fails_the_handshake() {
    for inbound in [Inbound::Closed, Inbound::Failed] {
        assert_aborted(
            awaiting_hello().step(HandshakeEvent::Received(inbound)),
            GatewayError::Handshake(HandshakeError::Closed),
        );
    }
}

#[test]
fn closed_queue_fails_the_handshake() {
    assert_aborted(identifying().step(HandshakeEvent::QueueClosed), GatewayError::ChannelClosed);
}

#[test]
fn event_out_of_turn_fails_the_handshake() {
    let out_of_order = GatewayError::Handshake(HandshakeError::OutOfOrder);
    assert_aborted(Handshake::new(identify(0, 1)).unwrap().step(HandshakeEvent::Queued), out_of_order);
    assert_aborted(
        Handshake::new(identify(0, 1)).unwrap().step(frame("{\"op\":10,\"d\":{\"heartbeat_interval\":1}}")),
        out_of_order,
    );
    assert_aborted(awaiting_hello().step(HandshakeEvent::Connected), out_of_order);
    assert_aborted(awaiting_hello().step(HandshakeEvent::QueueClosed), out_of_order);
    assert_aborted(identifying().step(HandshakeEvent::ConnectFailed), out_of_order);
    let (active, _) = identifying().step(HandshakeEvent::Queued);
    assert_aborted(active.step(HandshakeEvent::Queued), out_of_order);
}

#[test]
fn failed_handshake_stays_failed() {
    let (failed, _) = awaiting_hello().step(HandshakeEvent::Received(Inbound::Closed));
    let error = GatewayError::Handshake(HandshakeError::Closed);
    let (failed, action) = failed.step(HandshakeEvent::Connected);
    assert!(matches!(action, HandshakeAction::Abort(reported) if reported == error));
    let (failed, action) = failed.step(frame("{\"op\":10,\"d\":{\"heartbeat_interval\":1}}"));
    assert!(matches!(action, HandshakeAction::Abort(reported) if reported == error));
    let hello = Payload::new(10, Hello { heartbeat_interval: 1 });
    assert_aborted(failed.on_hello(Ok(hello)), error);
}

#[test]
fn first_frame_with_another_opcode_is_no_hello() {
    let not_hello = GatewayError::Handshake(HandshakeError::NotHello(CodecError::Unexpected));
    assert_aborted(
        awaiting_hello().step(frame("{\"op\":0,\"d\":{\"heartbeat_interval\":1},\"s\":1,\"t\":\"X\"}")),
        not_hello,
    );
    assert_aborted(
        awaiting_hello().step(frame("{\"op\":11,\"d\":{\"heartbeat_interval\":40000}}")),
        not_hello,
    );
    for opcode in [0u32, 1, 2, 9, 11, u32::MAX] {
        let envelope = Payload::new(opcode, Hello { heartbeat_interval: 40000 });
        assert_aborted(awaiting_hello().on_hello(Ok(envelope)), not_hello);
    }
}

#[test]
fn shard_with_a_first_frame_of_another_opcode_is_not_started() {
    let (handshake, action) = awaiting_hello().step(frame(
        "{\"op\":0,\"d\":{\"heartbeat_interval\":1},\"s\":1,\"t\":\"X\"}",
    ));
    assert!(matches!(action, HandshakeAction::Abort(_)));
    let (handshake, action) = handshake.step(HandshakeEvent::Queued);
    assert!(matches!(action, HandshakeAction::Abort(_)));
    assert!(matches!(handshake.state(), HandshakeState::Failed(_)));
}
