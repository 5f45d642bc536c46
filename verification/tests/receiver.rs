use tonsoe::error::CodecError;
use tonsoe::gateway::{
    receive, receive_envelope, Gateway, GatewayCommand, GatewayConnectionIdentifier,
    GatewayEvent, Inbound, ReceiverAction, ReceiverState,
};
use tonsoe::gateway_structs::{Payload, RawData};

fn value(text: &str) -> serde_json::Value {
    serde_json::from_str::<serde_json::Value>(text).unwrap()
}

fn frame(text: &str) -> Inbound {
    Inbound::Frame(String::from(text))
}

fn event(opcode: u32, data: &str, sequence_number: Option<u32>, name: Option<&str>) -> GatewayEvent {
    GatewayEvent::Opaque(Payload {
        opcode,
        data: RawData { value: value(data) },
        sequence_number,
        event_name: name.map(String::from),
    })
}

fn gateway() -> Gateway {
    Gateway::open(GatewayConnectionIdentifier::new(0, 1, 40000)).0
}

#[test]
fn receiver_starts_alive_at_sequence_zero() {
    assert_eq!(ReceiverState::new(), ReceiverState { sequence: 0, alive: true });
}

#[test]
fn envelope_with_sequence_number_sets_it() {
    let (state, action) = receive(
        ReceiverState::new(),
        frame("{\"op\":0,\"d\":{\"v\":10},\"s\":1,\"t\":\"READY\"}"),
    );
    assert_eq!(state, ReceiverState { sequence: 1, alive: true });
    assert_eq!(action, ReceiverAction::Publish(event(0, "{\"v\":10}", Some(1), Some("READY"))));
}

#[test]
fn envelope_without_sequence_number_keeps_it() {
    let before = ReceiverState { sequence: 41, alive: true };
    let (state, action) = receive(before, frame("{\"op\":11,\"d\":null,\"s\":null,\"t\":null}"));
    assert_eq!(state, before);
    assert_eq!(action, ReceiverAction::Publish(event(11, "null", None, None)));
    let (state, action) = receive(before, frame("{\"op\":11,\"d\":null}"));
    assert_eq!(state, before);
    assert_eq!(action, ReceiverAction::Publish(event(11, "null", None, None)));
}

#[test]
fn unreadable_frame_is_reported_and_survived() {
    let before = ReceiverState { sequence: 5, alive: true };
    let (state, action) = receive(before, frame("{\"op\":"));
    assert_eq!(state, before);
    assert_eq!(action, ReceiverAction::Report(CodecError::Malformed));
    let (state, action) = receive(state, frame("{\"no\":\"envelope\"}"));
    assert_eq!(state, before);
    assert_eq!(action, ReceiverAction::Report(CodecError::Unexpected));
    let (state, action) = receive(
        state,
        frame("{\"op\":0,\"d\":{\"x\":1.5},\"s\":42,\"t\":\"MESSAGE_CREATE\"}"),
    );
    assert_eq!(state, ReceiverState { sequence: 42, alive: true });
    assert_eq!(
        action,
        ReceiverAction::Publish(event(0, "{\"x\":1.5}", Some(42), Some("MESSAGE_CREATE")))
    );
}

#[test]
fn end_of_the_connection_ends_the_loop() {
    let before = ReceiverState { sequence: 5, alive: true };
    for inbound in [Inbound::Closed, Inbound::Failed] {
        let (state, action) = receive(before, inbound);
        assert_eq!(state, ReceiverState { sequence: 5, alive: false });
        assert_eq!(action, ReceiverAction::Shutdown);
    }
}

#[test]
fn nothing_revives_a_loop_that_has_ended() {
    let dead = ReceiverState { sequence: 5, alive: false };
    for inbound in [
        frame("{\"op\":0,\"d\":{},\"s\":9,\"t\":\"READY\"}"),
        frame("{"),
        Inbound::Closed,
        Inbound::Failed,
    ] {
        let (state, action) = receive(dead, inbound);
        assert_eq!(state, dead);
        assert_eq!(action, ReceiverAction::Shutdown);
    }
}

#[test]
fn step_on_an_envelope_that_was_read() {
    let payload = Payload {
        opcode: 0,
        data: RawData { value: value("[]") },
        sequence_number: Some(u32::MAX),
        event_name: None,
    };
    let (state, action) = receive_envelope(ReceiverState::new(), Ok(payload.clone()));
    assert_eq!(state, ReceiverState { sequence: u32::MAX, alive: true });
    assert_eq!(action, ReceiverAction::Publish(GatewayEvent::Opaque(payload)));
}

#[test]
fn step_on_a_frame_that_was_not_read() {
    let before = ReceiverState { sequence: 3, alive: true };
    for error in [CodecError::Malformed, CodecError::Unexpected, CodecError::Unserializable] {
        let (state, action) = receive_envelope(before, Err(error));
        assert_eq!(state, before);
        assert_eq!(action, ReceiverAction::Report(error));
    }
}

#[test]
fn gateway_heartbeat_carries_the_last_sequence_number() {
    let gateway = gateway();
    assert_eq!(gateway.heartbeat(), GatewayCommand::heartbeat(0));
    gateway.connection_id.record_sequence(9);
    assert_eq!(gateway.heartbeat(), GatewayCommand::heartbeat(9));
}

#[test]
fn gateway_records_the_sequence_number_it_receives() {
    let gateway = gateway();
    let (state, action) = gateway.recieve_gateway_events(
        ReceiverState::new(),
        frame("{\"op\":0,\"d\":{},\"s\":7,\"t\":\"READY\"}"),
    );
    assert_eq!(state, ReceiverState { sequence: 7, alive: true });
    assert_eq!(action, ReceiverAction::Publish(event(0, "{}", Some(7), Some("READY"))));
    assert_eq!(gateway.connection_id.last_sequence(), 7);
    let (state, action) = gateway.recieve_gateway_events(state, frame("garbage"));
    assert_eq!(state, ReceiverState { sequence: 7, alive: true });
    assert_eq!(action, ReceiverAction::Report(CodecError::Malformed));
    assert_eq!(gateway.connection_id.last_sequence(), 7);
    let (state, action) = gateway.recieve_gateway_events(state, frame("{\"op\":11,\"d\":null}"));
    assert_eq!(action, ReceiverAction::Publish(event(11, "null", None, None)));
    assert_eq!(gateway.connection_id.last_sequence(), 7);
    assert_eq!(gateway.heartbeat(), GatewayCommand::heartbeat(7));
    let (state, action) = gateway.recieve_gateway_events(
        state,
        frame("{\"op\":0,\"d\":{},\"s\":8,\"t\":\"GUILD_CREATE\"}"),
    );
    assert_eq!(action, ReceiverAction::Publish(event(0, "{}", Some(8), Some("GUILD_CREATE"))));
    assert_eq!(gateway.heartbeat(), GatewayCommand::heartbeat(8));
    let (state, action) = gateway.recieve_gateway_events(state, Inbound::Closed);
    assert_eq!(state, ReceiverState { sequence: 8, alive: false });
    assert_eq!(action, ReceiverAction::Shutdown);
    assert_eq!(gateway.connection_id.last_sequence(), 8);
}
