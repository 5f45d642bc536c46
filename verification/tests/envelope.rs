use std::sync::Arc;
use tonsoe::error::CodecError;
use tonsoe::gateway::GatewayCommand;
use tonsoe::gateway_structs::{
    message_of, GatewayData, GetGatewayBotResponse, Hello, Identify,
    IdentifyConnectionProperties, Payload, RawData, SessionStartLimit,
};

fn value(text: &str) -> serde_json::Value {
    serde_json::from_str::<serde_json::Value>(text).unwrap()
}

fn identify(token: &str, shard_id: u32, shard_total: u32) -> Identify {
    Identify {
        token: Arc::new(String::from(token)),
        connection_properties: IdentifyConnectionProperties {
            operating_system: String::from("linux"),
            browser: String::from("tonsoe"),
            device: String::from("tonsoe"),
        },
        shard: [shard_id, shard_total],
        intents: 4609,
    }
}

#[test]
fn new_payload_has_no_sequence_and_no_name() {
    let payload = Payload::new(7, 99u32);
    assert_eq!(payload.opcode, 7);
    assert_eq!(payload.data, 99);
    assert_eq!(payload.sequence_number, None);
    assert_eq!(payload.event_name, None);
}

#[test]
fn hello_is_written_as_the_gateway_writes_it() {
    let payload = Payload::new(10, Hello { heartbeat_interval: 40000 });
    assert_eq!(
        payload.serialize_to_message(),
        Ok(String::from("{\"op\":10,\"d\":{\"heartbeat_interval\":40000},\"s\":null,\"t\":null}"))
    );
}

#[test]
fn hello_round_trips_through_text() {
    let payload = Payload::new(10, Hello { heartbeat_interval: 41250 });
    let text = payload.serialize_to_message().unwrap();
    assert_eq!(Payload::<Hello>::deserialize(&text), Ok(payload));
}

#[test]
fn hello_round_trips_at_the_limits_of_the_interval() {
    for interval in [0u32, 1, u32::MAX] {
        let payload = Payload::new(10, Hello { heartbeat_interval: interval });
        let text = payload.serialize_to_message().unwrap();
        assert_eq!(Payload::<Hello>::deserialize(&text), Ok(payload));
    }
}

#[test]
fn heartbeat_is_written_with_its_sequence_number() {
    assert_eq!(
        GatewayCommand::heartbeat(5).serialize_to_message(),
        Ok(String::from("{\"op\":1,\"d\":5,\"s\":null,\"t\":null}"))
    );
}

#[test]
fn heartbeat_without_sequence_number_is_written_as_null() {
    let payload: Payload<Option<u32>> = Payload::new(1, None);
    assert_eq!(
        payload.serialize_to_message(),
        Ok(String::from("{\"op\":1,\"d\":null,\"s\":null,\"t\":null}"))
    );
}

#[test]
fn heartbeat_round_trips_through_text() {
    for data in [None, Some(0u32), Some(17), Some(u32::MAX)] {
        let payload: Payload<Option<u32>> = Payload::new(1, data);
        let text = payload.serialize_to_message().unwrap();
        assert_eq!(Payload::<Option<u32>>::deserialize(&text), Ok(payload));
    }
}

#[test]
fn identify_is_written_with_all_its_members() {
    let payload = Payload::new(2, identify("Token", 1, 3));
    assert_eq!(
        payload.serialize_to_message(),
        Ok(String::from(
            "{\"op\":2,\"d\":{\"token\":\"Token\",\"properties\":{\"os\":\"linux\",\"browser\":\"tonsoe\",\"device\":\"tonsoe\"},\"shard\":[1,3],\"intents\":4609},\"s\":null,\"t\":null}"
        ))
    );
}

#[test]
fn identify_round_trips_through_text() {
    let payload = Payload::new(2, identify("Token", 0, 1));
    let text = payload.serialize_to_message().unwrap();
    assert_eq!(Payload::<Identify>::deserialize(&text), Ok(payload));
}

#[test]
fn identify_round_trips_with_a_token_that_needs_escapes() {
    let payload = Payload::new(2, identify("a\"b\\c\n\u{1}\u{e9}\u{1f600}", 4, 9));
    let text = payload.serialize_to_message().unwrap();
    assert_eq!(Payload::<Identify>::deserialize(&text), Ok(payload));
}

#[test]
fn sequence_number_and_event_name_round_trip() {
    let payload = Payload {
        opcode: 0,
        data: Hello { heartbeat_interval: 1 },
        sequence_number: Some(42),
        event_name: Some(String::from("READY")),
    };
    let text = payload.serialize_to_message().unwrap();
    assert_eq!(
        text,
        "{\"op\":0,\"d\":{\"heartbeat_interval\":1},\"s\":42,\"t\":\"READY\"}"
    );
    assert_eq!(Payload::<Hello>::deserialize(&text), Ok(payload));
}

#[test]
fn raw_data_round_trips_through_text() {
    let payload = Payload {
        opcode: 0,
        data: RawData { value: value("{\"content\":\"hi\",\"ids\":[1,-2,3.5],\"ok\":true}") },
        sequence_number: Some(3),
        event_name: Some(String::from("MESSAGE_CREATE")),
    };
    let text = payload.serialize_to_message().unwrap();
    assert_eq!(Payload::<RawData>::deserialize(&text), Ok(payload));
}

#[test]
fn value_round_trip_gives_the_envelope_back() {
    let hello = Payload::new(10, Hello { heartbeat_interval: 40000 });
    assert_eq!(Payload::<Hello>::from_value(&hello.to_value()), Some(hello));
    let heartbeat: Payload<Option<u32>> = Payload::new(1, Some(8));
    assert_eq!(Payload::<Option<u32>>::from_value(&heartbeat.to_value()), Some(heartbeat));
    let identify = Payload::new(2, identify("Token", 2, 5));
    assert_eq!(Payload::<Identify>::from_value(&identify.to_value()), Some(identify));
}

#[test]
fn envelope_value_has_the_four_members() {
    let payload = Payload::new(10, Hello { heartbeat_interval: 40000 });
    assert_eq!(
        payload.to_value(),
        value("{\"op\":10,\"d\":{\"heartbeat_interval\":40000},\"s\":null,\"t\":null}")
    );
}

#[test]
fn data_values_have_their_shapes() {
    assert_eq!(Hello { heartbeat_interval: 5 }.to_value(), value("{\"heartbeat_interval\":5}"));
    assert_eq!(Some(5u32).to_value(), value("5"));
    assert_eq!(None::<u32>.to_value(), value("null"));
    assert_eq!(
        identify("T", 1, 2).to_value(),
        value("{\"token\":\"T\",\"properties\":{\"os\":\"linux\",\"browser\":\"tonsoe\",\"device\":\"tonsoe\"},\"shard\":[1,2],\"intents\":4609}")
    );
    let raw = RawData { value: value("[1,2]") };
    assert_eq!(raw.to_value(), value("[1,2]"));
    assert_eq!(RawData::from_value(&value("[1,2]")), Some(raw));
}

#[test]
fn missing_sequence_number_and_event_name_are_none() {
    assert_eq!(
        Payload::<Hello>::deserialize("{\"op\":10,\"d\":{\"heartbeat_interval\":40000}}"),
        Ok(Payload::new(10, Hello { heartbeat_interval: 40000 }))
    );
}

#[test]
fn members_that_are_not_asked_for_are_passed_over() {
    assert_eq!(
        Payload::<Hello>::deserialize(
            "{\"t\":null,\"s\":null,\"op\":10,\"d\":{\"heartbeat_interval\":41250,\"_trace\":[\"x\"]},\"extra\":1}"
        ),
        Ok(Payload::new(10, Hello { heartbeat_interval: 41250 }))
    );
}

#[test]
fn text_that_is_not_json_is_malformed() {
    assert_eq!(Payload::<Hello>::deserialize("{"), Err(CodecError::Malformed));
    assert_eq!(Payload::<Hello>::deserialize(""), Err(CodecError::Malformed));
    assert_eq!(Payload::<Hello>::deserialize("not json"), Err(CodecError::Malformed));
    assert_eq!(
        Payload::<Hello>::deserialize("{\"op\":10,\"d\":{\"heartbeat_interval\":1}} x"),
        Err(CodecError::Malformed)
    );
}

#[test]
fn json_that_is_no_envelope_is_unexpected() {
    let texts = [
        "[]",
        "null",
        "{}",
        "{\"d\":{\"heartbeat_interval\":1}}",
        "{\"op\":10}",
        "{\"op\":\"10\",\"d\":{\"heartbeat_interval\":1}}",
        "{\"op\":-1,\"d\":{\"heartbeat_interval\":1}}",
        "{\"op\":1.5,\"d\":{\"heartbeat_interval\":1}}",
        "{\"op\":4294967296,\"d\":{\"heartbeat_interval\":1}}",
        "{\"op\":10,\"d\":{}}",
        "{\"op\":10,\"d\":{\"heartbeat_interval\":\"1\"}}",
        "{\"op\":10,\"d\":{\"heartbeat_interval\":4294967296}}",
        "{\"op\":10,\"d\":null}",
        "{\"op\":10,\"d\":{\"heartbeat_interval\":1},\"s\":\"7\"}",
        "{\"op\":10,\"d\":{\"heartbeat_interval\":1},\"s\":4294967296}",
        "{\"op\":10,\"d\":{\"heartbeat_interval\":1},\"t\":7}",
    ];
    for text in texts {
        assert_eq!(Payload::<Hello>::deserialize(text), Err(CodecError::Unexpected), "{}", text);
    }
}

#[test]
fn opcode_at_the_limit_is_read() {
    assert_eq!(
        Payload::<Option<u32>>::deserialize("{\"op\":4294967295,\"d\":4294967295,\"s\":4294967295}"),
        Ok(Payload {
            opcode: u32::MAX,
            data: Some(u32::MAX),
            sequence_number: Some(u32::MAX),
            event_name: None,
        })
    );
}

#[test]
fn heartbeat_data_is_a_number_or_null() {
    assert_eq!(Option::<u32>::from_value(&value("null")), Some(None));
    assert_eq!(Option::<u32>::from_value(&value("3")), Some(Some(3)));
    assert_eq!(Option::<u32>::from_value(&value("\"3\"")), None);
    assert_eq!(Option::<u32>::from_value(&value("-3")), None);
    assert_eq!(Option::<u32>::from_value(&value("4294967296")), None);
}

#[test]
fn identify_needs_each_of_its_members() {
    let whole = "{\"token\":\"T\",\"properties\":{\"os\":\"a\",\"browser\":\"b\",\"device\":\"c\"},\"shard\":[1,2],\"intents\":3}";
    assert_eq!(
        Identify::from_value(&value(whole)),
        Some(Identify {
            token: Arc::new(String::from("T")),
            connection_properties: IdentifyConnectionProperties {
                operating_system: String::from("a"),
                browser: String::from("b"),
                device: String::from("c"),
            },
            shard: [1, 2],
            intents: 3,
        })
    );
    let broken = [
        "{\"properties\":{\"os\":\"a\",\"browser\":\"b\",\"device\":\"c\"},\"shard\":[1,2],\"intents\":3}",
        "{\"token\":\"T\",\"shard\":[1,2],\"intents\":3}",
        "{\"token\":\"T\",\"properties\":{\"os\":\"a\",\"browser\":\"b\",\"device\":\"c\"},\"intents\":3}",
        "{\"token\":\"T\",\"properties\":{\"os\":\"a\",\"browser\":\"b\",\"device\":\"c\"},\"shard\":[1,2]}",
        "{\"token\":7,\"properties\":{\"os\":\"a\",\"browser\":\"b\",\"device\":\"c\"},\"shard\":[1,2],\"intents\":3}",
        "{\"token\":\"T\",\"properties\":{\"os\":\"a\",\"browser\":\"b\"},\"shard\":[1,2],\"intents\":3}",
        "{\"token\":\"T\",\"properties\":{\"os\":1,\"browser\":\"b\",\"device\":\"c\"},\"shard\":[1,2],\"intents\":3}",
        "{\"token\":\"T\",\"properties\":{\"os\":\"a\",\"browser\":\"b\",\"device\":\"c\"},\"shard\":[1],\"intents\":3}",
        "{\"token\":\"T\",\"properties\":{\"os\":\"a\",\"browser\":\"b\",\"device\":\"c\"},\"shard\":[1,2,3],\"intents\":3}",
        "{\"token\":\"T\",\"properties\":{\"os\":\"a\",\"browser\":\"b\",\"device\":\"c\"},\"shard\":[1,\"2\"],\"intents\":3}",
        "{\"token\":\"T\",\"properties\":{\"os\":\"a\",\"browser\":\"b\",\"device\":\"c\"},\"shard\":{\"0\":1},\"intents\":3}",
        "{\"token\":\"T\",\"properties\":{\"os\":\"a\",\"browser\":\"b\",\"device\":\"c\"},\"shard\":[1,2],\"intents\":null}",
    ];
    for text in broken {
        assert_eq!(Identify::from_value(&value(text)), None, "{}", text);
    }
}

#[test]
fn rendering_outcome_becomes_the_message() {
    assert_eq!(message_of(Ok(String::from("{}"))), Ok(String::from("{}")));
    let error = serde_json::from_str::<serde_json::Value>("{").unwrap_err();
    assert_eq!(message_of(Err(error)), Err(CodecError::Unserializable));
}

#[test]
fn gateway_answer_is_read() {
    let text = "{\"url\":\"wss://gateway.discord.gg/\",\"shards\":9,\"session_start_limit\":{\"total\":1000,\"remaining\":999,\"reset_after\":14400000,\"max_concurrency\":1}}";
    assert_eq!(
        GetGatewayBotResponse::deserialize(text),
        Ok(GetGatewayBotResponse {
            url: String::from("wss://gateway.discord.gg/"),
            shards: 9,
            session_start_limit: SessionStartLimit {
                total_sessions: 1000,
                remaining_sessions: 999,
                reset_after: 14400000,
                max_concurrency: 1,
            },
        })
    );
}

#[test]
fn gateway_answer_needs_each_of_its_members() {
    assert_eq!(GetGatewayBotResponse::deserialize("{\"url\""), Err(CodecError::Malformed));
    let broken = [
        "{\"shards\":9,\"session_start_limit\":{\"total\":1,\"remaining\":1,\"reset_after\":1,\"max_concurrency\":1}}",
        "{\"url\":\"u\",\"session_start_limit\":{\"total\":1,\"remaining\":1,\"reset_after\":1,\"max_concurrency\":1}}",
        "{\"url\":\"u\",\"shards\":9}",
        "{\"url\":1,\"shards\":9,\"session_start_limit\":{\"total\":1,\"remaining\":1,\"reset_after\":1,\"max_concurrency\":1}}",
        "{\"url\":\"u\",\"shards\":\"9\",\"session_start_limit\":{\"total\":1,\"remaining\":1,\"reset_after\":1,\"max_concurrency\":1}}",
        "{\"url\":\"u\",\"shards\":9,\"session_start_limit\":{\"remaining\":1,\"reset_after\":1,\"max_concurrency\":1}}",
        "{\"url\":\"u\",\"shards\":9,\"session_start_limit\":{\"total\":1,\"reset_after\":1,\"max_concurrency\":1}}",
        "{\"url\":\"u\",\"shards\":9,\"session_start_limit\":{\"total\":1,\"remaining\":1,\"max_concurrency\":1}}",
        "{\"url\":\"u\",\"shards\":9,\"session_start_limit\":{\"total\":1,\"remaining\":1,\"reset_after\":1}}",
        "{\"url\":\"u\",\"shards\":9,\"session_start_limit\":{\"total\":1,\"remaining\":1,\"reset_after\":1,\"max_concurrency\":-1}}",
        "{\"url\":\"u\",\"shards\":9,\"session_start_limit\":[1,1,1,1]}",
    ];
    for text in broken {
        assert_eq!(
            GetGatewayBotResponse::deserialize(text),
            Err(CodecError::Unexpected),
            "{}",
            text
        );
    }
}

#[test]
fn session_start_limit_is_read_from_a_value() {
    assert_eq!(
        SessionStartLimit::from_value(&value(
            "{\"total\":4,\"remaining\":3,\"reset_after\":2,\"max_concurrency\":16,\"more\":0}"
        )),
        Some(SessionStartLimit {
            total_sessions: 4,
            remaining_sessions: 3,
            reset_after: 2,
            max_concurrency: 16,
        })
    );
    assert_eq!(SessionStartLimit::from_value(&value("7")), None);
}

#[test]
fn equal_envelopes_are_written_as_the_same_text() {
    let first = Payload::new(2, identify("Token", 1, 3));
    let second = Payload::new(2, identify("Token", 1, 3));
    assert_eq!(first.serialize_to_message(), second.serialize_to_message());
    assert_eq!(first.to_value(), second.to_value());
    let heartbeat = GatewayCommand::heartbeat(9);
    assert_eq!(heartbeat.serialize_to_message(), GatewayCommand::heartbeat(9).serialize_to_message());
}

#[test]
fn every_envelope_can_be_written() {
    for opcode in [0u32, 1, 10, u32::MAX] {
        for sequence_number in [None, Some(0u32), Some(u32::MAX)] {
            for event_name in [None, Some(String::new()), Some(String::from("\u{0}\"\\"))] {
                let payload = Payload {
                    opcode,
                    data: Hello { heartbeat_interval: opcode },
                    sequence_number,
                    event_name: event_name.clone(),
                };
                let text = payload.serialize_to_message().unwrap();
                assert_eq!(Payload::<Hello>::deserialize(&text), Ok(payload));
            }
        }
    }
}
