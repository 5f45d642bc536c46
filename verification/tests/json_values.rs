use tonsoe::codec::{
    read_number, read_optional_number, read_optional_text, read_text, write_number,
    write_optional_number, write_optional_text, write_text, ObjectWriter,
};

fn value(text: &str) -> serde_json::Value {
    serde_json::from_str::<serde_json::Value>(text).unwrap()
}

#[test]
fn numbers_of_32_bits_are_read() {
    assert_eq!(read_number(&value("0")), Some(0));
    assert_eq!(read_number(&value("4294967295")), Some(u32::MAX));
    assert_eq!(read_number(&value("4294967296")), None);
    assert_eq!(read_number(&value("18446744073709551615")), None);
    assert_eq!(read_number(&value("-1")), None);
    assert_eq!(read_number(&value("1.0")), None);
    assert_eq!(read_number(&value("\"1\"")), None);
    assert_eq!(read_number(&value("null")), None);
    assert_eq!(read_number(&value("[1]")), None);
}

#[test]
fn texts_are_read() {
    assert_eq!(read_text(&value("\"\"")), Some(String::new()));
    assert_eq!(read_text(&value("\"a\\nb\"")), Some(String::from("a\nb")));
    assert_eq!(read_text(&value("1")), None);
    assert_eq!(read_text(&value("null")), None);
}

#[test]
fn missing_and_null_members_hold_nothing() {
    assert_eq!(read_optional_number(None), Some(None));
    assert_eq!(read_optional_number(Some(&value("null"))), Some(None));
    assert_eq!(read_optional_number(Some(&value("7"))), Some(Some(7)));
    assert_eq!(read_optional_number(Some(&value("\"7\""))), None);
    assert_eq!(read_optional_text(None), Some(None));
    assert_eq!(read_optional_text(Some(&value("null"))), Some(None));
    assert_eq!(read_optional_text(Some(&value("\"x\""))), Some(Some(String::from("x"))));
    assert_eq!(read_optional_text(Some(&value("7"))), None);
}

#[test]
fn numbers_and_texts_are_written() {
    assert_eq!(write_number(7), value("7"));
    assert_eq!(write_number(u32::MAX), value("4294967295"));
    assert_eq!(write_text("a\"b"), value("\"a\\\"b\""));
    assert_eq!(write_optional_number(None), value("null"));
    assert_eq!(write_optional_number(Some(0)), value("0"));
    assert_eq!(write_optional_text(&None), value("null"));
    assert_eq!(write_optional_text(&Some(String::from("t"))), value("\"t\""));
}

#[test]
fn what_is_written_is_read_back() {
    assert_eq!(read_number(&write_number(123)), Some(123));
    assert_eq!(read_text(&write_text("abc")), Some(String::from("abc")));
    assert_eq!(read_optional_number(Some(&write_optional_number(None))), Some(None));
    assert_eq!(read_optional_number(Some(&write_optional_number(Some(9)))), Some(Some(9)));
}

#[test]
fn object_writer_collects_members_in_their_order() {
    let object = ObjectWriter::new()
        .put("b", write_number(1))
        .put("a", write_text("x"))
        .finish();
    assert_eq!(object, value("{\"b\":1,\"a\":\"x\"}"));
    assert_eq!(object.to_string(), "{\"b\":1,\"a\":\"x\"}");
    assert_eq!(object.get("a"), Some(&value("\"x\"")));
    assert_eq!(object.get("c"), None);
}

#[test]
fn object_writer_without_members_is_an_empty_object() {
    assert_eq!(ObjectWriter::new().finish(), value("{}"));
}
