use occp_ws::codec::{decode_envelope, decode_frame};
use occp_ws::types::{
    DecodeError, EncodeError, OcppCallError, OcppMessageType, ProtocolViolation,
};
use serde_json::Value;

fn json(text: &str) -> Value {
    serde_json::from_str(text).expect("value is JSON")
}

fn wrong_type_id(message_id: &str, expected: usize, received: usize) -> DecodeError {
    DecodeError::ProtocolError(ProtocolViolation::WrongTypeId {
        message_id: message_id.to_string(),
        expected,
        received,
    })
}

#[test]
fn call_frame_is_decoded() {
    let frame = decode_envelope(r#"[2,"19223201","Heartbeat",{}]"#).expect("a call");
    assert_eq!(
        frame,
        OcppMessageType::Call(2, "19223201".to_string(), "Heartbeat".to_string(), json("{}"))
    );
}

#[test]
fn call_result_frame_is_decoded() {
    let frame = decode_envelope(r#"[3, "abc", {"status": "Accepted"}]"#).expect("a result");
    assert_eq!(
        frame,
        OcppMessageType::CallResult(3, "abc".to_string(), json(r#"{"status":"Accepted"}"#))
    );
}

#[test]
fn call_error_frame_is_decoded() {
    let frame = decode_envelope(r#"[4,"abc","NotSupported","no such action",{"a":1}]"#)
        .expect("an error");
    assert_eq!(
        frame,
        OcppMessageType::CallError(
            4,
            "abc".to_string(),
            "NotSupported".to_string(),
            "no such action".to_string(),
            json(r#"{"a":1}"#),
        )
    );
}

#[test]
fn payload_slot_takes_any_value() {
    for payload in ["null", "7", "-1.5", r#""text""#, "[1,2]", r#"{"k":[{}]}"#, "true"] {
        let text = format!(r#"[2,"id","Heartbeat",{payload}]"#);
        assert_eq!(
            decode_envelope(&text),
            Ok(OcppMessageType::Call(2, "id".to_string(), "Heartbeat".to_string(), json(payload)))
        );
        let text = format!(r#"[3,"id",{payload}]"#);
        assert_eq!(
            decode_envelope(&text),
            Ok(OcppMessageType::CallResult(3, "id".to_string(), json(payload)))
        );
    }
}

#[test]
fn text_that_is_not_json_is_a_framing_error() {
    for text in ["", "not json", "[2,", r#"[2,"id","Heartbeat",{}] trailing"#, "{", "[2,\"id\"", "'x'"] {
        assert_eq!(decode_envelope(text), Err(DecodeError::FramingError), "for {text:?}");
    }
}

#[test]
fn json_that_names_no_message_is_no_envelope() {
    for text in [
        "{}",
        "2",
        "null",
        r#""[2]""#,
        "[]",
        "[2]",
        r#"[2,17,"Heartbeat",{}]"#,
        r#"[2,null,"Heartbeat",{}]"#,
        r#"[2,{"id":"x"},"Heartbeat",{}]"#,
        r#"[3,17,{}]"#,
        r#"[4,17,"code","description",{}]"#,
    ] {
        assert_eq!(
            decode_envelope(text),
            Err(DecodeError::ProtocolError(ProtocolViolation::NotAnEnvelope)),
            "for {text:?}"
        );
    }
}

#[test]
fn json_that_names_a_message_keeps_its_id_when_malformed() {
    for text in [
        r#"[2,"id"]"#,
        r#"[2,"id","Heartbeat",{},{},{}]"#,
        r#"["2","id","Heartbeat",{}]"#,
        r#"[2.0,"id","Heartbeat",{}]"#,
        r#"[-2,"id","Heartbeat",{}]"#,
        r#"[2e0,"id","Heartbeat",{}]"#,
        r#"[null,"id","Heartbeat",{}]"#,
        r#"[18446744073709551616,"id","Heartbeat",{}]"#,
        r#"[2,"id",17,{}]"#,
        r#"[2,"id",{},{}]"#,
        r#"[4,"id",1,"description",{}]"#,
        r#"[4,"id","code",2,{}]"#,
        r#"[true,"id"]"#,
    ] {
        assert_eq!(
            decode_envelope(text),
            Err(DecodeError::ProtocolError(ProtocolViolation::Malformed {
                message_id: "id".to_string()
            })),
            "for {text:?}"
        );
    }
}

#[test]
fn envelope_under_another_type_id_is_refused() {
    assert_eq!(
        decode_envelope(r#"[3,"x","Heartbeat",{}]"#),
        Err(wrong_type_id("x", 2, 3))
    );
    assert_eq!(
        decode_envelope(r#"[4,"x","Heartbeat",{}]"#),
        Err(wrong_type_id("x", 2, 4))
    );
    assert_eq!(
        decode_envelope(r#"[0,"x","Heartbeat",{}]"#),
        Err(wrong_type_id("x", 2, 0))
    );
    assert_eq!(
        decode_envelope(r#"[12345,"x","Heartbeat",{}]"#),
        Err(wrong_type_id("x", 2, 12345))
    );
    assert_eq!(decode_envelope(r#"[7,"x","Heartbeat",{}]"#), Err(wrong_type_id("x", 2, 7)));
    assert_eq!(decode_envelope(r#"[2,"x","Heartbeat"]"#), Err(wrong_type_id("x", 3, 2)));
    assert_eq!(decode_envelope(r#"[2,"y",{}]"#), Err(wrong_type_id("y", 3, 2)));
    assert_eq!(decode_envelope(r#"[4,"y",{}]"#), Err(wrong_type_id("y", 3, 4)));
    assert_eq!(
        decode_envelope(r#"[2,"z","code","description",{}]"#),
        Err(wrong_type_id("z", 4, 2))
    );
    assert_eq!(
        decode_envelope(r#"[3,"z","code","description",{}]"#),
        Err(wrong_type_id("z", 4, 3))
    );
}

#[test]
fn decoded_frames_carry_their_envelope_type_id() {
    for (text, arity) in [
        (r#"[2,"a","Reset",{"type":"Hard"}]"#, 4),
        (r#"[3,"a",{}]"#, 3),
        (r#"[4,"a","InternalError","",{}]"#, 5),
    ] {
        let elements = json(text).as_array().expect("an array").len();
        assert_eq!(elements, arity);
        match decode_envelope(text).expect("a frame") {
            OcppMessageType::Call(id, ..) => assert_eq!((id, arity), (2, 4)),
            OcppMessageType::CallResult(id, ..) => assert_eq!((id, arity), (3, 3)),
            OcppMessageType::CallError(id, ..) => assert_eq!((id, arity), (4, 5)),
        }
    }
}

#[test]
fn frames_are_written_as_arrays_in_positional_order() {
    let call = OcppMessageType::Call(
        2,
        "id-1".to_string(),
        "Heartbeat".to_string(),
        json("{}"),
    );
    assert_eq!(call.encode().unwrap(), r#"[2,"id-1","Heartbeat",{}]"#);
    let result = OcppMessageType::CallResult(3, "id-2".to_string(), json(r#"{"k":"v"}"#));
    assert_eq!(result.encode().unwrap(), r#"[3,"id-2",{"k":"v"}]"#);
    let error = OcppMessageType::CallError(
        4,
        "id-3".to_string(),
        "NotSupported".to_string(),
        "Unknown action: X".to_string(),
        json("{}"),
    );
    assert_eq!(error.encode().unwrap(), r#"[4,"id-3","NotSupported","Unknown action: X",{}]"#);
    assert_eq!(error.to_value().unwrap(), json(r#"[4,"id-3","NotSupported","Unknown action: X",{}]"#));
}

#[test]
fn message_ids_are_escaped_and_read_back() {
    let id = "a \"quoted\" \\ id\n\u{1F50C} é";
    let call = OcppMessageType::Call(2, id.to_string(), "Heartbeat".to_string(), json("{}"));
    let text = call.encode().unwrap();
    assert_eq!(decode_envelope(&text), Ok(call));
}

#[test]
fn reading_what_was_written_gives_the_frame_back() {
    let frames = vec![
        OcppMessageType::Call(
            2,
            "123".to_string(),
            "BootNotification".to_string(),
            json(r#"{"chargePointModel":"ModelX","chargePointVendor":"AcmeCorp"}"#),
        ),
        OcppMessageType::Call(2, String::new(), String::new(), json("null")),
        OcppMessageType::CallResult(3, "abc".to_string(), json(r#"{"currentTime":"2024-01-01T00:00:00Z"}"#)),
        OcppMessageType::CallResult(3, "abc".to_string(), json("[1,2,3]")),
        OcppMessageType::CallError(
            4,
            "x".to_string(),
            "ProtocolError".to_string(),
            "Invalid MessageTypeId for Call".to_string(),
            json(r#"{"expected":2,"received":3}"#),
        ),
    ];
    for frame in frames {
        let text = frame.encode().expect("a valid frame");
        assert_eq!(decode_envelope(&text), Ok(frame));
    }
}

#[test]
fn writing_what_was_read_gives_the_value_back() {
    for text in [
        r#"[2,"123","BootNotification",{"chargePointModel":"ModelX"}]"#,
        r#"[3,"abc",{"interval":300}]"#,
        r#"[4,"x","NotSupported","",{"action":"X"}]"#,
    ] {
        let value = json(text);
        let frame = decode_frame(&value).expect("a frame");
        assert_eq!(frame.to_value().expect("a valid frame"), value);
        assert_eq!(frame.encode().unwrap(), text);
    }
}

#[test]
fn frame_under_a_wrong_type_id_is_not_written() {
    let call = OcppMessageType::Call(3, "id".to_string(), "Heartbeat".to_string(), json("{}"));
    assert_eq!(call.encode(), Err(EncodeError::WrongTypeId));
    assert_eq!(call.to_value(), Err(EncodeError::WrongTypeId));
    let result = OcppMessageType::CallResult(2, "id".to_string(), json("{}"));
    assert_eq!(result.encode(), Err(EncodeError::WrongTypeId));
    let error = OcppMessageType::CallError(
        5,
        "id".to_string(),
        "c".to_string(),
        "d".to_string(),
        json("[]"),
    );
    assert_eq!(error.encode(), Err(EncodeError::WrongTypeId));
    let error = OcppCallError(3, "id".to_string(), "c".to_string(), "d".to_string(), json("{}"));
    assert_eq!(error.encode(), Err(EncodeError::WrongTypeId));
}

#[test]
fn error_details_must_be_an_object() {
    for details in ["[]", "null", "1", r#""text""#] {
        let error = OcppCallError(
            4,
            "id".to_string(),
            "c".to_string(),
            "d".to_string(),
            json(details),
        );
        assert_eq!(error.encode(), Err(EncodeError::DetailsNotObject));
        assert_eq!(error.to_frame().to_value(), Err(EncodeError::DetailsNotObject));
    }
    let error = OcppCallError(4, "id".to_string(), "c".to_string(), "d".to_string(), json("{}"));
    assert_eq!(error.encode().unwrap(), r#"[4,"id","c","d",{}]"#);
}
