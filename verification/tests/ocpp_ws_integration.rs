use occp_ws::action::OcppActionEnum;
use occp_ws::codec::decode_envelope;
use occp_ws::handlers::{CloseFrame, WsMessage};
use occp_ws::payload::{BootNotificationKind, HeartbeatKind, OcppPayload};
use occp_ws::records::BootNotificationRequest;
use occp_ws::session::{session_step, Session, SessionEvent, SessionState};
use occp_ws::types::{OcppCall, OcppMessageType};
use rust_ocpp::v1_6::messages::heart_beat::HeartbeatRequest;
use serde_json::Value;

/// One connection: the state of its session and the frames it was sent.
struct Connection {
    state: SessionState,
    allowed: Vec<String>,
}

impl Connection {
    fn open(allowed: &[&str]) -> Connection {
        Connection {
            state: SessionState::Open,
            allowed: allowed.iter().map(|s| s.to_string()).collect(),
        }
    }

    fn send(&mut self, message: WsMessage) -> Vec<WsMessage> {
        let step = session_step(self.state, SessionEvent::Inbound(message), &self.allowed);
        self.state = step.state;
        step.outgoing
    }

    fn send_text(&mut self, text: &str) -> Vec<WsMessage> {
        self.send(WsMessage::Text(text.to_string()))
    }
}

fn only_text(mut frames: Vec<WsMessage>) -> String {
    assert_eq!(frames.len(), 1, "expected one frame, got {frames:?}");
    match frames.remove(0) {
        WsMessage::Text(body) => body,
        other => panic!("unexpected websocket message: {other:?}"),
    }
}

fn json(text: &str) -> Value {
    serde_json::from_str(text).expect("frame is JSON")
}

#[test]
fn handles_heartbeat_call_over_websocket() {
    let mut socket = Connection::open(&[]);

    let boot_payload =
        OcppPayload::BootNotification(BootNotificationKind::Request(BootNotificationRequest {
            charge_point_model: "ModelX".to_string(),
            charge_point_vendor: "AcmeCorp".to_string(),
            charge_point_serial_number: Some("SN-hb-123".to_string()),
            ..Default::default()
        }));
    let boot_call = OcppCall(
        2,
        "boot-before-heartbeat".to_string(),
        OcppActionEnum::BootNotification,
        boot_payload,
    );
    let boot_frame = boot_call.encode().expect("serialize boot call");
    let boot_text = only_text(socket.send_text(&boot_frame));
    let parsed_boot: OcppMessageType = decode_envelope(&boot_text).expect("boot response");
    match parsed_boot {
        OcppMessageType::CallResult(mt, id, _) => {
            assert_eq!(mt, 3);
            assert_eq!(id, "boot-before-heartbeat");
        }
        other => panic!("unexpected boot response: {other:?}"),
    }

    let message_id = "hb-1".to_string();
    let payload = OcppPayload::Heartbeat(HeartbeatKind::Request(HeartbeatRequest {}));
    let call = OcppCall(2, message_id.clone(), OcppActionEnum::Heartbeat, payload);
    let frame = call.encode().expect("serialize heartbeat call");

    let text = only_text(socket.send_text(&frame));

    let parsed: OcppMessageType = decode_envelope(&text).expect("heartbeat response");
    match parsed {
        OcppMessageType::CallResult(message_type, id, payload) => {
            assert_eq!(message_type, 3);
            assert_eq!(id, message_id);

            let current_time = payload
                .get("currentTime")
                .and_then(|v| v.as_str())
                .expect("heartbeat response missing currentTime");
            assert!(!current_time.is_empty());
        }
        other => panic!("unexpected message type: {other:?}"),
    }

    let closing = socket.send(WsMessage::Close(None));
    assert_eq!(closing, vec![WsMessage::Close(None)]);
    assert_eq!(socket.state, SessionState::Closing);
}

#[test]
fn handles_ping_pong_and_close() {
    let mut socket = Connection::open(&[]);

    let mut pong = socket.send(WsMessage::Ping(b"hello".to_vec()));
    assert_eq!(pong.len(), 1);
    match pong.remove(0) {
        WsMessage::Pong(payload) => assert_eq!(payload, b"hello"),
        other => panic!("expected pong, got {:?}", other),
    }

    let message_id = "hb-integration".to_string();
    let payload = OcppPayload::Heartbeat(HeartbeatKind::Request(HeartbeatRequest {}));
    let call = OcppCall(2, message_id.clone(), OcppActionEnum::Heartbeat, payload);
    let frame = call.encode().expect("serialize heartbeat call");

    let text = only_text(socket.send_text(&frame));

    let parsed: OcppMessageType = decode_envelope(&text).expect("heartbeat response");
    match parsed {
        OcppMessageType::CallResult(message_type, id, payload) => {
            assert_eq!(message_type, 3);
            assert_eq!(id, message_id);
            assert!(payload.get("currentTime").and_then(|v| v.as_str()).is_some());
        }
        other => panic!("unexpected heartbeat response: {:?}", other),
    }

    let closing = socket.send(WsMessage::Close(None));
    assert_eq!(closing, vec![WsMessage::Close(None)]);
    assert_eq!(socket.state, SessionState::Closing);
}

#[test]
fn accepts_boot_notification_call_over_websocket() {
    let mut socket = Connection::open(&[]);

    let message_id = "boot-1".to_string();
    let payload =
        OcppPayload::BootNotification(BootNotificationKind::Request(BootNotificationRequest {
            charge_point_model: "ModelX".to_string(),
            charge_point_vendor: "AcmeCorp".to_string(),
            charge_point_serial_number: Some("SN-12345".to_string()),
            ..Default::default()
        }));
    let call = OcppCall(2, message_id.clone(), OcppActionEnum::BootNotification, payload);
    let frame = call.encode().expect("serialize boot call");

    let text = only_text(socket.send_text(&frame));

    let parsed: OcppMessageType = decode_envelope(&text).expect("boot response");
    match parsed {
        OcppMessageType::CallResult(message_type, id, payload) => {
            assert_eq!(message_type, 3);
            assert_eq!(id, message_id);

            let status = payload
                .get("status")
                .and_then(|v| v.as_str())
                .expect("boot response missing status");
            assert_eq!(status, "Accepted");

            let interval = payload
                .get("interval")
                .and_then(|v| v.as_i64())
                .expect("boot response missing interval");
            assert!(interval > 0);
            assert_eq!(interval, 300);
            assert!(payload.get("currentTime").and_then(|v| v.as_str()).is_some());
        }
        other => panic!("unexpected message type: {other:?}"),
    }
    assert_eq!(socket.state, SessionState::Open);
}

#[test]
fn heartbeat_frame_is_answered_with_the_current_time() {
    let mut socket = Connection::open(&[]);
    let reply = json(&only_text(socket.send_text(r#"[2,"hb-1","Heartbeat",{}]"#)));
    let items = reply.as_array().expect("reply is an array");
    assert_eq!(items.len(), 3);
    assert_eq!(items[0], json("3"));
    assert_eq!(items[1], json(r#""hb-1""#));
    let body = items[2].as_object().expect("payload is an object");
    assert_eq!(body.len(), 1);
    assert!(!body["currentTime"].as_str().expect("currentTime is a string").is_empty());
}

#[test]
fn boot_notification_is_rejected_when_serial_is_not_listed() {
    let mut socket = Connection::open(&["SN-allow"]);
    let frames = socket.send_text(
        r#"[2,"boot-1","BootNotification",{"chargePointModel":"ModelX","chargePointVendor":"AcmeCorp","chargePointSerialNumber":"SN-deny"}]"#,
    );
    assert_eq!(frames, vec![WsMessage::Close(None)]);
    assert_eq!(socket.state, SessionState::Closing);

    // Nothing is read once the session is closing.
    assert!(socket.send_text(r#"[2,"hb-1","Heartbeat",{}]"#).is_empty());
    assert_eq!(socket.state, SessionState::Closing);
    let step = session_step(socket.state, SessionEvent::WriterFinished, &socket.allowed);
    assert!(step.outgoing.is_empty());
    assert_eq!(step.state, SessionState::Closed);
}

#[test]
fn boot_notification_is_accepted_when_serial_is_listed() {
    let mut socket = Connection::open(&["SN-other", "SN-allow"]);
    let reply = json(&only_text(socket.send_text(
        r#"[2,"boot-2","BootNotification",{"chargePointModel":"ModelX","chargePointVendor":"AcmeCorp","chargePointSerialNumber":"SN-allow"}]"#,
    )));
    assert_eq!(reply[0], json("3"));
    assert_eq!(reply[1], json(r#""boot-2""#));
    assert_eq!(reply[2]["status"], json(r#""Accepted""#));
    assert_eq!(reply[2]["interval"], json("300"));
    assert_eq!(socket.state, SessionState::Open);
}

#[test]
fn boot_notification_without_serial_is_rejected_when_list_is_set() {
    let mut socket = Connection::open(&["SN-allow"]);
    let frames = socket.send_text(
        r#"[2,"boot-3","BootNotification",{"chargePointModel":"ModelX","chargePointVendor":"AcmeCorp"}]"#,
    );
    assert_eq!(frames, vec![WsMessage::Close(None)]);
    assert_eq!(socket.state, SessionState::Closing);
}

#[test]
fn unknown_action_is_answered_with_not_supported() {
    let mut socket = Connection::open(&[]);
    let reply = json(&only_text(socket.send_text(r#"[2,"x","NotARealAction",{}]"#)));
    assert_eq!(
        reply,
        json(
            r#"[4,"x","NotSupported","Unknown action: NotARealAction",{"action":"NotARealAction","reason":"Matching variant not found"}]"#
        )
    );
    assert_eq!(socket.state, SessionState::Open);
}

#[test]
fn call_under_wrong_type_id_is_answered_with_protocol_error() {
    let mut socket = Connection::open(&[]);
    let reply = json(&only_text(socket.send_text(r#"[3,"x","Heartbeat",{}]"#)));
    assert_eq!(
        reply,
        json(
            r#"[4,"x","ProtocolError","Invalid MessageTypeId for Call",{"expected":2,"received":3}]"#
        )
    );
    assert_eq!(socket.state, SessionState::Open);
}

#[test]
fn two_sessions_get_their_own_heartbeat_answers() {
    let mut first = Connection::open(&[]);
    let mut second = Connection::open(&["SN-allow"]);
    for n in 0..100 {
        let first_id = format!("a-{n}");
        let second_id = format!("b-{n}");
        let first_reply = json(&only_text(
            first.send_text(&format!(r#"[2,"{first_id}","Heartbeat",{{}}]"#)),
        ));
        let second_reply = json(&only_text(
            second.send_text(&format!(r#"[2,"{second_id}","Heartbeat",{{}}]"#)),
        ));
        assert_eq!(first_reply[0], json("3"));
        assert_eq!(second_reply[0], json("3"));
        assert_eq!(first_reply[1].as_str(), Some(first_id.as_str()));
        assert_eq!(second_reply[1].as_str(), Some(second_id.as_str()));
        assert!(first_reply[2]["currentTime"].is_string());
        assert!(second_reply[2]["currentTime"].is_string());
    }
    assert_eq!(first.state, SessionState::Open);
    assert_eq!(second.state, SessionState::Open);
}

#[test]
fn close_from_peer_is_echoed_once() {
    let mut socket = Connection::open(&[]);
    let frames = socket.send(WsMessage::Close(Some(CloseFrame {
        code: 1000,
        reason: "bye".to_string(),
    })));
    assert_eq!(
        frames,
        vec![WsMessage::Close(Some(CloseFrame { code: 1000, reason: "bye".to_string() }))]
    );
    assert_eq!(socket.state, SessionState::Closing);

    assert!(socket.send(WsMessage::Ping(b"late".to_vec())).is_empty());
    assert!(socket.send(WsMessage::Close(None)).is_empty());
    assert!(socket.send_text(r#"[2,"hb-1","Heartbeat",{}]"#).is_empty());
    assert_eq!(socket.state, SessionState::Closing);

    let done = session_step(socket.state, SessionEvent::WriterFinished, &socket.allowed);
    assert!(done.outgoing.is_empty());
    assert_eq!(done.state, SessionState::Closed);
    let after = session_step(done.state, SessionEvent::Inbound(WsMessage::Close(None)), &[].to_vec());
    assert!(after.outgoing.is_empty());
    assert_eq!(after.state, SessionState::Closed);
}

#[test]
fn binary_and_pong_are_ignored() {
    let mut socket = Connection::open(&[]);
    assert!(socket.send(WsMessage::Binary(vec![1, 2, 3])).is_empty());
    assert_eq!(socket.state, SessionState::Open);
    assert!(socket.send(WsMessage::Pong(b"hello".to_vec())).is_empty());
    assert_eq!(socket.state, SessionState::Open);
}

#[test]
fn read_error_and_disconnect_stop_the_reading() {
    let allowed: Vec<String> = Vec::new();
    let step = session_step(SessionState::Open, SessionEvent::ReadError, &allowed);
    assert!(step.outgoing.is_empty());
    assert_eq!(step.state, SessionState::Closing);
    let step = session_step(SessionState::Open, SessionEvent::Disconnected, &allowed);
    assert!(step.outgoing.is_empty());
    assert_eq!(step.state, SessionState::Closing);
    let step = session_step(SessionState::Open, SessionEvent::WriterFinished, &allowed);
    assert!(step.outgoing.is_empty());
    assert_eq!(step.state, SessionState::Closed);
}

#[test]
fn session_keeps_its_state_and_its_record() {
    let allowed = vec!["SN-allow".to_string()];
    let mut session = Session::new("127.0.0.1:50000".to_string(), "station-123".to_string());
    assert_eq!(session.peer(), "127.0.0.1:50000");
    assert_eq!(session.station_id(), "station-123");
    assert_eq!(session.state(), SessionState::Open);
    assert!(session.is_open());

    let frames =
        session.on_event(SessionEvent::Inbound(WsMessage::Ping(b"hello".to_vec())), &allowed);
    assert_eq!(frames, vec![WsMessage::Pong(b"hello".to_vec())]);
    assert!(session.is_open());

    let frames = session.on_event(
        SessionEvent::Inbound(WsMessage::Text(r#"[2,"hb-1","Heartbeat",{}]"#.to_string())),
        &allowed,
    );
    assert_eq!(frames.len(), 1);
    assert!(session.is_open());

    let frames = session.on_event(
        SessionEvent::Inbound(WsMessage::Text(
            r#"[2,"boot-1","BootNotification",{"chargePointModel":"ModelX","chargePointVendor":"AcmeCorp","chargePointSerialNumber":"SN-deny"}]"#
                .to_string(),
        )),
        &allowed,
    );
    assert_eq!(frames, vec![WsMessage::Close(None)]);
    assert_eq!(session.state(), SessionState::Closing);
    assert!(!session.is_open());

    assert!(session.on_event(SessionEvent::WriterFinished, &allowed).is_empty());
    assert_eq!(session.state(), SessionState::Closed);
    assert_eq!(session.peer(), "127.0.0.1:50000");
    assert_eq!(session.station_id(), "station-123");
}

#[test]
fn frames_are_enqueued_in_the_order_of_their_messages() {
    let mut socket = Connection::open(&[]);
    let mut sent: Vec<WsMessage> = Vec::new();
    sent.extend(socket.send(WsMessage::Ping(b"1".to_vec())));
    sent.extend(socket.send_text(r#"[2,"a","Heartbeat",{}]"#));
    sent.extend(socket.send(WsMessage::Ping(b"2".to_vec())));
    sent.extend(socket.send_text(r#"[2,"b","Reset",{"type":"Hard"}]"#));
    sent.extend(socket.send(WsMessage::Close(None)));
    sent.extend(socket.send(WsMessage::Ping(b"3".to_vec())));
    assert_eq!(sent.len(), 5);
    assert_eq!(sent[0], WsMessage::Pong(b"1".to_vec()));
    match &sent[1] {
        WsMessage::Text(text) => assert_eq!(json(text)[1], json(r#""a""#)),
        other => panic!("unexpected websocket message: {other:?}"),
    }
    assert_eq!(sent[2], WsMessage::Pong(b"2".to_vec()));
    match &sent[3] {
        WsMessage::Text(text) => assert_eq!(json(text)[1], json(r#""b""#)),
        other => panic!("unexpected websocket message: {other:?}"),
    }
    assert_eq!(sent[4], WsMessage::Close(None));
}
