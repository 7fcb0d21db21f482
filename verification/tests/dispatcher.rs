use occp_ws::action::OcppActionEnum;
use occp_ws::handlers::{
    handle_ocpp_call, handle_ocpp_call_at, handle_ocpp_call_error, handle_ocpp_call_result,
    handle_ocpp_messages, handle_ocpp_messages_at, malformed, not_implemented, outcome_of,
    respond_to_call,
    unknown_action, wrong_type_id, CallResponse, DispatchOutcome, WsMessage, HEARTBEAT_INTERVAL,
};
use occp_ws::payload::{
    decode_payload, AuthorizeKind, BootNotificationKind, DataTransferKind, Direction,
    HeartbeatKind, OcppPayload, PayloadError, StopTransactionKind,
};
use occp_ws::records::{
    AuthorizationStatus, AuthorizeResponse, BootNotificationRequest, BootNotificationResponse,
    DataTransferResponse, DataTransferStatus, HeartbeatResponse, IdTagInfo, RegistrationStatus,
    StopTransactionResponse,
};
use occp_ws::session::{session_step_at, SessionEvent, SessionState, OUTBOUND_QUEUE_CAPACITY};
use occp_ws::time::Timestamp;
use occp_ws::types::{OcppCallError, OcppCallResult};
use serde_json::Value;

fn json(text: &str) -> Value {
    serde_json::from_str(text).expect("value is JSON")
}

fn new_year() -> Timestamp {
    Timestamp::new(1_704_067_200, 0).expect("2024-01-01T00:00:00Z")
}

fn strings(items: &[&str]) -> Vec<String> {
    items.iter().map(|s| s.to_string()).collect()
}

fn reply_of(outcome: DispatchOutcome) -> Value {
    match outcome {
        DispatchOutcome::Continue(frames) => match frames.as_slice() {
            [WsMessage::Text(text)] => json(text),
            other => panic!("expected one text frame, got {other:?}"),
        },
        other => panic!("expected the session to go on, got {other:?}"),
    }
}

fn silent() -> DispatchOutcome {
    DispatchOutcome::Continue(Vec::new())
}

fn accepted_tag() -> IdTagInfo {
    IdTagInfo { expiry_date: None, parent_id_tag: None, status: AuthorizationStatus::Accepted }
}

fn decode(action: OcppActionEnum, payload: &str) -> Result<OcppPayload, PayloadError> {
    decode_payload(action, Direction::Request, json(payload))
}

const NOT_HANDLED: [OcppActionEnum; 22] = [
    OcppActionEnum::CancelReservation,
    OcppActionEnum::ChangeAvailability,
    OcppActionEnum::ChangeConfiguration,
    OcppActionEnum::ClearCache,
    OcppActionEnum::ClearChargingProfile,
    OcppActionEnum::DiagnosticsStatusNotification,
    OcppActionEnum::FirmwareStatusNotification,
    OcppActionEnum::GetCompositeSchedule,
    OcppActionEnum::GetConfiguration,
    OcppActionEnum::GetDiagnostics,
    OcppActionEnum::GetLocalListVersion,
    OcppActionEnum::MeterValues,
    OcppActionEnum::RemoteStartTransaction,
    OcppActionEnum::RemoteStopTransaction,
    OcppActionEnum::ReserveNow,
    OcppActionEnum::Reset,
    OcppActionEnum::SendLocalList,
    OcppActionEnum::SetChargingProfile,
    OcppActionEnum::StartTransaction,
    OcppActionEnum::TriggerMessage,
    OcppActionEnum::UnlockConnector,
    OcppActionEnum::UpdateFirmware,
];

#[test]
fn heartbeat_is_answered_with_the_given_time() {
    let outcome = handle_ocpp_messages_at(r#"[2,"hb-1","Heartbeat",{}]"#, &Vec::new(), new_year());
    assert_eq!(reply_of(outcome), json(r#"[3,"hb-1",{"currentTime":"2024-01-01T00:00:00Z"}]"#));
}

#[test]
fn heartbeat_is_answered_whatever_its_payload() {
    for payload in ["{}", "null", "17", r#""text""#, r#"{"unexpected":true}"#, "[1]"] {
        let text = format!(r#"[2,"hb-2","Heartbeat",{payload}]"#);
        let outcome = handle_ocpp_messages_at(&text, &strings(&["SN-allow"]), new_year());
        assert_eq!(
            reply_of(outcome),
            json(r#"[3,"hb-2",{"currentTime":"2024-01-01T00:00:00Z"}]"#),
            "for {payload}"
        );
    }
}

#[test]
fn heartbeat_time_keeps_its_fraction() {
    let now = Timestamp::new(1_704_067_200, 123_000_000).unwrap();
    let outcome = handle_ocpp_messages_at(r#"[2,"hb-3","Heartbeat",{}]"#, &Vec::new(), now);
    assert_eq!(
        reply_of(outcome),
        json(r#"[3,"hb-3",{"currentTime":"2024-01-01T00:00:00.123Z"}]"#)
    );
}

#[test]
fn boot_notification_is_accepted_when_the_list_is_empty() {
    let outcome = handle_ocpp_messages_at(
        r#"[2,"boot-1","BootNotification",{"chargePointModel":"ModelX","chargePointVendor":"AcmeCorp","chargePointSerialNumber":"SN-12345"}]"#,
        &Vec::new(),
        new_year(),
    );
    assert_eq!(
        reply_of(outcome),
        json(
            r#"[3,"boot-1",{"status":"Accepted","currentTime":"2024-01-01T00:00:00Z","interval":300}]"#
        )
    );
}

#[test]
fn boot_notification_without_serial_is_accepted_when_the_list_is_empty() {
    let outcome = handle_ocpp_messages_at(
        r#"[2,"boot-1","BootNotification",{"chargePointModel":"ModelX","chargePointVendor":"AcmeCorp"}]"#,
        &Vec::new(),
        new_year(),
    );
    assert_eq!(
        reply_of(outcome),
        json(
            r#"[3,"boot-1",{"status":"Accepted","currentTime":"2024-01-01T00:00:00Z","interval":300}]"#
        )
    );
}

#[test]
fn boot_notification_is_rejected_by_a_close_frame() {
    let allowed = strings(&["SN-allow"]);
    let outcome = handle_ocpp_messages_at(
        r#"[2,"boot-1","BootNotification",{"chargePointModel":"ModelX","chargePointVendor":"AcmeCorp","chargePointSerialNumber":"SN-deny"}]"#,
        &allowed,
        new_year(),
    );
    assert_eq!(outcome, DispatchOutcome::Close(vec![WsMessage::Close(None)]));
    let outcome = handle_ocpp_messages_at(
        r#"[2,"boot-1","BootNotification",{"chargePointModel":"ModelX","chargePointVendor":"AcmeCorp","chargePointSerialNumber":null}]"#,
        &allowed,
        new_year(),
    );
    assert_eq!(outcome, DispatchOutcome::Close(vec![WsMessage::Close(None)]));
}

#[test]
fn boot_notification_with_a_malformed_payload_is_not_answered() {
    for payload in [
        "{}",
        r#"{"chargePointModel":"ModelX"}"#,
        r#"{"chargePointModel":1,"chargePointVendor":"AcmeCorp"}"#,
        "null",
        r#""text""#,
    ] {
        let text = format!(r#"[2,"boot-1","BootNotification",{payload}]"#);
        let outcome = handle_ocpp_messages_at(&text, &strings(&["SN-allow"]), new_year());
        assert_eq!(outcome, silent(), "for {payload}");
    }
}

#[test]
fn authorize_is_accepted() {
    let outcome = handle_ocpp_messages_at(
        r#"[2,"auth-1","Authorize",{"idTag":"TAG-1"}]"#,
        &Vec::new(),
        new_year(),
    );
    assert_eq!(reply_of(outcome), json(r#"[3,"auth-1",{"idTagInfo":{"status":"Accepted"}}]"#));
    let outcome =
        handle_ocpp_messages_at(r#"[2,"auth-2","Authorize",{}]"#, &Vec::new(), new_year());
    assert_eq!(outcome, silent());
}

#[test]
fn data_transfer_is_accepted() {
    let outcome = handle_ocpp_messages_at(
        r#"[2,"dt-1","DataTransfer",{"vendorId":"acme","data":"payload"}]"#,
        &Vec::new(),
        new_year(),
    );
    assert_eq!(
        reply_of(outcome),
        json(r#"[3,"dt-1",{"status":"Accepted","data":"Data Transfer Accepted"}]"#)
    );
    let outcome =
        handle_ocpp_messages_at(r#"[2,"dt-2","DataTransfer",{}]"#, &Vec::new(), new_year());
    assert_eq!(outcome, silent());
}

#[test]
fn stop_transaction_is_accepted() {
    let outcome = handle_ocpp_messages_at(
        r#"[2,"stop-1","StopTransaction",{"meterStop":120,"timestamp":"2024-01-01T00:00:00Z","transactionId":7}]"#,
        &Vec::new(),
        new_year(),
    );
    assert_eq!(reply_of(outcome), json(r#"[3,"stop-1",{"idTagInfo":{"status":"Accepted"}}]"#));
    let outcome = handle_ocpp_messages_at(
        r#"[2,"stop-2","StopTransaction",{"meterStop":"many"}]"#,
        &Vec::new(),
        new_year(),
    );
    assert_eq!(outcome, silent());
}

#[test]
fn status_notification_is_not_answered() {
    let outcome = handle_ocpp_messages_at(
        r#"[2,"sn-1","StatusNotification",{"connectorId":1,"errorCode":"NoError","status":"Available"}]"#,
        &Vec::new(),
        new_year(),
    );
    assert_eq!(outcome, silent());
    let outcome =
        handle_ocpp_messages_at(r#"[2,"sn-2","StatusNotification",{}]"#, &Vec::new(), new_year());
    assert_eq!(outcome, silent());
}

#[test]
fn actions_that_are_not_handled_are_answered_with_not_supported() {
    for action in NOT_HANDLED {
        let name = action.as_str();
        for payload in ["{}", "null", r#"{"type":"Hard"}"#] {
            let text = format!(r#"[2,"m-1","{name}",{payload}]"#);
            let outcome = handle_ocpp_messages_at(&text, &strings(&["SN-allow"]), new_year());
            let expected = format!(
                r#"[4,"m-1","NotSupported","Action {name} not implemented",{{"action":"{name}"}}]"#
            );
            assert_eq!(reply_of(outcome), json(&expected), "for {name} with {payload}");
        }
    }
}

#[test]
fn unknown_action_keeps_the_message_id() {
    let outcome =
        handle_ocpp_messages_at(r#"[2,"x","NotARealAction",{}]"#, &Vec::new(), new_year());
    assert_eq!(
        reply_of(outcome),
        json(
            r#"[4,"x","NotSupported","Unknown action: NotARealAction",{"action":"NotARealAction","reason":"Matching variant not found"}]"#
        )
    );
    let outcome = handle_ocpp_messages_at(r#"[2,"y","heartbeat",{}]"#, &Vec::new(), new_year());
    assert_eq!(
        reply_of(outcome),
        json(
            r#"[4,"y","NotSupported","Unknown action: heartbeat",{"action":"heartbeat","reason":"Matching variant not found"}]"#
        )
    );
}

#[test]
fn call_under_a_wrong_type_id_is_a_protocol_error() {
    let outcome = handle_ocpp_messages_at(r#"[3,"x","Heartbeat",{}]"#, &Vec::new(), new_year());
    assert_eq!(
        reply_of(outcome),
        json(
            r#"[4,"x","ProtocolError","Invalid MessageTypeId for Call",{"expected":2,"received":3}]"#
        )
    );
    let outcome = handle_ocpp_messages_at(r#"[9,"x","Nonsense",null]"#, &Vec::new(), new_year());
    assert_eq!(
        reply_of(outcome),
        json(
            r#"[4,"x","ProtocolError","Invalid MessageTypeId for Call",{"expected":2,"received":9}]"#
        )
    );
}

#[test]
fn frames_of_a_wrong_length_are_protocol_errors() {
    let outcome = handle_ocpp_messages_at(r#"[2,"x",{}]"#, &Vec::new(), new_year());
    assert_eq!(
        reply_of(outcome),
        json(
            r#"[4,"x","ProtocolError","Invalid MessageTypeId for CallResult",{"expected":3,"received":2}]"#
        )
    );
    let outcome = handle_ocpp_messages_at(r#"[2,"x","Heartbeat"]"#, &Vec::new(), new_year());
    assert_eq!(
        reply_of(outcome),
        json(
            r#"[4,"x","ProtocolError","Invalid MessageTypeId for CallResult",{"expected":3,"received":2}]"#
        )
    );
    let outcome =
        handle_ocpp_messages_at(r#"[3,"y","code","description",{}]"#, &Vec::new(), new_year());
    assert_eq!(
        reply_of(outcome),
        json(
            r#"[4,"y","ProtocolError","Invalid MessageTypeId for CallError",{"expected":4,"received":3}]"#
        )
    );
    let outcome = handle_ocpp_messages_at(r#"[7,"x","Heartbeat",{}]"#, &Vec::new(), new_year());
    assert_eq!(
        reply_of(outcome),
        json(
            r#"[4,"x","ProtocolError","Invalid MessageTypeId for Call",{"expected":2,"received":7}]"#
        )
    );
    for text in [
        r#"[2,"z"]"#,
        r#"[2,"z","Heartbeat",{},{},{}]"#,
        r#"["2","z","Heartbeat",{}]"#,
        r#"[2,"z",17,{}]"#,
        r#"[4,"z","code",2,{}]"#,
    ] {
        let outcome = handle_ocpp_messages_at(text, &strings(&["SN-allow"]), new_year());
        assert_eq!(
            reply_of(outcome),
            json(r#"[4,"z","ProtocolError","Malformed frame",{}]"#),
            "for {text}"
        );
    }
}

#[test]
fn call_results_and_call_errors_are_never_answered() {
    for text in [
        r#"[3,"abc",{"status":"Accepted"}]"#,
        r#"[3,"abc",null]"#,
        r#"[4,"abc","InternalError","failed",{}]"#,
        r#"[4,"abc","NotSupported","",{"action":"Reset"}]"#,
    ] {
        assert_eq!(handle_ocpp_messages_at(text, &Vec::new(), new_year()), silent(), "for {text}");
    }
    assert_eq!(handle_ocpp_call_result(3, "abc".to_string(), json("{}")), silent());
}

#[test]
fn texts_that_are_no_frames_are_not_answered() {
    for text in ["", "not json", "{}", "[]", "[2]", r#"[2,17,"Heartbeat",{}]"#, r#"[3,null,{}]"#] {
        assert_eq!(handle_ocpp_messages_at(text, &Vec::new(), new_year()), silent(), "for {text}");
        assert_eq!(handle_ocpp_messages(text, &Vec::new()), silent(), "for {text}");
    }
}

#[test]
fn answers_carry_the_current_time_by_default() {
    let before = chrono::Utc::now().timestamp();
    let reply = reply_of(handle_ocpp_messages(r#"[2,"hb-1","Heartbeat",{}]"#, &Vec::new()));
    let after = chrono::Utc::now().timestamp();
    let text = reply[2]["currentTime"].as_str().expect("a time");
    let time = chrono::DateTime::parse_from_rfc3339(text).expect("RFC 3339").timestamp();
    assert!(before <= time && time <= after);
    assert!(text.ends_with('Z'));

    let reply = reply_of(handle_ocpp_call(
        2,
        "hb-2".to_string(),
        OcppActionEnum::Heartbeat,
        json("{}"),
        &Vec::new(),
    ));
    assert_eq!(reply[1], json(r#""hb-2""#));
    assert!(reply[2]["currentTime"].is_string());
}

#[test]
fn call_handler_reads_the_payload_as_the_request_of_the_action() {
    let outcome = handle_ocpp_call_at(
        2,
        "boot-9".to_string(),
        OcppActionEnum::BootNotification,
        json(r#"{"chargePointModel":"M","chargePointVendor":"V","chargePointSerialNumber":"SN-allow"}"#),
        &strings(&["SN-allow"]),
        new_year(),
    );
    assert_eq!(reply_of(outcome)[2]["status"], json(r#""Accepted""#));
    // The answer to a BootNotification is no request: it is not answered.
    let outcome = handle_ocpp_call_at(
        2,
        "boot-9".to_string(),
        OcppActionEnum::BootNotification,
        json(r#"{"status":"Accepted","currentTime":"2024-01-01T00:00:00Z","interval":300}"#),
        &Vec::new(),
        new_year(),
    );
    assert_eq!(outcome, silent());
}

#[test]
fn answers_are_decided_from_the_decoded_payload() {
    let allowed = strings(&["SN-allow"]);
    let now = new_year();

    let response = respond_to_call(
        "a".to_string(),
        OcppActionEnum::Authorize,
        decode(OcppActionEnum::Authorize, r#"{"idTag":"T"}"#),
        &allowed,
        now,
    );
    assert_eq!(
        response,
        CallResponse::Result(OcppCallResult(
            3,
            "a".to_string(),
            OcppPayload::Authorize(AuthorizeKind::Response(AuthorizeResponse {
                id_tag_info: accepted_tag()
            })),
        ))
    );

    let request = BootNotificationRequest {
        charge_point_model: "M".to_string(),
        charge_point_vendor: "V".to_string(),
        charge_point_serial_number: Some("SN-allow".to_string()),
        ..Default::default()
    };
    let response = respond_to_call(
        "b".to_string(),
        OcppActionEnum::BootNotification,
        Ok(OcppPayload::BootNotification(BootNotificationKind::Request(request))),
        &allowed,
        now,
    );
    assert_eq!(
        response,
        CallResponse::Result(OcppCallResult(
            3,
            "b".to_string(),
            OcppPayload::BootNotification(BootNotificationKind::Response(
                BootNotificationResponse {
                    current_time: now,
                    interval: 300,
                    status: RegistrationStatus::Accepted,
                }
            )),
        ))
    );
    assert_eq!(HEARTBEAT_INTERVAL, 300);

    let request = BootNotificationRequest {
        charge_point_serial_number: Some("SN-deny".to_string()),
        ..Default::default()
    };
    let response = respond_to_call(
        "c".to_string(),
        OcppActionEnum::BootNotification,
        Ok(OcppPayload::BootNotification(BootNotificationKind::Request(request))),
        &allowed,
        now,
    );
    assert_eq!(response, CallResponse::Reject);

    let response = respond_to_call(
        "d".to_string(),
        OcppActionEnum::BootNotification,
        Err(PayloadError::FormationViolation),
        &allowed,
        now,
    );
    assert_eq!(response, CallResponse::Nothing);

    let response = respond_to_call(
        "e".to_string(),
        OcppActionEnum::DataTransfer,
        decode(OcppActionEnum::DataTransfer, r#"{"vendorId":"acme"}"#),
        &allowed,
        now,
    );
    assert_eq!(
        response,
        CallResponse::Result(OcppCallResult(
            3,
            "e".to_string(),
            OcppPayload::DataTransfer(DataTransferKind::Response(DataTransferResponse {
                status: DataTransferStatus::Accepted,
                data: Some("Data Transfer Accepted".to_string()),
            })),
        ))
    );

    let response = respond_to_call(
        "f".to_string(),
        OcppActionEnum::Heartbeat,
        Err(PayloadError::FormationViolation),
        &allowed,
        now,
    );
    assert_eq!(
        response,
        CallResponse::Result(OcppCallResult(
            3,
            "f".to_string(),
            OcppPayload::Heartbeat(HeartbeatKind::Response(HeartbeatResponse {
                current_time: now
            })),
        ))
    );

    let response = respond_to_call(
        "g".to_string(),
        OcppActionEnum::StopTransaction,
        decode(
            OcppActionEnum::StopTransaction,
            r#"{"meterStop":1,"timestamp":"2024-01-01T00:00:00Z","transactionId":2}"#,
        ),
        &allowed,
        now,
    );
    assert_eq!(
        response,
        CallResponse::Result(OcppCallResult(
            3,
            "g".to_string(),
            OcppPayload::StopTransaction(StopTransactionKind::Response(
                StopTransactionResponse { id_tag_info: Some(accepted_tag()) }
            )),
        ))
    );

    let response = respond_to_call(
        "h".to_string(),
        OcppActionEnum::StatusNotification,
        decode(
            OcppActionEnum::StatusNotification,
            r#"{"connectorId":1,"errorCode":"NoError","status":"Available"}"#,
        ),
        &allowed,
        now,
    );
    assert_eq!(response, CallResponse::Nothing);

    // A payload of another action does not count as the request.
    let response = respond_to_call(
        "i".to_string(),
        OcppActionEnum::Authorize,
        decode(OcppActionEnum::DataTransfer, r#"{"vendorId":"acme"}"#),
        &allowed,
        now,
    );
    assert_eq!(response, CallResponse::Nothing);

    let response = respond_to_call(
        "j".to_string(),
        OcppActionEnum::Reset,
        Err(PayloadError::FormationViolation),
        &allowed,
        now,
    );
    assert_eq!(
        response,
        CallResponse::Error(OcppCallError(
            4,
            "j".to_string(),
            "NotSupported".to_string(),
            "Action Reset not implemented".to_string(),
            json(r#"{"action":"Reset"}"#),
        ))
    );
}

#[test]
fn error_replies_are_built_as_stated() {
    assert_eq!(
        not_implemented("m".to_string(), OcppActionEnum::GetConfiguration),
        OcppCallError(
            4,
            "m".to_string(),
            "NotSupported".to_string(),
            "Action GetConfiguration not implemented".to_string(),
            json(r#"{"action":"GetConfiguration"}"#),
        )
    );
    assert_eq!(
        unknown_action("m".to_string(), "Nope", "no match".to_string()),
        OcppCallError(
            4,
            "m".to_string(),
            "NotSupported".to_string(),
            "Unknown action: Nope".to_string(),
            json(r#"{"action":"Nope","reason":"no match"}"#),
        )
    );
    assert_eq!(
        wrong_type_id("m".to_string(), 2, 7),
        OcppCallError(
            4,
            "m".to_string(),
            "ProtocolError".to_string(),
            "Invalid MessageTypeId for Call".to_string(),
            json(r#"{"expected":2,"received":7}"#),
        )
    );
    assert_eq!(
        wrong_type_id("m".to_string(), 3, 4),
        OcppCallError(
            4,
            "m".to_string(),
            "ProtocolError".to_string(),
            "Invalid MessageTypeId for CallResult".to_string(),
            json(r#"{"expected":3,"received":4}"#),
        )
    );
    assert_eq!(
        wrong_type_id("m".to_string(), 4, 2),
        OcppCallError(
            4,
            "m".to_string(),
            "ProtocolError".to_string(),
            "Invalid MessageTypeId for CallError".to_string(),
            json(r#"{"expected":4,"received":2}"#),
        )
    );
    assert_eq!(
        malformed("m".to_string()),
        OcppCallError(
            4,
            "m".to_string(),
            "ProtocolError".to_string(),
            "Malformed frame".to_string(),
            json("{}"),
        )
    );
}

#[test]
fn answers_are_written_as_frames() {
    assert_eq!(outcome_of(CallResponse::Nothing), silent());
    assert_eq!(
        outcome_of(CallResponse::Reject),
        DispatchOutcome::Close(vec![WsMessage::Close(None)])
    );
    let error = OcppCallError(
        4,
        "m".to_string(),
        "NotSupported".to_string(),
        "d".to_string(),
        json("{}"),
    );
    assert_eq!(
        outcome_of(CallResponse::Error(error)),
        DispatchOutcome::Continue(vec![WsMessage::Text(
            r#"[4,"m","NotSupported","d",{}]"#.to_string()
        )])
    );
    // An answer that is not valid is dropped.
    let error = OcppCallError(4, "m".to_string(), "c".to_string(), "d".to_string(), json("[]"));
    assert_eq!(outcome_of(CallResponse::Error(error)), silent());
    let result = OcppCallResult(
        2,
        "m".to_string(),
        OcppPayload::Heartbeat(HeartbeatKind::Response(HeartbeatResponse {
            current_time: new_year(),
        })),
    );
    assert_eq!(outcome_of(CallResponse::Result(result)), silent());
}

#[test]
fn call_errors_are_written_for_the_socket() {
    assert_eq!(
        handle_ocpp_call_error(
            4,
            "x".to_string(),
            "ProtocolError".to_string(),
            "Invalid MessageTypeId for Call".to_string(),
            json(r#"{"expected":2,"received":3}"#),
        ),
        DispatchOutcome::Continue(vec![WsMessage::Text(
            r#"[4,"x","ProtocolError","Invalid MessageTypeId for Call",{"expected":2,"received":3}]"#
                .to_string()
        )])
    );
    assert_eq!(
        handle_ocpp_call_error(3, "x".to_string(), "c".to_string(), "d".to_string(), json("{}")),
        silent()
    );
    assert_eq!(
        handle_ocpp_call_error(4, "x".to_string(), "c".to_string(), "d".to_string(), json("1")),
        silent()
    );
}

#[test]
fn session_steps_at_a_given_time() {
    let allowed = strings(&["SN-allow"]);
    let step = session_step_at(
        SessionState::Open,
        SessionEvent::Inbound(WsMessage::Text(r#"[2,"hb-1","Heartbeat",{}]"#.to_string())),
        &allowed,
        new_year(),
    );
    assert_eq!(step.state, SessionState::Open);
    assert_eq!(
        step.outgoing,
        vec![WsMessage::Text(r#"[3,"hb-1",{"currentTime":"2024-01-01T00:00:00Z"}]"#.to_string())]
    );
    let step = session_step_at(
        SessionState::Open,
        SessionEvent::Inbound(WsMessage::Text(
            r#"[2,"b","BootNotification",{"chargePointModel":"M","chargePointVendor":"V"}]"#
                .to_string(),
        )),
        &allowed,
        new_year(),
    );
    assert_eq!(step.state, SessionState::Closing);
    assert_eq!(step.outgoing, vec![WsMessage::Close(None)]);
    assert_eq!(OUTBOUND_QUEUE_CAPACITY, 64);
}
