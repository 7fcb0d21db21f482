use chrono::{TimeZone, Utc};
use occp_ws::action::OcppActionEnum;
use occp_ws::codec::decode_envelope;
use occp_ws::payload::{decode_payload, BootNotificationKind, Direction, OcppPayload};
use occp_ws::records::{BootNotificationRequest, BootNotificationResponse, RegistrationStatus};
use occp_ws::time::Timestamp;
use occp_ws::types::{OcppCall, OcppCallResult, OcppMessageType};
use serde_json::Value;

fn json(text: &str) -> Value {
    serde_json::from_str(text).expect("expected value is JSON")
}

#[test]
fn serializes_call_as_ocpp_array() {
    let payload = OcppPayload::BootNotification(BootNotificationKind::Request(
        BootNotificationRequest {
            charge_point_model: "ModelX".to_string(),
            charge_point_vendor: "AcmeCorp".to_string(),
            ..Default::default()
        },
    ));

    let call = OcppCall(2, "123".to_string(), OcppActionEnum::BootNotification, payload);

    let framed = json(&call.encode().expect("serialize call"));

    assert_eq!(
        framed,
        json(
            r#"[2, "123", "BootNotification", {"chargePointModel": "ModelX", "chargePointVendor": "AcmeCorp"}]"#
        )
    );
}

#[test]
fn deserializes_call_from_ocpp_array() {
    let raw = r#"[2, "123", "BootNotification", {"chargePointModel": "ModelX", "chargePointVendor": "AcmeCorp"}]"#;

    let parsed: OcppMessageType = decode_envelope(raw).expect("deserialize call frame");

    match parsed {
        OcppMessageType::Call(mt, id, action, payload) => {
            assert_eq!(mt, 2);
            assert_eq!(id, "123");
            assert_eq!(action, "BootNotification");

            let payload: OcppPayload =
                decode_payload(OcppActionEnum::BootNotification, Direction::Request, payload)
                    .expect("parse payload");
            match payload {
                OcppPayload::BootNotification(BootNotificationKind::Request(body)) => {
                    assert_eq!(body.charge_point_model, "ModelX");
                    assert_eq!(body.charge_point_vendor, "AcmeCorp");
                }
                other => panic!("unexpected payload: {other:?}"),
            }
        }
        other => panic!("unexpected message type: {other:?}"),
    }
}

#[test]
fn serializes_call_result_as_ocpp_array() {
    let ts = Utc.with_ymd_and_hms(2024, 1, 1, 0, 0, 0).unwrap();

    let payload = OcppPayload::BootNotification(BootNotificationKind::Response(
        BootNotificationResponse {
            status: RegistrationStatus::Accepted,
            current_time: Timestamp::new(ts.timestamp(), ts.timestamp_subsec_nanos()).unwrap(),
            interval: 300,
        },
    ));

    let call_result = OcppCallResult(3, "abc".to_string(), payload);

    let framed = json(&call_result.encode().expect("serialize call result"));

    assert_eq!(
        framed,
        json(
            r#"[3, "abc", {"status": "Accepted", "currentTime": "2024-01-01T00:00:00Z", "interval": 300}]"#
        )
    );
}
