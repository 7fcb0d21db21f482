use occp_ws::action::{OcppActionEnum, ParseError};

const ALL: [(OcppActionEnum, &str); 28] = [
    (OcppActionEnum::Authorize, "Authorize"),
    (OcppActionEnum::BootNotification, "BootNotification"),
    (OcppActionEnum::CancelReservation, "CancelReservation"),
    (OcppActionEnum::ChangeAvailability, "ChangeAvailability"),
    (OcppActionEnum::ChangeConfiguration, "ChangeConfiguration"),
    (OcppActionEnum::ClearCache, "ClearCache"),
    (OcppActionEnum::ClearChargingProfile, "ClearChargingProfile"),
    (OcppActionEnum::DataTransfer, "DataTransfer"),
    (OcppActionEnum::DiagnosticsStatusNotification, "DiagnosticsStatusNotification"),
    (OcppActionEnum::FirmwareStatusNotification, "FirmwareStatusNotification"),
    (OcppActionEnum::GetCompositeSchedule, "GetCompositeSchedule"),
    (OcppActionEnum::GetConfiguration, "GetConfiguration"),
    (OcppActionEnum::GetDiagnostics, "GetDiagnostics"),
    (OcppActionEnum::GetLocalListVersion, "GetLocalListVersion"),
    (OcppActionEnum::Heartbeat, "Heartbeat"),
    (OcppActionEnum::MeterValues, "MeterValues"),
    (OcppActionEnum::RemoteStartTransaction, "RemoteStartTransaction"),
    (OcppActionEnum::RemoteStopTransaction, "RemoteStopTransaction"),
    (OcppActionEnum::ReserveNow, "ReserveNow"),
    (OcppActionEnum::Reset, "Reset"),
    (OcppActionEnum::SendLocalList, "SendLocalList"),
    (OcppActionEnum::SetChargingProfile, "SetChargingProfile"),
    (OcppActionEnum::StartTransaction, "StartTransaction"),
    (OcppActionEnum::StatusNotification, "StatusNotification"),
    (OcppActionEnum::StopTransaction, "StopTransaction"),
    (OcppActionEnum::TriggerMessage, "TriggerMessage"),
    (OcppActionEnum::UnlockConnector, "UnlockConnector"),
    (OcppActionEnum::UpdateFirmware, "UpdateFirmware"),
];

#[test]
fn every_action_prints_its_wire_name() {
    for (action, name) in ALL {
        assert_eq!(action.as_str(), name);
        assert_eq!(action.to_string(), name);
    }
}

#[test]
fn every_wire_name_parses_to_its_action() {
    for (action, name) in ALL {
        assert_eq!(OcppActionEnum::from_str(name), Ok(action));
    }
}

#[test]
fn parsing_and_printing_are_inverse() {
    for (action, name) in ALL {
        assert_eq!(OcppActionEnum::from_str(&action.to_string()), Ok(action));
        assert_eq!(OcppActionEnum::from_str(name).unwrap().to_string(), name);
    }
}

#[test]
fn names_are_case_sensitive_and_have_no_aliases() {
    for name in [
        "heartbeat",
        "HEARTBEAT",
        "Heartbeat ",
        " Heartbeat",
        "HeartBeat",
        "bootNotification",
        "Boot",
        "NotARealAction",
        "",
        "Authorize\u{0}",
    ] {
        assert_eq!(OcppActionEnum::from_str(name), Err(ParseError::VariantNotFound));
    }
}

#[test]
fn parse_error_has_a_message() {
    assert_eq!(ParseError::VariantNotFound.to_string(), "Matching variant not found");
}
