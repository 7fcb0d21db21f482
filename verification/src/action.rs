//! The closed set of OCPP 1.6-J actions and their wire names.

use vstd::prelude::*;

verus! {

/// `str` equality: two string slices are equal exactly when they hold the
/// same characters.
pub assume_specification[ <str as PartialEq>::eq ](a: &str, b: &str) -> (r: bool)
    ensures
        r == (a@ == b@),
;

/// An OCPP 1.6-J action. The set is closed: a name outside it does not
/// parse.
#[derive(Debug, Clone, Copy, PartialEq, Eq, Structural)]
pub enum OcppActionEnum {
    Authorize,
    BootNotification,
    CancelReservation,
    ChangeAvailability,
    ChangeConfiguration,
    ClearCache,
    ClearChargingProfile,
    DataTransfer,
    DiagnosticsStatusNotification,
    FirmwareStatusNotification,
    GetCompositeSchedule,
    GetConfiguration,
    GetDiagnostics,
    GetLocalListVersion,
    Heartbeat,
    MeterValues,
    RemoteStartTransaction,
    RemoteStopTransaction,
    ReserveNow,
    Reset,
    SendLocalList,
    SetChargingProfile,
    StartTransaction,
    StatusNotification,
    StopTransaction,
    TriggerMessage,
    UnlockConnector,
    UpdateFirmware,
}

/// No action has the given name.
#[derive(Debug, Clone, Copy, PartialEq, Eq, Structural)]
pub enum ParseError {
    VariantNotFound,
}

impl ParseError {
    /// The message of this error.
    pub fn to_string(&self) -> (r: String)
        ensures
            r@ == "Matching variant not found"@,
    {
        "Matching variant not found".to_string()
    }
}

/// The action with the given wire name, if there is one. Names are
/// case-sensitive and have no aliases.
pub open spec fn action_named(name: Seq<char>) -> Option<OcppActionEnum> {
    if name == "Authorize"@ {
        Some(OcppActionEnum::Authorize)
    } else if name == "BootNotification"@ {
        Some(OcppActionEnum::BootNotification)
    } else if name == "CancelReservation"@ {
        Some(OcppActionEnum::CancelReservation)
    } else if name == "ChangeAvailability"@ {
        Some(OcppActionEnum::ChangeAvailability)
    } else if name == "ChangeConfiguration"@ {
        Some(OcppActionEnum::ChangeConfiguration)
    } else if name == "ClearCache"@ {
        Some(OcppActionEnum::ClearCache)
    } else if name == "ClearChargingProfile"@ {
        Some(OcppActionEnum::ClearChargingProfile)
    } else if name == "DataTransfer"@ {
        Some(OcppActionEnum::DataTransfer)
    } else if name == "DiagnosticsStatusNotification"@ {
        Some(OcppActionEnum::DiagnosticsStatusNotification)
    } else if name == "FirmwareStatusNotification"@ {
        Some(OcppActionEnum::FirmwareStatusNotification)
    } else if name == "GetCompositeSchedule"@ {
        Some(OcppActionEnum::GetCompositeSchedule)
    } else if name == "GetConfiguration"@ {
        Some(OcppActionEnum::GetConfiguration)
    } else if name == "GetDiagnostics"@ {
        Some(OcppActionEnum::GetDiagnostics)
    } else if name == "GetLocalListVersion"@ {
        Some(OcppActionEnum::GetLocalListVersion)
    } else if name == "Heartbeat"@ {
        Some(OcppActionEnum::Heartbeat)
    } else if name == "MeterValues"@ {
        Some(OcppActionEnum::MeterValues)
    } else if name == "RemoteStartTransaction"@ {
        Some(OcppActionEnum::RemoteStartTransaction)
    } else if name == "RemoteStopTransaction"@ {
        Some(OcppActionEnum::RemoteStopTransaction)
    } else if name == "ReserveNow"@ {
        Some(OcppActionEnum::ReserveNow)
    } else if name == "Reset"@ {
        Some(OcppActionEnum::Reset)
    } else if name == "SendLocalList"@ {
        Some(OcppActionEnum::SendLocalList)
    } else if name == "SetChargingProfile"@ {
        Some(OcppActionEnum::SetChargingProfile)
    } else if name == "StartTransaction"@ {
        Some(OcppActionEnum::StartTransaction)
    } else if name == "StatusNotification"@ {
        Some(OcppActionEnum::StatusNotification)
    } else if name == "StopTransaction"@ {
        Some(OcppActionEnum::StopTransaction)
    } else if name == "TriggerMessage"@ {
        Some(OcppActionEnum::TriggerMessage)
    } else if name == "UnlockConnector"@ {
        Some(OcppActionEnum::UnlockConnector)
    } else if name == "UpdateFirmware"@ {
        Some(OcppActionEnum::UpdateFirmware)
    } else {
        None
    }
}

impl OcppActionEnum {
    /// The wire name of the action: the variant's name in PascalCase.
    pub open spec fn name(self) -> Seq<char> {
        match self {
            OcppActionEnum::Authorize => "Authorize"@,
            OcppActionEnum::BootNotification => "BootNotification"@,
            OcppActionEnum::CancelReservation => "CancelReservation"@,
            OcppActionEnum::ChangeAvailability => "ChangeAvailability"@,
            OcppActionEnum::ChangeConfiguration => "ChangeConfiguration"@,
            OcppActionEnum::ClearCache => "ClearCache"@,
            OcppActionEnum::ClearChargingProfile => "ClearChargingProfile"@,
            OcppActionEnum::DataTransfer => "DataTransfer"@,
            OcppActionEnum::DiagnosticsStatusNotification => "DiagnosticsStatusNotification"@,
            OcppActionEnum::FirmwareStatusNotification => "FirmwareStatusNotification"@,
            OcppActionEnum::GetCompositeSchedule => "GetCompositeSchedule"@,
            OcppActionEnum::GetConfiguration => "GetConfiguration"@,
            OcppActionEnum::GetDiagnostics => "GetDiagnostics"@,
            OcppActionEnum::GetLocalListVersion => "GetLocalListVersion"@,
            OcppActionEnum::Heartbeat => "Heartbeat"@,
            OcppActionEnum::MeterValues => "MeterValues"@,
            OcppActionEnum::RemoteStartTransaction => "RemoteStartTransaction"@,
            OcppActionEnum::RemoteStopTransaction => "RemoteStopTransaction"@,
            OcppActionEnum::ReserveNow => "ReserveNow"@,
            OcppActionEnum::Reset => "Reset"@,
            OcppActionEnum::SendLocalList => "SendLocalList"@,
            OcppActionEnum::SetChargingProfile => "SetChargingProfile"@,
            OcppActionEnum::StartTransaction => "StartTransaction"@,
            OcppActionEnum::StatusNotification => "StatusNotification"@,
            OcppActionEnum::StopTransaction => "StopTransaction"@,
            OcppActionEnum::TriggerMessage => "TriggerMessage"@,
            OcppActionEnum::UnlockConnector => "UnlockConnector"@,
            OcppActionEnum::UpdateFirmware => "UpdateFirmware"@,
        }
    }

    /// The wire name of the action.
    pub fn as_str(&self) -> (r: &'static str)
        ensures
            r@ == self.name(),
    {
        match self {
            OcppActionEnum::Authorize => "Authorize",
            OcppActionEnum::BootNotification => "BootNotification",
            OcppActionEnum::CancelReservation => "CancelReservation",
            OcppActionEnum::ChangeAvailability => "ChangeAvailability",
            OcppActionEnum::ChangeConfiguration => "ChangeConfiguration",
            OcppActionEnum::ClearCache => "ClearCache",
            OcppActionEnum::ClearChargingProfile => "ClearChargingProfile",
            OcppActionEnum::DataTransfer => "DataTransfer",
            OcppActionEnum::DiagnosticsStatusNotification => "DiagnosticsStatusNotification",
            OcppActionEnum::FirmwareStatusNotification => "FirmwareStatusNotification",
            OcppActionEnum::GetCompositeSchedule => "GetCompositeSchedule",
            OcppActionEnum::GetConfiguration => "GetConfiguration",
            OcppActionEnum::GetDiagnostics => "GetDiagnostics",
            OcppActionEnum::GetLocalListVersion => "GetLocalListVersion",
            OcppActionEnum::Heartbeat => "Heartbeat",
            OcppActionEnum::MeterValues => "MeterValues",
            OcppActionEnum::RemoteStartTransaction => "RemoteStartTransaction",
            OcppActionEnum::RemoteStopTransaction => "RemoteStopTransaction",
            OcppActionEnum::ReserveNow => "ReserveNow",
            OcppActionEnum::Reset => "Reset",
            OcppActionEnum::SendLocalList => "SendLocalList",
            OcppActionEnum::SetChargingProfile => "SetChargingProfile",
            OcppActionEnum::StartTransaction => "StartTransaction",
            OcppActionEnum::StatusNotification => "StatusNotification",
            OcppActionEnum::StopTransaction => "StopTransaction",
            OcppActionEnum::TriggerMessage => "TriggerMessage",
            OcppActionEnum::UnlockConnector => "UnlockConnector",
            OcppActionEnum::UpdateFirmware => "UpdateFirmware",
        }
    }

    /// The wire name of the action, as an owned string.
    pub fn to_string(&self) -> (r: String)
        ensures
            r@ == self.name(),
    {
        self.as_str().to_string()
    }

    /// Parse a wire name. Succeeds exactly on the names of the set.
    pub fn from_str(s: &str) -> (r: Result<OcppActionEnum, ParseError>)
        ensures
            r == match action_named(s@) {
                Some(a) => Ok::<OcppActionEnum, ParseError>(a),
                None => Err::<OcppActionEnum, ParseError>(ParseError::VariantNotFound),
            },
    {
        if s.eq("Authorize") {
            Ok(OcppActionEnum::Authorize)
        } else if s.eq("BootNotification") {
            Ok(OcppActionEnum::BootNotification)
        } else if s.eq("CancelReservation") {
            Ok(OcppActionEnum::CancelReservation)
        } else if s.eq("ChangeAvailability") {
            Ok(OcppActionEnum::ChangeAvailability)
        } else if s.eq("ChangeConfiguration") {
            Ok(OcppActionEnum::ChangeConfiguration)
        } else if s.eq("ClearCache") {
            Ok(OcppActionEnum::ClearCache)
        } else if s.eq("ClearChargingProfile") {
            Ok(OcppActionEnum::ClearChargingProfile)
        } else if s.eq("DataTransfer") {
            Ok(OcppActionEnum::DataTransfer)
        } else if s.eq("DiagnosticsStatusNotification") {
            Ok(OcppActionEnum::DiagnosticsStatusNotification)
        } else if s.eq("FirmwareStatusNotification") {
            Ok(OcppActionEnum::FirmwareStatusNotification)
        } else if s.eq("GetCompositeSchedule") {
            Ok(OcppActionEnum::GetCompositeSchedule)
        } else if s.eq("GetConfiguration") {
            Ok(OcppActionEnum::GetConfiguration)
        } else if s.eq("GetDiagnostics") {
            Ok(OcppActionEnum::GetDiagnostics)
        } else if s.eq("GetLocalListVersion") {
            Ok(OcppActionEnum::GetLocalListVersion)
        } else if s.eq("Heartbeat") {
            Ok(OcppActionEnum::Heartbeat)
        } else if s.eq("MeterValues") {
            Ok(OcppActionEnum::MeterValues)
        } else if s.eq("RemoteStartTransaction") {
            Ok(OcppActionEnum::RemoteStartTransaction)
        } else if s.eq("RemoteStopTransaction") {
            Ok(OcppActionEnum::RemoteStopTransaction)
        } else if s.eq("ReserveNow") {
            Ok(OcppActionEnum::ReserveNow)
        } else if s.eq("Reset") {
            Ok(OcppActionEnum::Reset)
        } else if s.eq("SendLocalList") {
            Ok(OcppActionEnum::SendLocalList)
        } else if s.eq("SetChargingProfile") {
            Ok(OcppActionEnum::SetChargingProfile)
        } else if s.eq("StartTransaction") {
            Ok(OcppActionEnum::StartTransaction)
        } else if s.eq("StatusNotification") {
            Ok(OcppActionEnum::StatusNotification)
        } else if s.eq("StopTransaction") {
            Ok(OcppActionEnum::StopTransaction)
        } else if s.eq("TriggerMessage") {
            Ok(OcppActionEnum::TriggerMessage)
        } else if s.eq("UnlockConnector") {
            Ok(OcppActionEnum::UnlockConnector)
        } else if s.eq("UpdateFirmware") {
            Ok(OcppActionEnum::UpdateFirmware)
        } else {
            Err(ParseError::VariantNotFound)
        }
    }
}

/// The characters of every wire name.
proof fn lemma_wire_names()
    ensures
        "Authorize"@ == seq!['A', 'u', 't', 'h', 'o', 'r', 'i', 'z', 'e'],
        "BootNotification"@ == seq![
            'B', 'o', 'o', 't', 'N', 'o', 't', 'i', 'f', 'i', 'c', 'a', 't', 'i', 'o', 'n',
        ],
        "CancelReservation"@ == seq![
            'C', 'a', 'n', 'c', 'e', 'l', 'R', 'e', 's', 'e', 'r', 'v', 'a', 't', 'i', 'o', 'n',
        ],
        "ChangeAvailability"@ == seq![
            'C', 'h', 'a', 'n', 'g', 'e', 'A', 'v', 'a', 'i', 'l', 'a', 'b', 'i', 'l', 'i', 't',
            'y',
        ],
        "ChangeConfiguration"@ == seq![
            'C', 'h', 'a', 'n', 'g', 'e', 'C', 'o', 'n', 'f', 'i', 'g', 'u', 'r', 'a', 't', 'i',
            'o', 'n',
        ],
        "ClearCache"@ == seq!['C', 'l', 'e', 'a', 'r', 'C', 'a', 'c', 'h', 'e'],
        "ClearChargingProfile"@ == seq![
            'C', 'l', 'e', 'a', 'r', 'C', 'h', 'a', 'r', 'g', 'i', 'n', 'g', 'P', 'r', 'o', 'f',
            'i', 'l', 'e',
        ],
        "DataTransfer"@ == seq!['D', 'a', 't', 'a', 'T', 'r', 'a', 'n', 's', 'f', 'e', 'r'],
        "DiagnosticsStatusNotification"@ == seq![
            'D', 'i', 'a', 'g', 'n', 'o', 's', 't', 'i', 'c', 's', 'S', 't', 'a', 't', 'u', 's',
            'N', 'o', 't', 'i', 'f', 'i', 'c', 'a', 't', 'i', 'o', 'n',
        ],
        "FirmwareStatusNotification"@ == seq![
            'F', 'i', 'r', 'm', 'w', 'a', 'r', 'e', 'S', 't', 'a', 't', 'u', 's', 'N', 'o', 't',
            'i', 'f', 'i', 'c', 'a', 't', 'i', 'o', 'n',
        ],
        "GetCompositeSchedule"@ == seq![
            'G', 'e', 't', 'C', 'o', 'm', 'p', 'o', 's', 'i', 't', 'e', 'S', 'c', 'h', 'e', 'd',
            'u', 'l', 'e',
        ],
        "GetConfiguration"@ == seq![
            'G', 'e', 't', 'C', 'o', 'n', 'f', 'i', 'g', 'u', 'r', 'a', 't', 'i', 'o', 'n',
        ],
        "GetDiagnostics"@ == seq![
            'G', 'e', 't', 'D', 'i', 'a', 'g', 'n', 'o', 's', 't', 'i', 'c', 's',
        ],
        "GetLocalListVersion"@ == seq![
            'G', 'e', 't', 'L', 'o', 'c', 'a', 'l', 'L', 'i', 's', 't', 'V', 'e', 'r', 's', 'i',
            'o', 'n',
        ],
        "Heartbeat"@ == seq!['H', 'e', 'a', 'r', 't', 'b', 'e', 'a', 't'],
        "MeterValues"@ == seq!['M', 'e', 't', 'e', 'r', 'V', 'a', 'l', 'u', 'e', 's'],
        "RemoteStartTransaction"@ == seq![
            'R', 'e', 'm', 'o', 't', 'e', 'S', 't', 'a', 'r', 't', 'T', 'r', 'a', 'n', 's', 'a',
            'c', 't', 'i', 'o', 'n',
        ],
        "RemoteStopTransaction"@ == seq![
            'R', 'e', 'm', 'o', 't', 'e', 'S', 't', 'o', 'p', 'T', 'r', 'a', 'n', 's', 'a', 'c',
            't', 'i', 'o', 'n',
        ],
        "ReserveNow"@ == seq!['R', 'e', 's', 'e', 'r', 'v', 'e', 'N', 'o', 'w'],
        "Reset"@ == seq!['R', 'e', 's', 'e', 't'],
        "SendLocalList"@ == seq!['S', 'e', 'n', 'd', 'L', 'o', 'c', 'a', 'l', 'L', 'i', 's', 't'],
        "SetChargingProfile"@ == seq![
            'S', 'e', 't', 'C', 'h', 'a', 'r', 'g', 'i', 'n', 'g', 'P', 'r', 'o', 'f', 'i', 'l',
            'e',
        ],
        "StartTransaction"@ == seq![
            'S', 't', 'a', 'r', 't', 'T', 'r', 'a', 'n', 's', 'a', 'c', 't', 'i', 'o', 'n',
        ],
        "StatusNotification"@ == seq![
            'S', 't', 'a', 't', 'u', 's', 'N', 'o', 't', 'i', 'f', 'i', 'c', 'a', 't', 'i', 'o',
            'n',
        ],
        "StopTransaction"@ == seq![
            'S', 't', 'o', 'p', 'T', 'r', 'a', 'n', 's', 'a', 'c', 't', 'i', 'o', 'n',
        ],
        "TriggerMessage"@ == seq![
            'T', 'r', 'i', 'g', 'g', 'e', 'r', 'M', 'e', 's', 's', 'a', 'g', 'e',
        ],
        "UnlockConnector"@ == seq![
            'U', 'n', 'l', 'o', 'c', 'k', 'C', 'o', 'n', 'n', 'e', 'c', 't', 'o', 'r',
        ],
        "UpdateFirmware"@ == seq![
            'U', 'p', 'd', 'a', 't', 'e', 'F', 'i', 'r', 'm', 'w', 'a', 'r', 'e',
        ],
{
    reveal_strlit("Authorize");
    reveal_strlit("BootNotification");
    reveal_strlit("CancelReservation");
    reveal_strlit("ChangeAvailability");
    reveal_strlit("ChangeConfiguration");
    reveal_strlit("ClearCache");
    reveal_strlit("ClearChargingProfile");
    reveal_strlit("DataTransfer");
    reveal_strlit("DiagnosticsStatusNotification");
    reveal_strlit("FirmwareStatusNotification");
    reveal_strlit("GetCompositeSchedule");
    reveal_strlit("GetConfiguration");
    reveal_strlit("GetDiagnostics");
    reveal_strlit("GetLocalListVersion");
    reveal_strlit("Heartbeat");
    reveal_strlit("MeterValues");
    reveal_strlit("RemoteStartTransaction");
    reveal_strlit("RemoteStopTransaction");
    reveal_strlit("ReserveNow");
    reveal_strlit("Reset");
    reveal_strlit("SendLocalList");
    reveal_strlit("SetChargingProfile");
    reveal_strlit("StartTransaction");
    reveal_strlit("StatusNotification");
    reveal_strlit("StopTransaction");
    reveal_strlit("TriggerMessage");
    reveal_strlit("UnlockConnector");
    reveal_strlit("UpdateFirmware");
    assert("Authorize"@ =~= seq!['A', 'u', 't', 'h', 'o', 'r', 'i', 'z', 'e']);
    assert("BootNotification"@ =~= seq![
        'B', 'o', 'o', 't', 'N', 'o', 't', 'i', 'f', 'i', 'c', 'a', 't', 'i', 'o', 'n',
    ]);
    assert("CancelReservation"@ =~= seq![
        'C', 'a', 'n', 'c', 'e', 'l', 'R', 'e', 's', 'e', 'r', 'v', 'a', 't', 'i', 'o', 'n',
    ]);
    assert("ChangeAvailability"@ =~= seq![
        'C', 'h', 'a', 'n', 'g', 'e', 'A', 'v', 'a', 'i', 'l', 'a', 'b', 'i', 'l', 'i', 't',
        'y',
    ]);
    assert("ChangeConfiguration"@ =~= seq![
        'C', 'h', 'a', 'n', 'g', 'e', 'C', 'o', 'n', 'f', 'i', 'g', 'u', 'r', 'a', 't', 'i',
        'o', 'n',
    ]);
    assert("ClearCache"@ =~= seq!['C', 'l', 'e', 'a', 'r', 'C', 'a', 'c', 'h', 'e']);
    assert("ClearChargingProfile"@ =~= seq![
        'C', 'l', 'e', 'a', 'r', 'C', 'h', 'a', 'r', 'g', 'i', 'n', 'g', 'P', 'r', 'o', 'f',
        'i', 'l', 'e',
    ]);
    assert("DataTransfer"@ =~= seq!['D', 'a', 't', 'a', 'T', 'r', 'a', 'n', 's', 'f', 'e', 'r']);
    assert("DiagnosticsStatusNotification"@ =~= seq![
        'D', 'i', 'a', 'g', 'n', 'o', 's', 't', 'i', 'c', 's', 'S', 't', 'a', 't', 'u', 's',
        'N', 'o', 't', 'i', 'f', 'i', 'c', 'a', 't', 'i', 'o', 'n',
    ]);
    assert("FirmwareStatusNotification"@ =~= seq![
        'F', 'i', 'r', 'm', 'w', 'a', 'r', 'e', 'S', 't', 'a', 't', 'u', 's', 'N', 'o', 't',
        'i', 'f', 'i', 'c', 'a', 't', 'i', 'o', 'n',
    ]);
    assert("GetCompositeSchedule"@ =~= seq![
        'G', 'e', 't', 'C', 'o', 'm', 'p', 'o', 's', 'i', 't', 'e', 'S', 'c', 'h', 'e', 'd',
        'u', 'l', 'e',
    ]);
    assert("GetConfiguration"@ =~= seq![
        'G', 'e', 't', 'C', 'o', 'n', 'f', 'i', 'g', 'u', 'r', 'a', 't', 'i', 'o', 'n',
    ]);
    assert("GetDiagnostics"@ =~= seq![
        'G', 'e', 't', 'D', 'i', 'a', 'g', 'n', 'o', 's', 't', 'i', 'c', 's',
    ]);
    assert("GetLocalListVersion"@ =~= seq![
        'G', 'e', 't', 'L', 'o', 'c', 'a', 'l', 'L', 'i', 's', 't', 'V', 'e', 'r', 's', 'i',
        'o', 'n',
    ]);
    assert("Heartbeat"@ =~= seq!['H', 'e', 'a', 'r', 't', 'b', 'e', 'a', 't']);
    assert("MeterValues"@ =~= seq!['M', 'e', 't', 'e', 'r', 'V', 'a', 'l', 'u', 'e', 's']);
    assert("RemoteStartTransaction"@ =~= seq![
        'R', 'e', 'm', 'o', 't', 'e', 'S', 't', 'a', 'r', 't', 'T', 'r', 'a', 'n', 's', 'a',
        'c', 't', 'i', 'o', 'n',
    ]);
    assert("RemoteStopTransaction"@ =~= seq![
        'R', 'e', 'm', 'o', 't', 'e', 'S', 't', 'o', 'p', 'T', 'r', 'a', 'n', 's', 'a', 'c',
        't', 'i', 'o', 'n',
    ]);
    assert("ReserveNow"@ =~= seq!['R', 'e', 's', 'e', 'r', 'v', 'e', 'N', 'o', 'w']);
    assert("Reset"@ =~= seq!['R', 'e', 's', 'e', 't']);
    assert("SendLocalList"@ =~= seq![
        'S', 'e', 'n', 'd', 'L', 'o', 'c', 'a', 'l', 'L', 'i', 's', 't',
    ]);
    assert("SetChargingProfile"@ =~= seq![
        'S', 'e', 't', 'C', 'h', 'a', 'r', 'g', 'i', 'n', 'g', 'P', 'r', 'o', 'f', 'i', 'l',
        'e',
    ]);
    assert("StartTransaction"@ =~= seq![
        'S', 't', 'a', 'r', 't', 'T', 'r', 'a', 'n', 's', 'a', 'c', 't', 'i', 'o', 'n',
    ]);
    assert("StatusNotification"@ =~= seq![
        'S', 't', 'a', 't', 'u', 's', 'N', 'o', 't', 'i', 'f', 'i', 'c', 'a', 't', 'i', 'o',
        'n',
    ]);
    assert("StopTransaction"@ =~= seq![
        'S', 't', 'o', 'p', 'T', 'r', 'a', 'n', 's', 'a', 'c', 't', 'i', 'o', 'n',
    ]);
    assert("TriggerMessage"@ =~= seq![
        'T', 'r', 'i', 'g', 'g', 'e', 'r', 'M', 'e', 's', 's', 'a', 'g', 'e',
    ]);
    assert("UnlockConnector"@ =~= seq![
        'U', 'n', 'l', 'o', 'c', 'k', 'C', 'o', 'n', 'n', 'e', 'c', 't', 'o', 'r',
    ]);
    assert("UpdateFirmware"@ =~= seq![
        'U', 'p', 'd', 'a', 't', 'e', 'F', 'i', 'r', 'm', 'w', 'a', 'r', 'e',
    ]);
}

/// Parsing the wire name of an action gives that action back.
pub proof fn lemma_parse_of_name(a: OcppActionEnum)
    ensures
        action_named(a.name()) == Some(a),
{
    lemma_wire_names();
}

/// A name parses to an action only if it is that action's wire name, so
/// printing what was parsed gives the name back.
pub proof fn lemma_name_of_parse(name: Seq<char>)
    ensures
        action_named(name) matches Some(a) ==> a.name() == name,
{
}

/// Two actions with the same wire name are the same action.
pub proof fn lemma_names_differ(a: OcppActionEnum, b: OcppActionEnum)
    requires
        a.name() == b.name(),
    ensures
        a == b,
{
    lemma_parse_of_name(a);
    lemma_parse_of_name(b);
}

} // verus!
