//! The message bodies that the central station reads or writes itself.
//!
//! Each is a plain record with the fields of the OCPP 1.6-J schema, and
//! each states the JSON object it is written as. `rust_ocpp` and
//! `serde_json` do the writing and the reading.

use vstd::prelude::*;

use crate::json::JsonValue;
use crate::json::value_json;
use crate::time::serialized_time;
use crate::time::Timestamp;

use rust_ocpp::v1_6::messages::authorize::AuthorizeResponse as WireAuthorizeResponse;
use rust_ocpp::v1_6::messages::boot_notification::BootNotificationRequest as WireBootNotificationRequest;
use rust_ocpp::v1_6::messages::boot_notification::BootNotificationResponse as WireBootNotificationResponse;
use rust_ocpp::v1_6::messages::data_transfer::DataTransferResponse as WireDataTransferResponse;
use rust_ocpp::v1_6::messages::heart_beat::HeartbeatResponse as WireHeartbeatResponse;
use rust_ocpp::v1_6::messages::stop_transaction::StopTransactionResponse as WireStopTransactionResponse;
use rust_ocpp::v1_6::types::AuthorizationStatus as WireAuthorizationStatus;
use rust_ocpp::v1_6::types::DataTransferStatus as WireDataTransferStatus;
use rust_ocpp::v1_6::types::IdTagInfo as WireIdTagInfo;
use rust_ocpp::v1_6::types::RegistrationStatus as WireRegistrationStatus;

verus! {

/// Result of registration in response to a BootNotification request.
#[derive(Debug, Clone, Copy, PartialEq, Eq, Structural)]
pub enum RegistrationStatus {
    Accepted,
    Pending,
    Rejected,
}

/// Status in a response to an Authorize request.
#[derive(Debug, Clone, Copy, PartialEq, Eq, Structural)]
pub enum AuthorizationStatus {
    Accepted,
    Blocked,
    Expired,
    Invalid,
    ConcurrentTx,
}

/// Status in a response to a DataTransfer request.
#[derive(Debug, Clone, Copy, PartialEq, Eq, Structural)]
pub enum DataTransferStatus {
    Accepted,
    Rejected,
    UnknownMessageId,
    UnknownVendorId,
}

impl RegistrationStatus {
    /// The name the status is written as.
    pub open spec fn name(self) -> Seq<char> {
        match self {
            RegistrationStatus::Accepted => "Accepted"@,
            RegistrationStatus::Pending => "Pending"@,
            RegistrationStatus::Rejected => "Rejected"@,
        }
    }
}

impl AuthorizationStatus {
    /// The name the status is written as.
    pub open spec fn name(self) -> Seq<char> {
        match self {
            AuthorizationStatus::Accepted => "Accepted"@,
            AuthorizationStatus::Blocked => "Blocked"@,
            AuthorizationStatus::Expired => "Expired"@,
            AuthorizationStatus::Invalid => "Invalid"@,
            AuthorizationStatus::ConcurrentTx => "ConcurrentTx"@,
        }
    }
}

impl DataTransferStatus {
    /// The name the status is written as.
    pub open spec fn name(self) -> Seq<char> {
        match self {
            DataTransferStatus::Accepted => "Accepted"@,
            DataTransferStatus::Rejected => "Rejected"@,
            DataTransferStatus::UnknownMessageId => "UnknownMessageId"@,
            DataTransferStatus::UnknownVendorId => "UnknownVendorId"@,
        }
    }
}

/// The record that `serde_json::from_value` reads from a value as a
/// BootNotification request, `None` where it reports an error.
pub uninterp spec fn read_boot_notification_request(j: JsonValue) -> Option<
    BootNotificationRequest,
>;

/// The record that `serde_json::from_value` reads from a value as a
/// BootNotification response, `None` where it reports an error.
pub uninterp spec fn read_boot_notification_response(j: JsonValue) -> Option<
    BootNotificationResponse,
>;

/// The record that `serde_json::from_value` reads from a value as a
/// Heartbeat response, `None` where it reports an error.
pub uninterp spec fn read_heartbeat_response(j: JsonValue) -> Option<HeartbeatResponse>;

/// The record that `serde_json::from_value` reads from a value as an
/// Authorize response, `None` where it reports an error.
pub uninterp spec fn read_authorize_response(j: JsonValue) -> Option<AuthorizeResponse>;

/// The record that `serde_json::from_value` reads from a value as a
/// DataTransfer response, `None` where it reports an error.
pub uninterp spec fn read_data_transfer_response(j: JsonValue) -> Option<DataTransferResponse>;

/// The record that `serde_json::from_value` reads from a value as a
/// StopTransaction response, `None` where it reports an error.
pub uninterp spec fn read_stop_transaction_response(j: JsonValue) -> Option<
    StopTransactionResponse,
>;

/// The text of the member `name` of an object, where it is a string.
pub open spec fn member_text(members: Map<Seq<char>, JsonValue>, name: Seq<char>) -> Option<
    Seq<char>,
> {
    if members.contains_key(name) && members[name] is Text {
        Some(members[name]->Text_0)
    } else {
        None
    }
}

/// Whether the member `name` of an object can stand for an optional string:
/// it is absent, null or a string.
pub open spec fn optional_member(members: Map<Seq<char>, JsonValue>, name: Seq<char>) -> bool {
    !members.contains_key(name) || members[name] is Null || members[name] is Text
}

/// Whether an object has the shape of a BootNotification request: model and
/// vendor are strings, and each of the seven optional members is absent,
/// null or a string. Members of other names do not count.
pub open spec fn is_boot_notification_request(members: Map<Seq<char>, JsonValue>) -> bool {
    &&& member_text(members, "chargePointModel"@) is Some
    &&& member_text(members, "chargePointVendor"@) is Some
    &&& optional_member(members, "chargeBoxSerialNumber"@)
    &&& optional_member(members, "chargePointSerialNumber"@)
    &&& optional_member(members, "firmwareVersion"@)
    &&& optional_member(members, "iccid"@)
    &&& optional_member(members, "imsi"@)
    &&& optional_member(members, "meterSerialNumber"@)
    &&& optional_member(members, "meterType"@)
}

/// What reading a value as a BootNotification request gives of the serial
/// number: `None` where the value is not read as the request, else the
/// serial number of the charge point that the request holds, if it holds
/// one.
///
/// An object is read exactly where it has the shape of the request, and
/// the serial number is the text of its member `chargePointSerialNumber`
/// where that is a string. Of any other value, `serde_json` decides.
pub open spec fn boot_notification_serial(j: JsonValue) -> Option<Option<Seq<char>>> {
    match j {
        JsonValue::Object(members) => if is_boot_notification_request(members) {
            Some(member_text(members, "chargePointSerialNumber"@))
        } else {
            None
        },
        _ => match read_boot_notification_request(j) {
            Some(request) => Some(optional_text(request.charge_point_serial_number)),
            None => None,
        },
    }
}

/// The text of an optional string.
pub open spec fn optional_text(text: Option<String>) -> Option<Seq<char>> {
    match text {
        Some(s) => Some(s@),
        None => None,
    }
}

/// `members` with a string member `name` added where `text` is present.
pub open spec fn with_text(
    members: Map<Seq<char>, JsonValue>,
    name: Seq<char>,
    text: Option<String>,
) -> Map<Seq<char>, JsonValue> {
    match text {
        Some(s) => members.insert(name, JsonValue::Text(s@)),
        None => members,
    }
}

/// The serialised form of an instant as a JSON string.
pub open spec fn time_json(t: Timestamp) -> JsonValue {
    JsonValue::Text(serialized_time(t.spec_secs(), t.spec_nanos()))
}

/// The body of a BootNotification request.
#[derive(Debug, Clone, PartialEq)]
pub struct BootNotificationRequest {
    pub charge_box_serial_number: Option<String>,
    pub charge_point_model: String,
    pub charge_point_serial_number: Option<String>,
    pub charge_point_vendor: String,
    pub firmware_version: Option<String>,
    pub iccid: Option<String>,
    pub imsi: Option<String>,
    pub meter_serial_number: Option<String>,
    pub meter_type: Option<String>,
}

/// The body of a BootNotification response.
#[derive(Debug, Clone, PartialEq)]
pub struct BootNotificationResponse {
    pub current_time: Timestamp,
    pub interval: u32,
    pub status: RegistrationStatus,
}

/// Status information about an identifier.
#[derive(Debug, Clone, PartialEq)]
pub struct IdTagInfo {
    pub expiry_date: Option<Timestamp>,
    pub parent_id_tag: Option<String>,
    pub status: AuthorizationStatus,
}

/// The body of an Authorize response.
#[derive(Debug, Clone, PartialEq)]
pub struct AuthorizeResponse {
    pub id_tag_info: IdTagInfo,
}

/// The body of a Heartbeat response.
#[derive(Debug, Clone, PartialEq)]
pub struct HeartbeatResponse {
    pub current_time: Timestamp,
}

/// The body of a DataTransfer response.
#[derive(Debug, Clone, PartialEq)]
pub struct DataTransferResponse {
    pub status: DataTransferStatus,
    pub data: Option<String>,
}

/// The body of a StopTransaction response.
#[derive(Debug, Clone, PartialEq)]
pub struct StopTransactionResponse {
    pub id_tag_info: Option<IdTagInfo>,
}

impl Default for BootNotificationRequest {
    /// A request with empty model and vendor and no optional field.
    fn default() -> (r: Self)
        ensures
            r.charge_box_serial_number is None,
            r.charge_point_model@ == Seq::<char>::empty(),
            r.charge_point_serial_number is None,
            r.charge_point_vendor@ == Seq::<char>::empty(),
            r.firmware_version is None,
            r.iccid is None,
            r.imsi is None,
            r.meter_serial_number is None,
            r.meter_type is None,
    {
        BootNotificationRequest {
            charge_box_serial_number: None,
            charge_point_model: String::new(),
            charge_point_serial_number: None,
            charge_point_vendor: String::new(),
            firmware_version: None,
            iccid: None,
            imsi: None,
            meter_serial_number: None,
            meter_type: None,
        }
    }
}

impl BootNotificationRequest {
    /// Whether the request holds what an object says: model and vendor are
    /// the texts of their members, and every optional field is the text of
    /// its member where that is a string, and absent where it is not.
    pub open spec fn holds(self, members: Map<Seq<char>, JsonValue>) -> bool {
        &&& Some(self.charge_point_model@) == member_text(members, "chargePointModel"@)
        &&& Some(self.charge_point_vendor@) == member_text(members, "chargePointVendor"@)
        &&& optional_text(self.charge_box_serial_number) == member_text(
            members,
            "chargeBoxSerialNumber"@,
        )
        &&& optional_text(self.charge_point_serial_number) == member_text(
            members,
            "chargePointSerialNumber"@,
        )
        &&& optional_text(self.firmware_version) == member_text(members, "firmwareVersion"@)
        &&& optional_text(self.iccid) == member_text(members, "iccid"@)
        &&& optional_text(self.imsi) == member_text(members, "imsi"@)
        &&& optional_text(self.meter_serial_number) == member_text(
            members,
            "meterSerialNumber"@,
        )
        &&& optional_text(self.meter_type) == member_text(members, "meterType"@)
    }

    /// The JSON object of the request: model and vendor always, every other
    /// member only where the field is present.
    pub open spec fn json(self) -> JsonValue {
        let required = Map::<Seq<char>, JsonValue>::empty().insert(
            "chargePointModel"@,
            JsonValue::Text(self.charge_point_model@),
        ).insert("chargePointVendor"@, JsonValue::Text(self.charge_point_vendor@));
        let m1 = with_text(required, "chargeBoxSerialNumber"@, self.charge_box_serial_number);
        let m2 = with_text(m1, "chargePointSerialNumber"@, self.charge_point_serial_number);
        let m3 = with_text(m2, "firmwareVersion"@, self.firmware_version);
        let m4 = with_text(m3, "iccid"@, self.iccid);
        let m5 = with_text(m4, "imsi"@, self.imsi);
        let m6 = with_text(m5, "meterSerialNumber"@, self.meter_serial_number);
        JsonValue::Object(with_text(m6, "meterType"@, self.meter_type))
    }

    /// `serde_json::to_value` on the `rust_ocpp` record with the same
    /// fields. Its serde attributes name the members in camelCase and leave
    /// out absent optional fields.
    /// A value always comes back: the record holds nothing that the writer
    /// of `serde_json` refuses.
    #[verifier::external_body]
    pub(crate) fn to_value(&self) -> (r: Option<serde_json::Value>)
        ensures
            r is Some,
            r matches Some(v) ==> value_json(v) == self.json(),
    {
        serde_json::to_value(WireBootNotificationRequest {
            charge_box_serial_number: self.charge_box_serial_number.clone(),
            charge_point_model: self.charge_point_model.clone(),
            charge_point_serial_number: self.charge_point_serial_number.clone(),
            charge_point_vendor: self.charge_point_vendor.clone(),
            firmware_version: self.firmware_version.clone(),
            iccid: self.iccid.clone(),
            imsi: self.imsi.clone(),
            meter_serial_number: self.meter_serial_number.clone(),
            meter_type: self.meter_type.clone(),
        }).ok()
    }

    /// `serde_json::from_value` at the `rust_ocpp` record, its fields moved
    /// over one for one. `None` where the value does not have the
    /// record's shape. The contract names the record that is read.
    /// Of an object it says more, as the derived reader of the record has
    /// it: the object is read exactly where model and vendor are strings
    /// and every optional member is absent, null or a string, and the
    /// fields are the texts of the members.
    #[verifier::external_body]
    pub(crate) fn from_value(v: serde_json::Value) -> (r: Option<BootNotificationRequest>)
        ensures
            r == read_boot_notification_request(value_json(v)),
            value_json(v) is Object ==> (r is Some <==> is_boot_notification_request(
                value_json(v)->Object_0,
            )),
            value_json(v) is Object ==> (r matches Some(request) ==> request.holds(
                value_json(v)->Object_0,
            )),
    {
        let r: WireBootNotificationRequest = serde_json::from_value(v).ok()?;
        Some(BootNotificationRequest {
            charge_box_serial_number: r.charge_box_serial_number,
            charge_point_model: r.charge_point_model,
            charge_point_serial_number: r.charge_point_serial_number,
            charge_point_vendor: r.charge_point_vendor,
            firmware_version: r.firmware_version,
            iccid: r.iccid,
            imsi: r.imsi,
            meter_serial_number: r.meter_serial_number,
            meter_type: r.meter_type,
        })
    }
}

impl HeartbeatResponse {
    /// The JSON object of the response.
    pub open spec fn json(self) -> JsonValue {
        JsonValue::Object(
            Map::<Seq<char>, JsonValue>::empty().insert("currentTime"@, time_json(self.current_time)),
        )
    }

    /// `serde_json::to_value` on the `rust_ocpp` record with the same
    /// field, the instant as the `DateTime` that
    /// `chrono::DateTime::from_timestamp` makes of it; `chrono` writes the
    /// instant as text.
    /// A value always comes back: the record holds nothing that the writer
    /// of `serde_json` refuses.
    #[verifier::external_body]
    pub(crate) fn to_value(&self) -> (r: Option<serde_json::Value>)
        ensures
            r is Some,
            r matches Some(v) ==> value_json(v) == JsonValue::Object(
                Map::<Seq<char>, JsonValue>::empty().insert(
                    "currentTime"@,
                    JsonValue::Text(
                        serialized_time(self.current_time.spec_secs(), self.current_time.spec_nanos()),
                    ),
                ),
            ),
    {
        let t = &self.current_time;
        let current_time = chrono::DateTime::from_timestamp(t.secs, t.nanos)?;
        serde_json::to_value(WireHeartbeatResponse { current_time }).ok()
    }

    /// `serde_json::from_value` at the `rust_ocpp` record, its field moved
    /// over: the instant by `DateTime::timestamp` and
    /// `DateTime::timestamp_subsec_nanos`. `None` where the value does not
    /// have the record's shape. The contract names the record that is read.
    #[verifier::external_body]
    pub(crate) fn from_value(v: serde_json::Value) -> (r: Option<HeartbeatResponse>)
        ensures
            r == read_heartbeat_response(value_json(v)),
    {
        let r: WireHeartbeatResponse = serde_json::from_value(v).ok()?;
        let t = r.current_time;
        Some(HeartbeatResponse {
            current_time: Timestamp { secs: t.timestamp(), nanos: t.timestamp_subsec_nanos() },
        })
    }
}

impl BootNotificationResponse {
    /// The JSON object of the response.
    pub open spec fn json(self) -> JsonValue {
        JsonValue::Object(
            Map::<Seq<char>, JsonValue>::empty().insert(
                "currentTime"@,
                time_json(self.current_time),
            ).insert("interval"@, JsonValue::Unsigned(self.interval as u64)).insert(
                "status"@,
                JsonValue::Text(self.status.name()),
            ),
        )
    }

    /// `serde_json::to_value` on the `rust_ocpp` record with the same
    /// fields, the instant as the `DateTime` that
    /// `chrono::DateTime::from_timestamp` makes of it; the status is
    /// written by its name.
    /// A value always comes back: the record holds nothing that the writer
    /// of `serde_json` refuses.
    #[verifier::external_body]
    pub(crate) fn to_value(&self) -> (r: Option<serde_json::Value>)
        ensures
            r is Some,
            r matches Some(v) ==> value_json(v) == self.json(),
    {
        let t = &self.current_time;
        let current_time = chrono::DateTime::from_timestamp(t.secs, t.nanos)?;
        let status = match self.status {
            RegistrationStatus::Accepted => WireRegistrationStatus::Accepted,
            RegistrationStatus::Pending => WireRegistrationStatus::Pending,
            RegistrationStatus::Rejected => WireRegistrationStatus::Rejected,
        };
        serde_json::to_value(
            WireBootNotificationResponse { current_time, interval: self.interval, status },
        ).ok()
    }

    /// `serde_json::from_value` at the `rust_ocpp` record, its fields moved
    /// over one for one. `None` where the value does not have the
    /// record's shape. The contract names the record that is read.
    #[verifier::external_body]
    pub(crate) fn from_value(v: serde_json::Value) -> (r: Option<BootNotificationResponse>)
        ensures
            r == read_boot_notification_response(value_json(v)),
    {
        let r: WireBootNotificationResponse = serde_json::from_value(v).ok()?;
        let t = r.current_time;
        let status = match r.status {
            WireRegistrationStatus::Accepted => RegistrationStatus::Accepted,
            WireRegistrationStatus::Pending => RegistrationStatus::Pending,
            WireRegistrationStatus::Rejected => RegistrationStatus::Rejected,
        };
        let current_time = Timestamp { secs: t.timestamp(), nanos: t.timestamp_subsec_nanos() };
        Some(BootNotificationResponse { current_time, interval: r.interval, status })
    }
}

impl IdTagInfo {
    /// The JSON object of the record: the status always, the expiry date
    /// and the parent tag only where present.
    pub open spec fn json(self) -> JsonValue {
        let status = Map::<Seq<char>, JsonValue>::empty().insert(
            "status"@,
            JsonValue::Text(self.status.name()),
        );
        let dated = match self.expiry_date {
            Some(t) => status.insert("expiryDate"@, time_json(t)),
            None => status,
        };
        JsonValue::Object(with_text(dated, "parentIdTag"@, self.parent_id_tag))
    }
}

impl AuthorizeResponse {
    /// The JSON object of the response.
    pub open spec fn json(self) -> JsonValue {
        JsonValue::Object(
            Map::<Seq<char>, JsonValue>::empty().insert("idTagInfo"@, self.id_tag_info.json()),
        )
    }

    /// `serde_json::to_value` on the `rust_ocpp` record with the same
    /// fields. Absent optional fields are left out; the status is written
    /// by its name.
    /// A value always comes back: the record holds nothing that the writer
    /// of `serde_json` refuses.
    #[verifier::external_body]
    pub(crate) fn to_value(&self) -> (r: Option<serde_json::Value>)
        ensures
            r is Some,
            r matches Some(v) ==> value_json(v) == self.json(),
    {
        let i = &self.id_tag_info;
        let status = match i.status {
            AuthorizationStatus::Accepted => WireAuthorizationStatus::Accepted,
            AuthorizationStatus::Blocked => WireAuthorizationStatus::Blocked,
            AuthorizationStatus::Expired => WireAuthorizationStatus::Expired,
            AuthorizationStatus::Invalid => WireAuthorizationStatus::Invalid,
            AuthorizationStatus::ConcurrentTx => WireAuthorizationStatus::ConcurrentTx,
        };
        let expiry_date = match i.expiry_date {
            Some(t) => Some(chrono::DateTime::from_timestamp(t.secs, t.nanos)?),
            None => None,
        };
        let id_tag_info = WireIdTagInfo { expiry_date, parent_id_tag: i.parent_id_tag.clone(), status };
        serde_json::to_value(WireAuthorizeResponse { id_tag_info }).ok()
    }

    /// `serde_json::from_value` at the `rust_ocpp` record, its fields moved
    /// over one for one. `None` where the value does not have the
    /// record's shape. The contract names the record that is read.
    #[verifier::external_body]
    pub(crate) fn from_value(v: serde_json::Value) -> (r: Option<AuthorizeResponse>)
        ensures
            r == read_authorize_response(value_json(v)),
    {
        let r: WireAuthorizeResponse = serde_json::from_value(v).ok()?;
        let status = match r.id_tag_info.status {
            WireAuthorizationStatus::Accepted => AuthorizationStatus::Accepted,
            WireAuthorizationStatus::Blocked => AuthorizationStatus::Blocked,
            WireAuthorizationStatus::Expired => AuthorizationStatus::Expired,
            WireAuthorizationStatus::Invalid => AuthorizationStatus::Invalid,
            WireAuthorizationStatus::ConcurrentTx => AuthorizationStatus::ConcurrentTx,
        };
        let expiry_date = r.id_tag_info.expiry_date.map(|t| Timestamp {
            secs: t.timestamp(),
            nanos: t.timestamp_subsec_nanos(),
        });
        let parent_id_tag = r.id_tag_info.parent_id_tag;
        Some(AuthorizeResponse { id_tag_info: IdTagInfo { expiry_date, parent_id_tag, status } })
    }
}

impl DataTransferResponse {
    /// The JSON object of the response: the status always, the data only
    /// where present.
    pub open spec fn json(self) -> JsonValue {
        JsonValue::Object(
            with_text(
                Map::<Seq<char>, JsonValue>::empty().insert(
                    "status"@,
                    JsonValue::Text(self.status.name()),
                ),
                "data"@,
                self.data,
            ),
        )
    }

    /// `serde_json::to_value` on the `rust_ocpp` record with the same
    /// fields. Absent data is left out; the status is written by its name.
    /// A value always comes back: the record holds nothing that the writer
    /// of `serde_json` refuses.
    #[verifier::external_body]
    pub(crate) fn to_value(&self) -> (r: Option<serde_json::Value>)
        ensures
            r is Some,
            r matches Some(v) ==> value_json(v) == self.json(),
    {
        let status = match self.status {
            DataTransferStatus::Accepted => WireDataTransferStatus::Accepted,
            DataTransferStatus::Rejected => WireDataTransferStatus::Rejected,
            DataTransferStatus::UnknownMessageId => WireDataTransferStatus::UnknownMessageId,
            DataTransferStatus::UnknownVendorId => WireDataTransferStatus::UnknownVendorId,
        };
        serde_json::to_value(WireDataTransferResponse { status, data: self.data.clone() }).ok()
    }

    /// `serde_json::from_value` at the `rust_ocpp` record, its fields moved
    /// over one for one. `None` where the value does not have the
    /// record's shape. The contract names the record that is read.
    #[verifier::external_body]
    pub(crate) fn from_value(v: serde_json::Value) -> (r: Option<DataTransferResponse>)
        ensures
            r == read_data_transfer_response(value_json(v)),
    {
        let r: WireDataTransferResponse = serde_json::from_value(v).ok()?;
        let status = match r.status {
            WireDataTransferStatus::Accepted => DataTransferStatus::Accepted,
            WireDataTransferStatus::Rejected => DataTransferStatus::Rejected,
            WireDataTransferStatus::UnknownMessageId => DataTransferStatus::UnknownMessageId,
            WireDataTransferStatus::UnknownVendorId => DataTransferStatus::UnknownVendorId,
        };
        Some(DataTransferResponse { status, data: r.data })
    }
}

impl StopTransactionResponse {
    /// The JSON object of the response: the identifier's status
    /// information where present, else the empty object.
    pub open spec fn json(self) -> JsonValue {
        match self.id_tag_info {
            Some(info) => JsonValue::Object(
                Map::<Seq<char>, JsonValue>::empty().insert("idTagInfo"@, info.json()),
            ),
            None => JsonValue::Object(Map::<Seq<char>, JsonValue>::empty()),
        }
    }

    /// `serde_json::to_value` on the `rust_ocpp` record with the same
    /// fields. Absent optional fields are left out; the status is written
    /// by its name.
    /// A value always comes back: the record holds nothing that the writer
    /// of `serde_json` refuses.
    #[verifier::external_body]
    pub(crate) fn to_value(&self) -> (r: Option<serde_json::Value>)
        ensures
            r is Some,
            r matches Some(v) ==> value_json(v) == self.json(),
    {
        let id_tag_info = self.id_tag_info.as_ref().map(|i| WireIdTagInfo {
            expiry_date: i.expiry_date.and_then(|t| chrono::DateTime::from_timestamp(t.secs, t.nanos)),
            parent_id_tag: i.parent_id_tag.clone(),
            status: match i.status {
                AuthorizationStatus::Accepted => WireAuthorizationStatus::Accepted,
                AuthorizationStatus::Blocked => WireAuthorizationStatus::Blocked,
                AuthorizationStatus::Expired => WireAuthorizationStatus::Expired,
                AuthorizationStatus::Invalid => WireAuthorizationStatus::Invalid,
                AuthorizationStatus::ConcurrentTx => WireAuthorizationStatus::ConcurrentTx,
            },
        });
        serde_json::to_value(WireStopTransactionResponse { id_tag_info }).ok()
    }

    /// `serde_json::from_value` at the `rust_ocpp` record, its fields moved
    /// over one for one. `None` where the value does not have the
    /// record's shape. The contract names the record that is read.
    #[verifier::external_body]
    pub(crate) fn from_value(v: serde_json::Value) -> (r: Option<StopTransactionResponse>)
        ensures
            r == read_stop_transaction_response(value_json(v)),
    {
        let r: WireStopTransactionResponse = serde_json::from_value(v).ok()?;
        let id_tag_info = r.id_tag_info.map(|i| IdTagInfo {
            expiry_date: i.expiry_date.map(
                |t| Timestamp { secs: t.timestamp(), nanos: t.timestamp_subsec_nanos() },
            ),
            parent_id_tag: i.parent_id_tag,
            status: match i.status {
                WireAuthorizationStatus::Accepted => AuthorizationStatus::Accepted,
                WireAuthorizationStatus::Blocked => AuthorizationStatus::Blocked,
                WireAuthorizationStatus::Expired => AuthorizationStatus::Expired,
                WireAuthorizationStatus::Invalid => AuthorizationStatus::Invalid,
                WireAuthorizationStatus::ConcurrentTx => AuthorizationStatus::ConcurrentTx,
            },
        });
        Some(StopTransactionResponse { id_tag_info })
    }
}

} // verus!
