//! The payload of a message: one variant per action, each either the
//! request or the response of that action.
//!
//! On the wire a payload is a bare JSON object; which record it is follows
//! from the action and the direction, never from its shape alone.
//!
//! Six records are held by the library with their fields (see `records`).
//! Every other record is one of `rust_ocpp`, carried as it is: it is read
//! and written by `serde_json`, one function for each record.

use vstd::prelude::*;

use crate::action::OcppActionEnum;
use crate::json::JsonValue;
use crate::json::value_json;
use crate::records::AuthorizeResponse;
use crate::records::boot_notification_serial;
use crate::records::BootNotificationRequest;
use crate::records::BootNotificationResponse;
use crate::records::DataTransferResponse;
use crate::records::HeartbeatResponse;
use crate::records::read_authorize_response;
use crate::records::read_boot_notification_request;
use crate::records::read_boot_notification_response;
use crate::records::read_data_transfer_response;
use crate::records::read_heartbeat_response;
use crate::records::read_stop_transaction_response;
use crate::records::StopTransactionResponse;

use rust_ocpp::v1_6::messages::authorize::AuthorizeRequest;
use rust_ocpp::v1_6::messages::cancel_reservation::CancelReservationRequest;
use rust_ocpp::v1_6::messages::cancel_reservation::CancelReservationResponse;
use rust_ocpp::v1_6::messages::change_availability::ChangeAvailabilityRequest;
use rust_ocpp::v1_6::messages::change_availability::ChangeAvailabilityResponse;
use rust_ocpp::v1_6::messages::change_configuration::ChangeConfigurationRequest;
use rust_ocpp::v1_6::messages::change_configuration::ChangeConfigurationResponse;
use rust_ocpp::v1_6::messages::clear_cache::ClearCacheRequest;
use rust_ocpp::v1_6::messages::clear_cache::ClearCacheResponse;
use rust_ocpp::v1_6::messages::clear_charging_profile::ClearChargingProfileRequest;
use rust_ocpp::v1_6::messages::clear_charging_profile::ClearChargingProfileResponse;
use rust_ocpp::v1_6::messages::data_transfer::DataTransferRequest;
use rust_ocpp::v1_6::messages::diagnostics_status_notification::DiagnosticsStatusNotificationRequest;
use rust_ocpp::v1_6::messages::diagnostics_status_notification::DiagnosticsStatusNotificationResponse;
use rust_ocpp::v1_6::messages::firmware_status_notification::FirmwareStatusNotificationRequest;
use rust_ocpp::v1_6::messages::firmware_status_notification::FirmwareStatusNotificationResponse;
use rust_ocpp::v1_6::messages::get_composite_schedule::GetCompositeScheduleRequest;
use rust_ocpp::v1_6::messages::get_composite_schedule::GetCompositeScheduleResponse;
use rust_ocpp::v1_6::messages::get_configuration::GetConfigurationRequest;
use rust_ocpp::v1_6::messages::get_configuration::GetConfigurationResponse;
use rust_ocpp::v1_6::messages::get_diagnostics::GetDiagnosticsRequest;
use rust_ocpp::v1_6::messages::get_diagnostics::GetDiagnosticsResponse;
use rust_ocpp::v1_6::messages::get_local_list_version::GetLocalListVersionRequest;
use rust_ocpp::v1_6::messages::get_local_list_version::GetLocalListVersionResponse;
use rust_ocpp::v1_6::messages::heart_beat::HeartbeatRequest;
use rust_ocpp::v1_6::messages::meter_values::MeterValuesRequest;
use rust_ocpp::v1_6::messages::meter_values::MeterValuesResponse;
use rust_ocpp::v1_6::messages::remote_start_transaction::RemoteStartTransactionRequest;
use rust_ocpp::v1_6::messages::remote_start_transaction::RemoteStartTransactionResponse;
use rust_ocpp::v1_6::messages::remote_stop_transaction::RemoteStopTransactionRequest;
use rust_ocpp::v1_6::messages::remote_stop_transaction::RemoteStopTransactionResponse;
use rust_ocpp::v1_6::messages::reserve_now::ReserveNowRequest;
use rust_ocpp::v1_6::messages::reserve_now::ReserveNowResponse;
use rust_ocpp::v1_6::messages::reset::ResetRequest;
use rust_ocpp::v1_6::messages::reset::ResetResponse;
use rust_ocpp::v1_6::messages::send_local_list::SendLocalListRequest;
use rust_ocpp::v1_6::messages::send_local_list::SendLocalListResponse;
use rust_ocpp::v1_6::messages::set_charging_profile::SetChargingProfileRequest;
use rust_ocpp::v1_6::messages::set_charging_profile::SetChargingProfileResponse;
use rust_ocpp::v1_6::messages::start_transaction::StartTransactionRequest;
use rust_ocpp::v1_6::messages::start_transaction::StartTransactionResponse;
use rust_ocpp::v1_6::messages::status_notification::StatusNotificationRequest;
use rust_ocpp::v1_6::messages::status_notification::StatusNotificationResponse;
use rust_ocpp::v1_6::messages::stop_transaction::StopTransactionRequest;
use rust_ocpp::v1_6::messages::trigger_message::TriggerMessageRequest;
use rust_ocpp::v1_6::messages::trigger_message::TriggerMessageResponse;
use rust_ocpp::v1_6::messages::unlock_connector::UnlockConnectorRequest;
use rust_ocpp::v1_6::messages::unlock_connector::UnlockConnectorResponse;
use rust_ocpp::v1_6::messages::update_firmware::UpdateFirmwareRequest;
use rust_ocpp::v1_6::messages::update_firmware::UpdateFirmwareResponse;

verus! {

/// Which side of an exchange a payload belongs to.
#[derive(Debug, Clone, Copy, PartialEq, Eq, Structural)]
pub enum Direction {
    Request,
    Response,
}

/// A payload could not be read as the record that the action and the
/// direction call for, or could not be written.
#[derive(Debug, Clone, Copy, PartialEq, Eq, Structural)]
pub enum PayloadError {
    /// The value does not have the shape of the expected record.
    FormationViolation,
    /// The record could not be written as JSON.
    NotSerializable,
}

/// Whether `serde_json::from_value` reads a value as the carried record of
/// an action and a direction, rather than reporting an error.
pub uninterp spec fn carried_is_read(
    action: OcppActionEnum,
    direction: Direction,
    j: JsonValue,
) -> bool;

/// `serde_json::from_value` at
/// `AuthorizeRequest`.
/// The contract names whether the value is read.
#[verifier::external_body]
fn authorize_request_from(value: serde_json::Value) -> (r: Option<AuthorizeRequest>)
    ensures
        r is Some <==> carried_is_read(
            OcppActionEnum::Authorize,
            Direction::Request,
            value_json(value),
        ),
{
    serde_json::from_value(value).ok()
}

/// `serde_json::to_value` on a
/// `AuthorizeRequest`.
/// A value always comes back: the record holds nothing that the writer of
/// `serde_json` refuses.
#[verifier::external_body]
fn authorize_request_value(body: &AuthorizeRequest) -> (r: Option<serde_json::Value>)
    ensures
        r is Some,
{
    serde_json::to_value(body).ok()
}

/// `serde_json::from_value` at
/// `CancelReservationRequest`.
/// The contract names whether the value is read.
#[verifier::external_body]
fn cancel_reservation_request_from(
    value: serde_json::Value,
) -> (r: Option<CancelReservationRequest>)
    ensures
        r is Some <==> carried_is_read(
            OcppActionEnum::CancelReservation,
            Direction::Request,
            value_json(value),
        ),
{
    serde_json::from_value(value).ok()
}

/// `serde_json::to_value` on a
/// `CancelReservationRequest`.
/// A value always comes back: the record holds nothing that the writer of
/// `serde_json` refuses.
#[verifier::external_body]
fn cancel_reservation_request_value(
    body: &CancelReservationRequest,
) -> (r: Option<serde_json::Value>)
    ensures
        r is Some,
{
    serde_json::to_value(body).ok()
}

/// `serde_json::from_value` at
/// `CancelReservationResponse`.
/// The contract names whether the value is read.
#[verifier::external_body]
fn cancel_reservation_response_from(
    value: serde_json::Value,
) -> (r: Option<CancelReservationResponse>)
    ensures
        r is Some <==> carried_is_read(
            OcppActionEnum::CancelReservation,
            Direction::Response,
            value_json(value),
        ),
{
    serde_json::from_value(value).ok()
}

/// `serde_json::to_value` on a
/// `CancelReservationResponse`.
/// A value always comes back: the record holds nothing that the writer of
/// `serde_json` refuses.
#[verifier::external_body]
fn cancel_reservation_response_value(
    body: &CancelReservationResponse,
) -> (r: Option<serde_json::Value>)
    ensures
        r is Some,
{
    serde_json::to_value(body).ok()
}

/// `serde_json::from_value` at
/// `ChangeAvailabilityRequest`.
/// The contract names whether the value is read.
#[verifier::external_body]
fn change_availability_request_from(
    value: serde_json::Value,
) -> (r: Option<ChangeAvailabilityRequest>)
    ensures
        r is Some <==> carried_is_read(
            OcppActionEnum::ChangeAvailability,
            Direction::Request,
            value_json(value),
        ),
{
    serde_json::from_value(value).ok()
}

/// `serde_json::to_value` on a
/// `ChangeAvailabilityRequest`.
/// A value always comes back: the record holds nothing that the writer of
/// `serde_json` refuses.
#[verifier::external_body]
fn change_availability_request_value(
    body: &ChangeAvailabilityRequest,
) -> (r: Option<serde_json::Value>)
    ensures
        r is Some,
{
    serde_json::to_value(body).ok()
}

/// `serde_json::from_value` at
/// `ChangeAvailabilityResponse`.
/// The contract names whether the value is read.
#[verifier::external_body]
fn change_availability_response_from(
    value: serde_json::Value,
) -> (r: Option<ChangeAvailabilityResponse>)
    ensures
        r is Some <==> carried_is_read(
            OcppActionEnum::ChangeAvailability,
            Direction::Response,
            value_json(value),
        ),
{
    serde_json::from_value(value).ok()
}

/// `serde_json::to_value` on a
/// `ChangeAvailabilityResponse`.
/// A value always comes back: the record holds nothing that the writer of
/// `serde_json` refuses.
#[verifier::external_body]
fn change_availability_response_value(
    body: &ChangeAvailabilityResponse,
) -> (r: Option<serde_json::Value>)
    ensures
        r is Some,
{
    serde_json::to_value(body).ok()
}

/// `serde_json::from_value` at
/// `ChangeConfigurationRequest`.
/// The contract names whether the value is read.
#[verifier::external_body]
fn change_configuration_request_from(
    value: serde_json::Value,
) -> (r: Option<ChangeConfigurationRequest>)
    ensures
        r is Some <==> carried_is_read(
            OcppActionEnum::ChangeConfiguration,
            Direction::Request,
            value_json(value),
        ),
{
    serde_json::from_value(value).ok()
}

/// `serde_json::to_value` on a
/// `ChangeConfigurationRequest`.
/// A value always comes back: the record holds nothing that the writer of
/// `serde_json` refuses.
#[verifier::external_body]
fn change_configuration_request_value(
    body: &ChangeConfigurationRequest,
) -> (r: Option<serde_json::Value>)
    ensures
        r is Some,
{
    serde_json::to_value(body).ok()
}

/// `serde_json::from_value` at
/// `ChangeConfigurationResponse`.
/// The contract names whether the value is read.
#[verifier::external_body]
fn change_configuration_response_from(
    value: serde_json::Value,
) -> (r: Option<ChangeConfigurationResponse>)
    ensures
        r is Some <==> carried_is_read(
            OcppActionEnum::ChangeConfiguration,
            Direction::Response,
            value_json(value),
        ),
{
    serde_json::from_value(value).ok()
}

/// `serde_json::to_value` on a
/// `ChangeConfigurationResponse`.
/// A value always comes back: the record holds nothing that the writer of
/// `serde_json` refuses.
#[verifier::external_body]
fn change_configuration_response_value(
    body: &ChangeConfigurationResponse,
) -> (r: Option<serde_json::Value>)
    ensures
        r is Some,
{
    serde_json::to_value(body).ok()
}

/// `serde_json::from_value` at
/// `ClearCacheRequest`.
/// The contract names whether the value is read.
#[verifier::external_body]
fn clear_cache_request_from(value: serde_json::Value) -> (r: Option<ClearCacheRequest>)
    ensures
        r is Some <==> carried_is_read(
            OcppActionEnum::ClearCache,
            Direction::Request,
            value_json(value),
        ),
{
    serde_json::from_value(value).ok()
}

/// `serde_json::to_value` on a
/// `ClearCacheRequest`.
/// A value always comes back: the record holds nothing that the writer of
/// `serde_json` refuses.
#[verifier::external_body]
fn clear_cache_request_value(body: &ClearCacheRequest) -> (r: Option<serde_json::Value>)
    ensures
        r is Some,
{
    serde_json::to_value(body).ok()
}

/// `serde_json::from_value` at
/// `ClearCacheResponse`.
/// The contract names whether the value is read.
#[verifier::external_body]
fn clear_cache_response_from(value: serde_json::Value) -> (r: Option<ClearCacheResponse>)
    ensures
        r is Some <==> carried_is_read(
            OcppActionEnum::ClearCache,
            Direction::Response,
            value_json(value),
        ),
{
    serde_json::from_value(value).ok()
}

/// `serde_json::to_value` on a
/// `ClearCacheResponse`.
/// A value always comes back: the record holds nothing that the writer of
/// `serde_json` refuses.
#[verifier::external_body]
fn clear_cache_response_value(body: &ClearCacheResponse) -> (r: Option<serde_json::Value>)
    ensures
        r is Some,
{
    serde_json::to_value(body).ok()
}

/// `serde_json::from_value` at
/// `ClearChargingProfileRequest`.
/// The contract names whether the value is read.
#[verifier::external_body]
fn clear_charging_profile_request_from(
    value: serde_json::Value,
) -> (r: Option<ClearChargingProfileRequest>)
    ensures
        r is Some <==> carried_is_read(
            OcppActionEnum::ClearChargingProfile,
            Direction::Request,
            value_json(value),
        ),
{
    serde_json::from_value(value).ok()
}

/// `serde_json::to_value` on a
/// `ClearChargingProfileRequest`.
/// A value always comes back: the record holds nothing that the writer of
/// `serde_json` refuses.
#[verifier::external_body]
fn clear_charging_profile_request_value(
    body: &ClearChargingProfileRequest,
) -> (r: Option<serde_json::Value>)
    ensures
        r is Some,
{
    serde_json::to_value(body).ok()
}

/// `serde_json::from_value` at
/// `ClearChargingProfileResponse`.
/// The contract names whether the value is read.
#[verifier::external_body]
fn clear_charging_profile_response_from(
    value: serde_json::Value,
) -> (r: Option<ClearChargingProfileResponse>)
    ensures
        r is Some <==> carried_is_read(
            OcppActionEnum::ClearChargingProfile,
            Direction::Response,
            value_json(value),
        ),
{
    serde_json::from_value(value).ok()
}

/// `serde_json::to_value` on a
/// `ClearChargingProfileResponse`.
/// A value always comes back: the record holds nothing that the writer of
/// `serde_json` refuses.
#[verifier::external_body]
fn clear_charging_profile_response_value(
    body: &ClearChargingProfileResponse,
) -> (r: Option<serde_json::Value>)
    ensures
        r is Some,
{
    serde_json::to_value(body).ok()
}

/// `serde_json::from_value` at
/// `DataTransferRequest`.
/// The contract names whether the value is read.
#[verifier::external_body]
fn data_transfer_request_from(value: serde_json::Value) -> (r: Option<DataTransferRequest>)
    ensures
        r is Some <==> carried_is_read(
            OcppActionEnum::DataTransfer,
            Direction::Request,
            value_json(value),
        ),
{
    serde_json::from_value(value).ok()
}

/// `serde_json::to_value` on a
/// `DataTransferRequest`.
/// A value always comes back: the record holds nothing that the writer of
/// `serde_json` refuses.
#[verifier::external_body]
fn data_transfer_request_value(body: &DataTransferRequest) -> (r: Option<serde_json::Value>)
    ensures
        r is Some,
{
    serde_json::to_value(body).ok()
}

/// `serde_json::from_value` at
/// `DiagnosticsStatusNotificationRequest`.
/// The contract names whether the value is read.
#[verifier::external_body]
fn diagnostics_status_notification_request_from(
    value: serde_json::Value,
) -> (r: Option<DiagnosticsStatusNotificationRequest>)
    ensures
        r is Some <==> carried_is_read(
            OcppActionEnum::DiagnosticsStatusNotification,
            Direction::Request,
            value_json(value),
        ),
{
    serde_json::from_value(value).ok()
}

/// `serde_json::to_value` on a
/// `DiagnosticsStatusNotificationRequest`.
/// A value always comes back: the record holds nothing that the writer of
/// `serde_json` refuses.
#[verifier::external_body]
fn diagnostics_status_notification_request_value(
    body: &DiagnosticsStatusNotificationRequest,
) -> (r: Option<serde_json::Value>)
    ensures
        r is Some,
{
    serde_json::to_value(body).ok()
}

/// `serde_json::from_value` at
/// `DiagnosticsStatusNotificationResponse`.
/// The contract names whether the value is read.
#[verifier::external_body]
fn diagnostics_status_notification_response_from(
    value: serde_json::Value,
) -> (r: Option<DiagnosticsStatusNotificationResponse>)
    ensures
        r is Some <==> carried_is_read(
            OcppActionEnum::DiagnosticsStatusNotification,
            Direction::Response,
            value_json(value),
        ),
{
    serde_json::from_value(value).ok()
}

/// `serde_json::to_value` on a
/// `DiagnosticsStatusNotificationResponse`.
/// A value always comes back: the record holds nothing that the writer of
/// `serde_json` refuses.
#[verifier::external_body]
fn diagnostics_status_notification_response_value(
    body: &DiagnosticsStatusNotificationResponse,
) -> (r: Option<serde_json::Value>)
    ensures
        r is Some,
{
    serde_json::to_value(body).ok()
}

/// `serde_json::from_value` at
/// `FirmwareStatusNotificationRequest`.
/// The contract names whether the value is read.
#[verifier::external_body]
fn firmware_status_notification_request_from(
    value: serde_json::Value,
) -> (r: Option<FirmwareStatusNotificationRequest>)
    ensures
        r is Some <==> carried_is_read(
            OcppActionEnum::FirmwareStatusNotification,
            Direction::Request,
            value_json(value),
        ),
{
    serde_json::from_value(value).ok()
}

/// `serde_json::to_value` on a
/// `FirmwareStatusNotificationRequest`.
/// A value always comes back: the record holds nothing that the writer of
/// `serde_json` refuses.
#[verifier::external_body]
fn firmware_status_notification_request_value(
    body: &FirmwareStatusNotificationRequest,
) -> (r: Option<serde_json::Value>)
    ensures
        r is Some,
{
    serde_json::to_value(body).ok()
}

/// `serde_json::from_value` at
/// `FirmwareStatusNotificationResponse`.
/// The contract names whether the value is read.
#[verifier::external_body]
fn firmware_status_notification_response_from(
    value: serde_json::Value,
) -> (r: Option<FirmwareStatusNotificationResponse>)
    ensures
        r is Some <==> carried_is_read(
            OcppActionEnum::FirmwareStatusNotification,
            Direction::Response,
            value_json(value),
        ),
{
    serde_json::from_value(value).ok()
}

/// `serde_json::to_value` on a
/// `FirmwareStatusNotificationResponse`.
/// A value always comes back: the record holds nothing that the writer of
/// `serde_json` refuses.
#[verifier::external_body]
fn firmware_status_notification_response_value(
    body: &FirmwareStatusNotificationResponse,
) -> (r: Option<serde_json::Value>)
    ensures
        r is Some,
{
    serde_json::to_value(body).ok()
}

/// `serde_json::from_value` at
/// `GetCompositeScheduleRequest`.
/// The contract names whether the value is read.
#[verifier::external_body]
fn get_composite_schedule_request_from(
    value: serde_json::Value,
) -> (r: Option<GetCompositeScheduleRequest>)
    ensures
        r is Some <==> carried_is_read(
            OcppActionEnum::GetCompositeSchedule,
            Direction::Request,
            value_json(value),
        ),
{
    serde_json::from_value(value).ok()
}

/// `serde_json::to_value` on a
/// `GetCompositeScheduleRequest`.
/// A value always comes back: the record holds nothing that the writer of
/// `serde_json` refuses.
#[verifier::external_body]
fn get_composite_schedule_request_value(
    body: &GetCompositeScheduleRequest,
) -> (r: Option<serde_json::Value>)
    ensures
        r is Some,
{
    serde_json::to_value(body).ok()
}

/// `serde_json::from_value` at
/// `GetCompositeScheduleResponse`.
/// The contract names whether the value is read.
#[verifier::external_body]
fn get_composite_schedule_response_from(
    value: serde_json::Value,
) -> (r: Option<GetCompositeScheduleResponse>)
    ensures
        r is Some <==> carried_is_read(
            OcppActionEnum::GetCompositeSchedule,
            Direction::Response,
            value_json(value),
        ),
{
    serde_json::from_value(value).ok()
}

/// `serde_json::to_value` on a
/// `GetCompositeScheduleResponse`.
/// Nothing is promised of it: the record holds decimal numbers, and
/// writing one has a path that reports an error.
#[verifier::external_body]
fn get_composite_schedule_response_value(
    body: &GetCompositeScheduleResponse,
) -> (r: Option<serde_json::Value>) {
    serde_json::to_value(body).ok()
}

/// `serde_json::from_value` at
/// `GetConfigurationRequest`.
/// The contract names whether the value is read.
#[verifier::external_body]
fn get_configuration_request_from(value: serde_json::Value) -> (r: Option<GetConfigurationRequest>)
    ensures
        r is Some <==> carried_is_read(
            OcppActionEnum::GetConfiguration,
            Direction::Request,
            value_json(value),
        ),
{
    serde_json::from_value(value).ok()
}

/// `serde_json::to_value` on a
/// `GetConfigurationRequest`.
/// A value always comes back: the record holds nothing that the writer of
/// `serde_json` refuses.
#[verifier::external_body]
fn get_configuration_request_value(body: &GetConfigurationRequest) -> (r: Option<serde_json::Value>)
    ensures
        r is Some,
{
    serde_json::to_value(body).ok()
}

/// `serde_json::from_value` at
/// `GetConfigurationResponse`.
/// The contract names whether the value is read.
#[verifier::external_body]
fn get_configuration_response_from(
    value: serde_json::Value,
) -> (r: Option<GetConfigurationResponse>)
    ensures
        r is Some <==> carried_is_read(
            OcppActionEnum::GetConfiguration,
            Direction::Response,
            value_json(value),
        ),
{
    serde_json::from_value(value).ok()
}

/// `serde_json::to_value` on a
/// `GetConfigurationResponse`.
/// A value always comes back: the record holds nothing that the writer of
/// `serde_json` refuses.
#[verifier::external_body]
fn get_configuration_response_value(
    body: &GetConfigurationResponse,
) -> (r: Option<serde_json::Value>)
    ensures
        r is Some,
{
    serde_json::to_value(body).ok()
}

/// `serde_json::from_value` at
/// `GetDiagnosticsRequest`.
/// The contract names whether the value is read.
#[verifier::external_body]
fn get_diagnostics_request_from(value: serde_json::Value) -> (r: Option<GetDiagnosticsRequest>)
    ensures
        r is Some <==> carried_is_read(
            OcppActionEnum::GetDiagnostics,
            Direction::Request,
            value_json(value),
        ),
{
    serde_json::from_value(value).ok()
}

/// `serde_json::to_value` on a
/// `GetDiagnosticsRequest`.
/// A value always comes back: the record holds nothing that the writer of
/// `serde_json` refuses.
#[verifier::external_body]
fn get_diagnostics_request_value(body: &GetDiagnosticsRequest) -> (r: Option<serde_json::Value>)
    ensures
        r is Some,
{
    serde_json::to_value(body).ok()
}

/// `serde_json::from_value` at
/// `GetDiagnosticsResponse`.
/// The contract names whether the value is read.
#[verifier::external_body]
fn get_diagnostics_response_from(value: serde_json::Value) -> (r: Option<GetDiagnosticsResponse>)
    ensures
        r is Some <==> carried_is_read(
            OcppActionEnum::GetDiagnostics,
            Direction::Response,
            value_json(value),
        ),
{
    serde_json::from_value(value).ok()
}

/// `serde_json::to_value` on a
/// `GetDiagnosticsResponse`.
/// A value always comes back: the record holds nothing that the writer of
/// `serde_json` refuses.
#[verifier::external_body]
fn get_diagnostics_response_value(body: &GetDiagnosticsResponse) -> (r: Option<serde_json::Value>)
    ensures
        r is Some,
{
    serde_json::to_value(body).ok()
}

/// `serde_json::from_value` at
/// `GetLocalListVersionRequest`.
/// The contract names whether the value is read.
#[verifier::external_body]
fn get_local_list_version_request_from(
    value: serde_json::Value,
) -> (r: Option<GetLocalListVersionRequest>)
    ensures
        r is Some <==> carried_is_read(
            OcppActionEnum::GetLocalListVersion,
            Direction::Request,
            value_json(value),
        ),
{
    serde_json::from_value(value).ok()
}

/// `serde_json::to_value` on a
/// `GetLocalListVersionRequest`.
/// A value always comes back: the record holds nothing that the writer of
/// `serde_json` refuses.
#[verifier::external_body]
fn get_local_list_version_request_value(
    body: &GetLocalListVersionRequest,
) -> (r: Option<serde_json::Value>)
    ensures
        r is Some,
{
    serde_json::to_value(body).ok()
}

/// `serde_json::from_value` at
/// `GetLocalListVersionResponse`.
/// The contract names whether the value is read.
#[verifier::external_body]
fn get_local_list_version_response_from(
    value: serde_json::Value,
) -> (r: Option<GetLocalListVersionResponse>)
    ensures
        r is Some <==> carried_is_read(
            OcppActionEnum::GetLocalListVersion,
            Direction::Response,
            value_json(value),
        ),
{
    serde_json::from_value(value).ok()
}

/// `serde_json::to_value` on a
/// `GetLocalListVersionResponse`.
/// A value always comes back: the record holds nothing that the writer of
/// `serde_json` refuses.
#[verifier::external_body]
fn get_local_list_version_response_value(
    body: &GetLocalListVersionResponse,
) -> (r: Option<serde_json::Value>)
    ensures
        r is Some,
{
    serde_json::to_value(body).ok()
}

/// `serde_json::from_value` at
/// `HeartbeatRequest`.
/// The contract names whether the value is read.
#[verifier::external_body]
fn heartbeat_request_from(value: serde_json::Value) -> (r: Option<HeartbeatRequest>)
    ensures
        r is Some <==> carried_is_read(
            OcppActionEnum::Heartbeat,
            Direction::Request,
            value_json(value),
        ),
{
    serde_json::from_value(value).ok()
}

/// `serde_json::to_value` on a
/// `HeartbeatRequest`.
/// A value always comes back: the record holds nothing that the writer of
/// `serde_json` refuses.
#[verifier::external_body]
fn heartbeat_request_value(body: &HeartbeatRequest) -> (r: Option<serde_json::Value>)
    ensures
        r is Some,
{
    serde_json::to_value(body).ok()
}

/// `serde_json::from_value` at
/// `MeterValuesRequest`.
/// The contract names whether the value is read.
#[verifier::external_body]
fn meter_values_request_from(value: serde_json::Value) -> (r: Option<MeterValuesRequest>)
    ensures
        r is Some <==> carried_is_read(
            OcppActionEnum::MeterValues,
            Direction::Request,
            value_json(value),
        ),
{
    serde_json::from_value(value).ok()
}

/// `serde_json::to_value` on a
/// `MeterValuesRequest`.
/// A value always comes back: the record holds nothing that the writer of
/// `serde_json` refuses.
#[verifier::external_body]
fn meter_values_request_value(body: &MeterValuesRequest) -> (r: Option<serde_json::Value>)
    ensures
        r is Some,
{
    serde_json::to_value(body).ok()
}

/// `serde_json::from_value` at
/// `MeterValuesResponse`.
/// The contract names whether the value is read.
#[verifier::external_body]
fn meter_values_response_from(value: serde_json::Value) -> (r: Option<MeterValuesResponse>)
    ensures
        r is Some <==> carried_is_read(
            OcppActionEnum::MeterValues,
            Direction::Response,
            value_json(value),
        ),
{
    serde_json::from_value(value).ok()
}

/// `serde_json::to_value` on a
/// `MeterValuesResponse`.
/// A value always comes back: the record holds nothing that the writer of
/// `serde_json` refuses.
#[verifier::external_body]
fn meter_values_response_value(body: &MeterValuesResponse) -> (r: Option<serde_json::Value>)
    ensures
        r is Some,
{
    serde_json::to_value(body).ok()
}

/// `serde_json::from_value` at
/// `RemoteStartTransactionRequest`.
/// The contract names whether the value is read.
#[verifier::external_body]
fn remote_start_transaction_request_from(
    value: serde_json::Value,
) -> (r: Option<RemoteStartTransactionRequest>)
    ensures
        r is Some <==> carried_is_read(
            OcppActionEnum::RemoteStartTransaction,
            Direction::Request,
            value_json(value),
        ),
{
    serde_json::from_value(value).ok()
}

/// `serde_json::to_value` on a
/// `RemoteStartTransactionRequest`.
/// Nothing is promised of it: the record holds decimal numbers, and
/// writing one has a path that reports an error.
#[verifier::external_body]
fn remote_start_transaction_request_value(
    body: &RemoteStartTransactionRequest,
) -> (r: Option<serde_json::Value>) {
    serde_json::to_value(body).ok()
}

/// `serde_json::from_value` at
/// `RemoteStartTransactionResponse`.
/// The contract names whether the value is read.
#[verifier::external_body]
fn remote_start_transaction_response_from(
    value: serde_json::Value,
) -> (r: Option<RemoteStartTransactionResponse>)
    ensures
        r is Some <==> carried_is_read(
            OcppActionEnum::RemoteStartTransaction,
            Direction::Response,
            value_json(value),
        ),
{
    serde_json::from_value(value).ok()
}

/// `serde_json::to_value` on a
/// `RemoteStartTransactionResponse`.
/// A value always comes back: the record holds nothing that the writer of
/// `serde_json` refuses.
#[verifier::external_body]
fn remote_start_transaction_response_value(
    body: &RemoteStartTransactionResponse,
) -> (r: Option<serde_json::Value>)
    ensures
        r is Some,
{
    serde_json::to_value(body).ok()
}

/// `serde_json::from_value` at
/// `RemoteStopTransactionRequest`.
/// The contract names whether the value is read.
#[verifier::external_body]
fn remote_stop_transaction_request_from(
    value: serde_json::Value,
) -> (r: Option<RemoteStopTransactionRequest>)
    ensures
        r is Some <==> carried_is_read(
            OcppActionEnum::RemoteStopTransaction,
            Direction::Request,
            value_json(value),
        ),
{
    serde_json::from_value(value).ok()
}

/// `serde_json::to_value` on a
/// `RemoteStopTransactionRequest`.
/// A value always comes back: the record holds nothing that the writer of
/// `serde_json` refuses.
#[verifier::external_body]
fn remote_stop_transaction_request_value(
    body: &RemoteStopTransactionRequest,
) -> (r: Option<serde_json::Value>)
    ensures
        r is Some,
{
    serde_json::to_value(body).ok()
}

/// `serde_json::from_value` at
/// `RemoteStopTransactionResponse`.
/// The contract names whether the value is read.
#[verifier::external_body]
fn remote_stop_transaction_response_from(
    value: serde_json::Value,
) -> (r: Option<RemoteStopTransactionResponse>)
    ensures
        r is Some <==> carried_is_read(
            OcppActionEnum::RemoteStopTransaction,
            Direction::Response,
            value_json(value),
        ),
{
    serde_json::from_value(value).ok()
}

/// `serde_json::to_value` on a
/// `RemoteStopTransactionResponse`.
/// A value always comes back: the record holds nothing that the writer of
/// `serde_json` refuses.
#[verifier::external_body]
fn remote_stop_transaction_response_value(
    body: &RemoteStopTransactionResponse,
) -> (r: Option<serde_json::Value>)
    ensures
        r is Some,
{
    serde_json::to_value(body).ok()
}

/// `serde_json::from_value` at
/// `ReserveNowRequest`.
/// The contract names whether the value is read.
#[verifier::external_body]
fn reserve_now_request_from(value: serde_json::Value) -> (r: Option<ReserveNowRequest>)
    ensures
        r is Some <==> carried_is_read(
            OcppActionEnum::ReserveNow,
            Direction::Request,
            value_json(value),
        ),
{
    serde_json::from_value(value).ok()
}

/// `serde_json::to_value` on a
/// `ReserveNowRequest`.
/// A value always comes back: the record holds nothing that the writer of
/// `serde_json` refuses.
#[verifier::external_body]
fn reserve_now_request_value(body: &ReserveNowRequest) -> (r: Option<serde_json::Value>)
    ensures
        r is Some,
{
    serde_json::to_value(body).ok()
}

/// `serde_json::from_value` at
/// `ReserveNowResponse`.
/// The contract names whether the value is read.
#[verifier::external_body]
fn reserve_now_response_from(value: serde_json::Value) -> (r: Option<ReserveNowResponse>)
    ensures
        r is Some <==> carried_is_read(
            OcppActionEnum::ReserveNow,
            Direction::Response,
            value_json(value),
        ),
{
    serde_json::from_value(value).ok()
}

/// `serde_json::to_value` on a
/// `ReserveNowResponse`.
/// A value always comes back: the record holds nothing that the writer of
/// `serde_json` refuses.
#[verifier::external_body]
fn reserve_now_response_value(body: &ReserveNowResponse) -> (r: Option<serde_json::Value>)
    ensures
        r is Some,
{
    serde_json::to_value(body).ok()
}

/// `serde_json::from_value` at
/// `ResetRequest`.
/// The contract names whether the value is read.
#[verifier::external_body]
fn reset_request_from(value: serde_json::Value) -> (r: Option<ResetRequest>)
    ensures
        r is Some <==> carried_is_read(
            OcppActionEnum::Reset,
            Direction::Request,
            value_json(value),
        ),
{
    serde_json::from_value(value).ok()
}

/// `serde_json::to_value` on a
/// `ResetRequest`.
/// A value always comes back: the record holds nothing that the writer of
/// `serde_json` refuses.
#[verifier::external_body]
fn reset_request_value(body: &ResetRequest) -> (r: Option<serde_json::Value>)
    ensures
        r is Some,
{
    serde_json::to_value(body).ok()
}

/// `serde_json::from_value` at
/// `ResetResponse`.
/// The contract names whether the value is read.
#[verifier::external_body]
fn reset_response_from(value: serde_json::Value) -> (r: Option<ResetResponse>)
    ensures
        r is Some <==> carried_is_read(
            OcppActionEnum::Reset,
            Direction::Response,
            value_json(value),
        ),
{
    serde_json::from_value(value).ok()
}

/// `serde_json::to_value` on a
/// `ResetResponse`.
/// A value always comes back: the record holds nothing that the writer of
/// `serde_json` refuses.
#[verifier::external_body]
fn reset_response_value(body: &ResetResponse) -> (r: Option<serde_json::Value>)
    ensures
        r is Some,
{
    serde_json::to_value(body).ok()
}

/// `serde_json::from_value` at
/// `SendLocalListRequest`.
/// The contract names whether the value is read.
#[verifier::external_body]
fn send_local_list_request_from(value: serde_json::Value) -> (r: Option<SendLocalListRequest>)
    ensures
        r is Some <==> carried_is_read(
            OcppActionEnum::SendLocalList,
            Direction::Request,
            value_json(value),
        ),
{
    serde_json::from_value(value).ok()
}

/// `serde_json::to_value` on a
/// `SendLocalListRequest`.
/// A value always comes back: the record holds nothing that the writer of
/// `serde_json` refuses.
#[verifier::external_body]
fn send_local_list_request_value(body: &SendLocalListRequest) -> (r: Option<serde_json::Value>)
    ensures
        r is Some,
{
    serde_json::to_value(body).ok()
}

/// `serde_json::from_value` at
/// `SendLocalListResponse`.
/// The contract names whether the value is read.
#[verifier::external_body]
fn send_local_list_response_from(value: serde_json::Value) -> (r: Option<SendLocalListResponse>)
    ensures
        r is Some <==> carried_is_read(
            OcppActionEnum::SendLocalList,
            Direction::Response,
            value_json(value),
        ),
{
    serde_json::from_value(value).ok()
}

/// `serde_json::to_value` on a
/// `SendLocalListResponse`.
/// A value always comes back: the record holds nothing that the writer of
/// `serde_json` refuses.
#[verifier::external_body]
fn send_local_list_response_value(body: &SendLocalListResponse) -> (r: Option<serde_json::Value>)
    ensures
        r is Some,
{
    serde_json::to_value(body).ok()
}

/// `serde_json::from_value` at
/// `SetChargingProfileRequest`.
/// The contract names whether the value is read.
#[verifier::external_body]
fn set_charging_profile_request_from(
    value: serde_json::Value,
) -> (r: Option<SetChargingProfileRequest>)
    ensures
        r is Some <==> carried_is_read(
            OcppActionEnum::SetChargingProfile,
            Direction::Request,
            value_json(value),
        ),
{
    serde_json::from_value(value).ok()
}

/// `serde_json::to_value` on a
/// `SetChargingProfileRequest`.
/// Nothing is promised of it: the record holds decimal numbers, and
/// writing one has a path that reports an error.
#[verifier::external_body]
fn set_charging_profile_request_value(
    body: &SetChargingProfileRequest,
) -> (r: Option<serde_json::Value>) {
    serde_json::to_value(body).ok()
}

/// `serde_json::from_value` at
/// `SetChargingProfileResponse`.
/// The contract names whether the value is read.
#[verifier::external_body]
fn set_charging_profile_response_from(
    value: serde_json::Value,
) -> (r: Option<SetChargingProfileResponse>)
    ensures
        r is Some <==> carried_is_read(
            OcppActionEnum::SetChargingProfile,
            Direction::Response,
            value_json(value),
        ),
{
    serde_json::from_value(value).ok()
}

/// `serde_json::to_value` on a
/// `SetChargingProfileResponse`.
/// A value always comes back: the record holds nothing that the writer of
/// `serde_json` refuses.
#[verifier::external_body]
fn set_charging_profile_response_value(
    body: &SetChargingProfileResponse,
) -> (r: Option<serde_json::Value>)
    ensures
        r is Some,
{
    serde_json::to_value(body).ok()
}

/// `serde_json::from_value` at
/// `StartTransactionRequest`.
/// The contract names whether the value is read.
#[verifier::external_body]
fn start_transaction_request_from(value: serde_json::Value) -> (r: Option<StartTransactionRequest>)
    ensures
        r is Some <==> carried_is_read(
            OcppActionEnum::StartTransaction,
            Direction::Request,
            value_json(value),
        ),
{
    serde_json::from_value(value).ok()
}

/// `serde_json::to_value` on a
/// `StartTransactionRequest`.
/// A value always comes back: the record holds nothing that the writer of
/// `serde_json` refuses.
#[verifier::external_body]
fn start_transaction_request_value(body: &StartTransactionRequest) -> (r: Option<serde_json::Value>)
    ensures
        r is Some,
{
    serde_json::to_value(body).ok()
}

/// `serde_json::from_value` at
/// `StartTransactionResponse`.
/// The contract names whether the value is read.
#[verifier::external_body]
fn start_transaction_response_from(
    value: serde_json::Value,
) -> (r: Option<StartTransactionResponse>)
    ensures
        r is Some <==> carried_is_read(
            OcppActionEnum::StartTransaction,
            Direction::Response,
            value_json(value),
        ),
{
    serde_json::from_value(value).ok()
}

/// `serde_json::to_value` on a
/// `StartTransactionResponse`.
/// A value always comes back: the record holds nothing that the writer of
/// `serde_json` refuses.
#[verifier::external_body]
fn start_transaction_response_value(
    body: &StartTransactionResponse,
) -> (r: Option<serde_json::Value>)
    ensures
        r is Some,
{
    serde_json::to_value(body).ok()
}

/// `serde_json::from_value` at
/// `StatusNotificationRequest`.
/// The contract names whether the value is read.
#[verifier::external_body]
fn status_notification_request_from(
    value: serde_json::Value,
) -> (r: Option<StatusNotificationRequest>)
    ensures
        r is Some <==> carried_is_read(
            OcppActionEnum::StatusNotification,
            Direction::Request,
            value_json(value),
        ),
{
    serde_json::from_value(value).ok()
}

/// `serde_json::to_value` on a
/// `StatusNotificationRequest`.
/// A value always comes back: the record holds nothing that the writer of
/// `serde_json` refuses.
#[verifier::external_body]
fn status_notification_request_value(
    body: &StatusNotificationRequest,
) -> (r: Option<serde_json::Value>)
    ensures
        r is Some,
{
    serde_json::to_value(body).ok()
}

/// `serde_json::from_value` at
/// `StatusNotificationResponse`.
/// The contract names whether the value is read.
#[verifier::external_body]
fn status_notification_response_from(
    value: serde_json::Value,
) -> (r: Option<StatusNotificationResponse>)
    ensures
        r is Some <==> carried_is_read(
            OcppActionEnum::StatusNotification,
            Direction::Response,
            value_json(value),
        ),
{
    serde_json::from_value(value).ok()
}

/// `serde_json::to_value` on a
/// `StatusNotificationResponse`.
/// A value always comes back: the record holds nothing that the writer of
/// `serde_json` refuses.
#[verifier::external_body]
fn status_notification_response_value(
    body: &StatusNotificationResponse,
) -> (r: Option<serde_json::Value>)
    ensures
        r is Some,
{
    serde_json::to_value(body).ok()
}

/// `serde_json::from_value` at
/// `StopTransactionRequest`.
/// The contract names whether the value is read.
#[verifier::external_body]
fn stop_transaction_request_from(value: serde_json::Value) -> (r: Option<StopTransactionRequest>)
    ensures
        r is Some <==> carried_is_read(
            OcppActionEnum::StopTransaction,
            Direction::Request,
            value_json(value),
        ),
{
    serde_json::from_value(value).ok()
}

/// `serde_json::to_value` on a
/// `StopTransactionRequest`.
/// A value always comes back: the record holds nothing that the writer of
/// `serde_json` refuses.
#[verifier::external_body]
fn stop_transaction_request_value(body: &StopTransactionRequest) -> (r: Option<serde_json::Value>)
    ensures
        r is Some,
{
    serde_json::to_value(body).ok()
}

/// `serde_json::from_value` at
/// `TriggerMessageRequest`.
/// The contract names whether the value is read.
#[verifier::external_body]
fn trigger_message_request_from(value: serde_json::Value) -> (r: Option<TriggerMessageRequest>)
    ensures
        r is Some <==> carried_is_read(
            OcppActionEnum::TriggerMessage,
            Direction::Request,
            value_json(value),
        ),
{
    serde_json::from_value(value).ok()
}

/// `serde_json::to_value` on a
/// `TriggerMessageRequest`.
/// A value always comes back: the record holds nothing that the writer of
/// `serde_json` refuses.
#[verifier::external_body]
fn trigger_message_request_value(body: &TriggerMessageRequest) -> (r: Option<serde_json::Value>)
    ensures
        r is Some,
{
    serde_json::to_value(body).ok()
}

/// `serde_json::from_value` at
/// `TriggerMessageResponse`.
/// The contract names whether the value is read.
#[verifier::external_body]
fn trigger_message_response_from(value: serde_json::Value) -> (r: Option<TriggerMessageResponse>)
    ensures
        r is Some <==> carried_is_read(
            OcppActionEnum::TriggerMessage,
            Direction::Response,
            value_json(value),
        ),
{
    serde_json::from_value(value).ok()
}

/// `serde_json::to_value` on a
/// `TriggerMessageResponse`.
/// A value always comes back: the record holds nothing that the writer of
/// `serde_json` refuses.
#[verifier::external_body]
fn trigger_message_response_value(body: &TriggerMessageResponse) -> (r: Option<serde_json::Value>)
    ensures
        r is Some,
{
    serde_json::to_value(body).ok()
}

/// `serde_json::from_value` at
/// `UnlockConnectorRequest`.
/// The contract names whether the value is read.
#[verifier::external_body]
fn unlock_connector_request_from(value: serde_json::Value) -> (r: Option<UnlockConnectorRequest>)
    ensures
        r is Some <==> carried_is_read(
            OcppActionEnum::UnlockConnector,
            Direction::Request,
            value_json(value),
        ),
{
    serde_json::from_value(value).ok()
}

/// `serde_json::to_value` on a
/// `UnlockConnectorRequest`.
/// A value always comes back: the record holds nothing that the writer of
/// `serde_json` refuses.
#[verifier::external_body]
fn unlock_connector_request_value(body: &UnlockConnectorRequest) -> (r: Option<serde_json::Value>)
    ensures
        r is Some,
{
    serde_json::to_value(body).ok()
}

/// `serde_json::from_value` at
/// `UnlockConnectorResponse`.
/// The contract names whether the value is read.
#[verifier::external_body]
fn unlock_connector_response_from(value: serde_json::Value) -> (r: Option<UnlockConnectorResponse>)
    ensures
        r is Some <==> carried_is_read(
            OcppActionEnum::UnlockConnector,
            Direction::Response,
            value_json(value),
        ),
{
    serde_json::from_value(value).ok()
}

/// `serde_json::to_value` on a
/// `UnlockConnectorResponse`.
/// A value always comes back: the record holds nothing that the writer of
/// `serde_json` refuses.
#[verifier::external_body]
fn unlock_connector_response_value(body: &UnlockConnectorResponse) -> (r: Option<serde_json::Value>)
    ensures
        r is Some,
{
    serde_json::to_value(body).ok()
}

/// `serde_json::from_value` at
/// `UpdateFirmwareRequest`.
/// The contract names whether the value is read.
#[verifier::external_body]
fn update_firmware_request_from(value: serde_json::Value) -> (r: Option<UpdateFirmwareRequest>)
    ensures
        r is Some <==> carried_is_read(
            OcppActionEnum::UpdateFirmware,
            Direction::Request,
            value_json(value),
        ),
{
    serde_json::from_value(value).ok()
}

/// `serde_json::to_value` on a
/// `UpdateFirmwareRequest`.
/// A value always comes back: the record holds nothing that the writer of
/// `serde_json` refuses.
#[verifier::external_body]
fn update_firmware_request_value(body: &UpdateFirmwareRequest) -> (r: Option<serde_json::Value>)
    ensures
        r is Some,
{
    serde_json::to_value(body).ok()
}

/// `serde_json::from_value` at
/// `UpdateFirmwareResponse`.
/// The contract names whether the value is read.
#[verifier::external_body]
fn update_firmware_response_from(value: serde_json::Value) -> (r: Option<UpdateFirmwareResponse>)
    ensures
        r is Some <==> carried_is_read(
            OcppActionEnum::UpdateFirmware,
            Direction::Response,
            value_json(value),
        ),
{
    serde_json::from_value(value).ok()
}

/// `serde_json::to_value` on a
/// `UpdateFirmwareResponse`.
/// A value always comes back: the record holds nothing that the writer of
/// `serde_json` refuses.
#[verifier::external_body]
fn update_firmware_response_value(body: &UpdateFirmwareResponse) -> (r: Option<serde_json::Value>)
    ensures
        r is Some,
{
    serde_json::to_value(body).ok()
}

/// The two payloads of Authorize.
#[derive(Debug, PartialEq)]
pub enum AuthorizeKind {
    Request(AuthorizeRequest),
    Response(AuthorizeResponse),
}

/// The two payloads of BootNotification.
#[derive(Debug, PartialEq)]
pub enum BootNotificationKind {
    Request(BootNotificationRequest),
    Response(BootNotificationResponse),
}

/// The two payloads of CancelReservation.
#[derive(Debug, PartialEq)]
pub enum CancelReservationKind {
    Request(CancelReservationRequest),
    Response(CancelReservationResponse),
}

/// The two payloads of ChangeAvailability.
#[derive(Debug, PartialEq)]
pub enum ChangeAvailabilityKind {
    Request(ChangeAvailabilityRequest),
    Response(ChangeAvailabilityResponse),
}

/// The two payloads of ChangeConfiguration.
#[derive(Debug, PartialEq)]
pub enum ChangeConfigurationKind {
    Request(ChangeConfigurationRequest),
    Response(ChangeConfigurationResponse),
}

/// The two payloads of ClearCache.
#[derive(Debug, PartialEq)]
pub enum ClearCacheKind {
    Request(ClearCacheRequest),
    Response(ClearCacheResponse),
}

/// The two payloads of ClearChargingProfile.
#[derive(Debug, PartialEq)]
pub enum ClearChargingProfileKind {
    Request(ClearChargingProfileRequest),
    Response(ClearChargingProfileResponse),
}

/// The two payloads of DataTransfer.
#[derive(Debug, PartialEq)]
pub enum DataTransferKind {
    Request(DataTransferRequest),
    Response(DataTransferResponse),
}

/// The two payloads of DiagnosticsStatusNotification.
#[derive(Debug, PartialEq)]
pub enum DiagnosticsStatusNotificationKind {
    Request(DiagnosticsStatusNotificationRequest),
    Response(DiagnosticsStatusNotificationResponse),
}

/// The two payloads of FirmwareStatusNotification.
#[derive(Debug, PartialEq)]
pub enum FirmwareStatusNotificationKind {
    Request(FirmwareStatusNotificationRequest),
    Response(FirmwareStatusNotificationResponse),
}

/// The two payloads of GetCompositeSchedule.
#[derive(Debug, PartialEq)]
pub enum GetCompositeScheduleKind {
    Request(GetCompositeScheduleRequest),
    Response(GetCompositeScheduleResponse),
}

/// The two payloads of GetConfiguration.
#[derive(Debug, PartialEq)]
pub enum GetConfigurationKind {
    Request(GetConfigurationRequest),
    Response(GetConfigurationResponse),
}

/// The two payloads of GetDiagnostics.
#[derive(Debug, PartialEq)]
pub enum GetDiagnosticsKind {
    Request(GetDiagnosticsRequest),
    Response(GetDiagnosticsResponse),
}

/// The two payloads of GetLocalListVersion.
#[derive(Debug, PartialEq)]
pub enum GetLocalListVersionKind {
    Request(GetLocalListVersionRequest),
    Response(GetLocalListVersionResponse),
}

/// The two payloads of Heartbeat.
#[derive(Debug, PartialEq)]
pub enum HeartbeatKind {
    Request(HeartbeatRequest),
    Response(HeartbeatResponse),
}

/// The two payloads of MeterValues.
#[derive(Debug, PartialEq)]
pub enum MeterValuesKind {
    Request(MeterValuesRequest),
    Response(MeterValuesResponse),
}

/// The two payloads of RemoteStartTransaction.
#[derive(Debug, PartialEq)]
pub enum RemoteStartTransactionKind {
    Request(RemoteStartTransactionRequest),
    Response(RemoteStartTransactionResponse),
}

/// The two payloads of RemoteStopTransaction.
#[derive(Debug, PartialEq)]
pub enum RemoteStopTransactionKind {
    Request(RemoteStopTransactionRequest),
    Response(RemoteStopTransactionResponse),
}

/// The two payloads of ReserveNow.
#[derive(Debug, PartialEq)]
pub enum ReserveNowKind {
    Request(ReserveNowRequest),
    Response(ReserveNowResponse),
}

/// The two payloads of Reset.
#[derive(Debug, PartialEq)]
pub enum ResetKind {
    Request(ResetRequest),
    Response(ResetResponse),
}

/// The two payloads of SendLocalList.
#[derive(Debug, PartialEq)]
pub enum SendLocalListKind {
    Request(SendLocalListRequest),
    Response(SendLocalListResponse),
}

/// The two payloads of SetChargingProfile.
#[derive(Debug, PartialEq)]
pub enum SetChargingProfileKind {
    Request(SetChargingProfileRequest),
    Response(SetChargingProfileResponse),
}

/// The two payloads of StartTransaction.
#[derive(Debug, PartialEq)]
pub enum StartTransactionKind {
    Request(StartTransactionRequest),
    Response(StartTransactionResponse),
}

/// The two payloads of StatusNotification.
#[derive(Debug, PartialEq)]
pub enum StatusNotificationKind {
    Request(StatusNotificationRequest),
    Response(StatusNotificationResponse),
}

/// The two payloads of StopTransaction.
#[derive(Debug, PartialEq)]
pub enum StopTransactionKind {
    Request(StopTransactionRequest),
    Response(StopTransactionResponse),
}

/// The two payloads of TriggerMessage.
#[derive(Debug, PartialEq)]
pub enum TriggerMessageKind {
    Request(TriggerMessageRequest),
    Response(TriggerMessageResponse),
}

/// The two payloads of UnlockConnector.
#[derive(Debug, PartialEq)]
pub enum UnlockConnectorKind {
    Request(UnlockConnectorRequest),
    Response(UnlockConnectorResponse),
}

/// The two payloads of UpdateFirmware.
#[derive(Debug, PartialEq)]
pub enum UpdateFirmwareKind {
    Request(UpdateFirmwareRequest),
    Response(UpdateFirmwareResponse),
}

/// The payload of a message. Beside each variant stands the side that
/// sends the request; the payload type itself takes both directions of
/// every action.
#[derive(Debug, PartialEq)]
pub enum OcppPayload {
    /// Charger -> Server
    Authorize(AuthorizeKind),
    /// Charger -> Server
    BootNotification(BootNotificationKind),
    /// Server -> Charger
    CancelReservation(CancelReservationKind),
    /// Server -> Charger
    ChangeAvailability(ChangeAvailabilityKind),
    /// Server -> Charger
    ChangeConfiguration(ChangeConfigurationKind),
    /// Server -> Charger
    ClearCache(ClearCacheKind),
    /// Server -> Charger
    ClearChargingProfile(ClearChargingProfileKind),
    /// Both directions
    DataTransfer(DataTransferKind),
    /// Charger -> Server
    DiagnosticsStatusNotification(DiagnosticsStatusNotificationKind),
    /// Charger -> Server
    FirmwareStatusNotification(FirmwareStatusNotificationKind),
    /// Server -> Charger
    GetCompositeSchedule(GetCompositeScheduleKind),
    /// Server -> Charger
    GetConfiguration(GetConfigurationKind),
    /// Server -> Charger
    GetDiagnostics(GetDiagnosticsKind),
    /// Server -> Charger
    GetLocalListVersion(GetLocalListVersionKind),
    /// Charger -> Server
    Heartbeat(HeartbeatKind),
    /// Charger -> Server
    MeterValues(MeterValuesKind),
    /// Server -> Charger
    RemoteStartTransaction(RemoteStartTransactionKind),
    /// Server -> Charger
    RemoteStopTransaction(RemoteStopTransactionKind),
    /// Server -> Charger
    ReserveNow(ReserveNowKind),
    /// Server -> Charger
    Reset(ResetKind),
    /// Server -> Charger
    SendLocalList(SendLocalListKind),
    /// Server -> Charger
    SetChargingProfile(SetChargingProfileKind),
    /// Charger -> Server
    StartTransaction(StartTransactionKind),
    /// Charger -> Server
    StatusNotification(StatusNotificationKind),
    /// Charger -> Server
    StopTransaction(StopTransactionKind),
    /// Server -> Charger
    TriggerMessage(TriggerMessageKind),
    /// Server -> Charger
    UnlockConnector(UnlockConnectorKind),
    /// Server -> Charger
    UpdateFirmware(UpdateFirmwareKind),
}

/// Whether a value is read as the record of an action and a direction:
/// for a record that the library holds, whether `serde_json` reads it; for
/// a carried record, what `carried_is_read` names. Of a BootNotification
/// request it is stated which objects are read (see
/// `boot_notification_serial`).
pub open spec fn record_is_read(action: OcppActionEnum, direction: Direction, j: JsonValue)
    -> bool {
    match (action, direction) {
        (OcppActionEnum::Authorize, Direction::Response) => read_authorize_response(j) is Some,
        (OcppActionEnum::BootNotification, Direction::Request) => {
            boot_notification_serial(j) is Some
        },
        (OcppActionEnum::BootNotification, Direction::Response) => {
            read_boot_notification_response(j) is Some
        },
        (OcppActionEnum::DataTransfer, Direction::Response) => {
            read_data_transfer_response(j) is Some
        },
        (OcppActionEnum::Heartbeat, Direction::Response) => read_heartbeat_response(j) is Some,
        (OcppActionEnum::StopTransaction, Direction::Response) => {
            read_stop_transaction_response(j) is Some
        },
        _ => carried_is_read(action, direction, j),
    }
}

impl OcppPayload {
    /// The action that the payload belongs to.
    pub open spec fn spec_action(&self) -> OcppActionEnum {
        match self {
            OcppPayload::Authorize(_) => OcppActionEnum::Authorize,
            OcppPayload::BootNotification(_) => OcppActionEnum::BootNotification,
            OcppPayload::CancelReservation(_) => OcppActionEnum::CancelReservation,
            OcppPayload::ChangeAvailability(_) => OcppActionEnum::ChangeAvailability,
            OcppPayload::ChangeConfiguration(_) => OcppActionEnum::ChangeConfiguration,
            OcppPayload::ClearCache(_) => OcppActionEnum::ClearCache,
            OcppPayload::ClearChargingProfile(_) => OcppActionEnum::ClearChargingProfile,
            OcppPayload::DataTransfer(_) => OcppActionEnum::DataTransfer,
            OcppPayload::DiagnosticsStatusNotification(_) => {
                OcppActionEnum::DiagnosticsStatusNotification
            },
            OcppPayload::FirmwareStatusNotification(_) => {
                OcppActionEnum::FirmwareStatusNotification
            },
            OcppPayload::GetCompositeSchedule(_) => OcppActionEnum::GetCompositeSchedule,
            OcppPayload::GetConfiguration(_) => OcppActionEnum::GetConfiguration,
            OcppPayload::GetDiagnostics(_) => OcppActionEnum::GetDiagnostics,
            OcppPayload::GetLocalListVersion(_) => OcppActionEnum::GetLocalListVersion,
            OcppPayload::Heartbeat(_) => OcppActionEnum::Heartbeat,
            OcppPayload::MeterValues(_) => OcppActionEnum::MeterValues,
            OcppPayload::RemoteStartTransaction(_) => OcppActionEnum::RemoteStartTransaction,
            OcppPayload::RemoteStopTransaction(_) => OcppActionEnum::RemoteStopTransaction,
            OcppPayload::ReserveNow(_) => OcppActionEnum::ReserveNow,
            OcppPayload::Reset(_) => OcppActionEnum::Reset,
            OcppPayload::SendLocalList(_) => OcppActionEnum::SendLocalList,
            OcppPayload::SetChargingProfile(_) => OcppActionEnum::SetChargingProfile,
            OcppPayload::StartTransaction(_) => OcppActionEnum::StartTransaction,
            OcppPayload::StatusNotification(_) => OcppActionEnum::StatusNotification,
            OcppPayload::StopTransaction(_) => OcppActionEnum::StopTransaction,
            OcppPayload::TriggerMessage(_) => OcppActionEnum::TriggerMessage,
            OcppPayload::UnlockConnector(_) => OcppActionEnum::UnlockConnector,
            OcppPayload::UpdateFirmware(_) => OcppActionEnum::UpdateFirmware,
        }
    }

    /// Whether the payload is a request or a response.
    pub open spec fn spec_direction(&self) -> Direction {
        match self {
            OcppPayload::Authorize(AuthorizeKind::Request(_)) => Direction::Request,
            OcppPayload::Authorize(AuthorizeKind::Response(_)) => Direction::Response,
            OcppPayload::BootNotification(BootNotificationKind::Request(_)) => Direction::Request,
            OcppPayload::BootNotification(BootNotificationKind::Response(_)) => Direction::Response,
            OcppPayload::CancelReservation(CancelReservationKind::Request(_)) => Direction::Request,
            OcppPayload::CancelReservation(
                CancelReservationKind::Response(_),
            ) => Direction::Response,
            OcppPayload::ChangeAvailability(
                ChangeAvailabilityKind::Request(_),
            ) => Direction::Request,
            OcppPayload::ChangeAvailability(
                ChangeAvailabilityKind::Response(_),
            ) => Direction::Response,
            OcppPayload::ChangeConfiguration(
                ChangeConfigurationKind::Request(_),
            ) => Direction::Request,
            OcppPayload::ChangeConfiguration(
                ChangeConfigurationKind::Response(_),
            ) => Direction::Response,
            OcppPayload::ClearCache(ClearCacheKind::Request(_)) => Direction::Request,
            OcppPayload::ClearCache(ClearCacheKind::Response(_)) => Direction::Response,
            OcppPayload::ClearChargingProfile(
                ClearChargingProfileKind::Request(_),
            ) => Direction::Request,
            OcppPayload::ClearChargingProfile(
                ClearChargingProfileKind::Response(_),
            ) => Direction::Response,
            OcppPayload::DataTransfer(DataTransferKind::Request(_)) => Direction::Request,
            OcppPayload::DataTransfer(DataTransferKind::Response(_)) => Direction::Response,
            OcppPayload::DiagnosticsStatusNotification(
                DiagnosticsStatusNotificationKind::Request(_),
            ) => Direction::Request,
            OcppPayload::DiagnosticsStatusNotification(
                DiagnosticsStatusNotificationKind::Response(_),
            ) => Direction::Response,
            OcppPayload::FirmwareStatusNotification(
                FirmwareStatusNotificationKind::Request(_),
            ) => Direction::Request,
            OcppPayload::FirmwareStatusNotification(
                FirmwareStatusNotificationKind::Response(_),
            ) => Direction::Response,
            OcppPayload::GetCompositeSchedule(
                GetCompositeScheduleKind::Request(_),
            ) => Direction::Request,
            OcppPayload::GetCompositeSchedule(
                GetCompositeScheduleKind::Response(_),
            ) => Direction::Response,
            OcppPayload::GetConfiguration(GetConfigurationKind::Request(_)) => Direction::Request,
            OcppPayload::GetConfiguration(GetConfigurationKind::Response(_)) => Direction::Response,
            OcppPayload::GetDiagnostics(GetDiagnosticsKind::Request(_)) => Direction::Request,
            OcppPayload::GetDiagnostics(GetDiagnosticsKind::Response(_)) => Direction::Response,
            OcppPayload::GetLocalListVersion(
                GetLocalListVersionKind::Request(_),
            ) => Direction::Request,
            OcppPayload::GetLocalListVersion(
                GetLocalListVersionKind::Response(_),
            ) => Direction::Response,
            OcppPayload::Heartbeat(HeartbeatKind::Request(_)) => Direction::Request,
            OcppPayload::Heartbeat(HeartbeatKind::Response(_)) => Direction::Response,
            OcppPayload::MeterValues(MeterValuesKind::Request(_)) => Direction::Request,
            OcppPayload::MeterValues(MeterValuesKind::Response(_)) => Direction::Response,
            OcppPayload::RemoteStartTransaction(
                RemoteStartTransactionKind::Request(_),
            ) => Direction::Request,
            OcppPayload::RemoteStartTransaction(
                RemoteStartTransactionKind::Response(_),
            ) => Direction::Response,
            OcppPayload::RemoteStopTransaction(
                RemoteStopTransactionKind::Request(_),
            ) => Direction::Request,
            OcppPayload::RemoteStopTransaction(
                RemoteStopTransactionKind::Response(_),
            ) => Direction::Response,
            OcppPayload::ReserveNow(ReserveNowKind::Request(_)) => Direction::Request,
            OcppPayload::ReserveNow(ReserveNowKind::Response(_)) => Direction::Response,
            OcppPayload::Reset(ResetKind::Request(_)) => Direction::Request,
            OcppPayload::Reset(ResetKind::Response(_)) => Direction::Response,
            OcppPayload::SendLocalList(SendLocalListKind::Request(_)) => Direction::Request,
            OcppPayload::SendLocalList(SendLocalListKind::Response(_)) => Direction::Response,
            OcppPayload::SetChargingProfile(
                SetChargingProfileKind::Request(_),
            ) => Direction::Request,
            OcppPayload::SetChargingProfile(
                SetChargingProfileKind::Response(_),
            ) => Direction::Response,
            OcppPayload::StartTransaction(StartTransactionKind::Request(_)) => Direction::Request,
            OcppPayload::StartTransaction(StartTransactionKind::Response(_)) => Direction::Response,
            OcppPayload::StatusNotification(
                StatusNotificationKind::Request(_),
            ) => Direction::Request,
            OcppPayload::StatusNotification(
                StatusNotificationKind::Response(_),
            ) => Direction::Response,
            OcppPayload::StopTransaction(StopTransactionKind::Request(_)) => Direction::Request,
            OcppPayload::StopTransaction(StopTransactionKind::Response(_)) => Direction::Response,
            OcppPayload::TriggerMessage(TriggerMessageKind::Request(_)) => Direction::Request,
            OcppPayload::TriggerMessage(TriggerMessageKind::Response(_)) => Direction::Response,
            OcppPayload::UnlockConnector(UnlockConnectorKind::Request(_)) => Direction::Request,
            OcppPayload::UnlockConnector(UnlockConnectorKind::Response(_)) => Direction::Response,
            OcppPayload::UpdateFirmware(UpdateFirmwareKind::Request(_)) => Direction::Request,
            OcppPayload::UpdateFirmware(UpdateFirmwareKind::Response(_)) => Direction::Response,
        }
    }

    /// The JSON object of the payload, for the records whose fields the
    /// library holds itself; `None` for a record that it only carries.
    pub open spec fn known_json(&self) -> Option<JsonValue> {
        match self {
            OcppPayload::Authorize(AuthorizeKind::Response(body)) => Some(body.json()),
            OcppPayload::BootNotification(BootNotificationKind::Request(body)) => Some(body.json()),
            OcppPayload::BootNotification(
                BootNotificationKind::Response(body),
            ) => Some(body.json()),
            OcppPayload::DataTransfer(DataTransferKind::Response(body)) => Some(body.json()),
            OcppPayload::Heartbeat(HeartbeatKind::Response(body)) => Some(body.json()),
            OcppPayload::StopTransaction(StopTransactionKind::Response(body)) => Some(body.json()),
            _ => None,
        }
    }

    /// Whether `j` may be what the payload is written as: the record's
    /// JSON object where the library states it, any value where it does
    /// not.
    pub open spec fn written_as(&self, j: JsonValue) -> bool {
        self.known_json() matches Some(known) ==> j == known
    }

    /// Whether writing the payload is owed a value: every payload but the
    /// three whose records hold decimal numbers.
    pub open spec fn always_written(&self) -> bool {
        match self {
            OcppPayload::GetCompositeSchedule(GetCompositeScheduleKind::Response(_)) => false,
            OcppPayload::RemoteStartTransaction(RemoteStartTransactionKind::Request(_)) => false,
            OcppPayload::SetChargingProfile(SetChargingProfileKind::Request(_)) => false,
            _ => true,
        }
    }

    /// Whether the payload is what reading `j` gives: for a record that
    /// the library holds, the record that `serde_json` reads from `j`, and
    /// for a BootNotification request read from an object the fields that
    /// the object says; of a carried record nothing is said.
    pub open spec fn read_from(&self, j: JsonValue) -> bool {
        match self {
            OcppPayload::Authorize(
                AuthorizeKind::Response(body),
            ) => read_authorize_response(j) == Some(*body),
            OcppPayload::BootNotification(BootNotificationKind::Request(body)) => {
                &&& read_boot_notification_request(j) == Some(*body)
                &&& j is Object ==> body.holds(j->Object_0)
            },
            OcppPayload::BootNotification(
                BootNotificationKind::Response(body),
            ) => read_boot_notification_response(j) == Some(*body),
            OcppPayload::DataTransfer(
                DataTransferKind::Response(body),
            ) => read_data_transfer_response(j) == Some(*body),
            OcppPayload::Heartbeat(
                HeartbeatKind::Response(body),
            ) => read_heartbeat_response(j) == Some(*body),
            OcppPayload::StopTransaction(
                StopTransactionKind::Response(body),
            ) => read_stop_transaction_response(j) == Some(*body),
            _ => true,
        }
    }

    /// The action that the payload belongs to.
    #[verifier::when_used_as_spec(spec_action)]
    pub fn action(&self) -> (r: OcppActionEnum)
        ensures
            r == self.spec_action(),
    {
        match self {
            OcppPayload::Authorize(_) => OcppActionEnum::Authorize,
            OcppPayload::BootNotification(_) => OcppActionEnum::BootNotification,
            OcppPayload::CancelReservation(_) => OcppActionEnum::CancelReservation,
            OcppPayload::ChangeAvailability(_) => OcppActionEnum::ChangeAvailability,
            OcppPayload::ChangeConfiguration(_) => OcppActionEnum::ChangeConfiguration,
            OcppPayload::ClearCache(_) => OcppActionEnum::ClearCache,
            OcppPayload::ClearChargingProfile(_) => OcppActionEnum::ClearChargingProfile,
            OcppPayload::DataTransfer(_) => OcppActionEnum::DataTransfer,
            OcppPayload::DiagnosticsStatusNotification(_) => {
                OcppActionEnum::DiagnosticsStatusNotification
            },
            OcppPayload::FirmwareStatusNotification(_) => {
                OcppActionEnum::FirmwareStatusNotification
            },
            OcppPayload::GetCompositeSchedule(_) => OcppActionEnum::GetCompositeSchedule,
            OcppPayload::GetConfiguration(_) => OcppActionEnum::GetConfiguration,
            OcppPayload::GetDiagnostics(_) => OcppActionEnum::GetDiagnostics,
            OcppPayload::GetLocalListVersion(_) => OcppActionEnum::GetLocalListVersion,
            OcppPayload::Heartbeat(_) => OcppActionEnum::Heartbeat,
            OcppPayload::MeterValues(_) => OcppActionEnum::MeterValues,
            OcppPayload::RemoteStartTransaction(_) => OcppActionEnum::RemoteStartTransaction,
            OcppPayload::RemoteStopTransaction(_) => OcppActionEnum::RemoteStopTransaction,
            OcppPayload::ReserveNow(_) => OcppActionEnum::ReserveNow,
            OcppPayload::Reset(_) => OcppActionEnum::Reset,
            OcppPayload::SendLocalList(_) => OcppActionEnum::SendLocalList,
            OcppPayload::SetChargingProfile(_) => OcppActionEnum::SetChargingProfile,
            OcppPayload::StartTransaction(_) => OcppActionEnum::StartTransaction,
            OcppPayload::StatusNotification(_) => OcppActionEnum::StatusNotification,
            OcppPayload::StopTransaction(_) => OcppActionEnum::StopTransaction,
            OcppPayload::TriggerMessage(_) => OcppActionEnum::TriggerMessage,
            OcppPayload::UnlockConnector(_) => OcppActionEnum::UnlockConnector,
            OcppPayload::UpdateFirmware(_) => OcppActionEnum::UpdateFirmware,
        }
    }

    /// Whether the payload is a request or a response.
    #[verifier::when_used_as_spec(spec_direction)]
    pub fn direction(&self) -> (r: Direction)
        ensures
            r == self.spec_direction(),
    {
        match self {
            OcppPayload::Authorize(AuthorizeKind::Request(_)) => Direction::Request,
            OcppPayload::Authorize(AuthorizeKind::Response(_)) => Direction::Response,
            OcppPayload::BootNotification(BootNotificationKind::Request(_)) => Direction::Request,
            OcppPayload::BootNotification(BootNotificationKind::Response(_)) => Direction::Response,
            OcppPayload::CancelReservation(CancelReservationKind::Request(_)) => Direction::Request,
            OcppPayload::CancelReservation(
                CancelReservationKind::Response(_),
            ) => Direction::Response,
            OcppPayload::ChangeAvailability(
                ChangeAvailabilityKind::Request(_),
            ) => Direction::Request,
            OcppPayload::ChangeAvailability(
                ChangeAvailabilityKind::Response(_),
            ) => Direction::Response,
            OcppPayload::ChangeConfiguration(
                ChangeConfigurationKind::Request(_),
            ) => Direction::Request,
            OcppPayload::ChangeConfiguration(
                ChangeConfigurationKind::Response(_),
            ) => Direction::Response,
            OcppPayload::ClearCache(ClearCacheKind::Request(_)) => Direction::Request,
            OcppPayload::ClearCache(ClearCacheKind::Response(_)) => Direction::Response,
            OcppPayload::ClearChargingProfile(
                ClearChargingProfileKind::Request(_),
            ) => Direction::Request,
            OcppPayload::ClearChargingProfile(
                ClearChargingProfileKind::Response(_),
            ) => Direction::Response,
            OcppPayload::DataTransfer(DataTransferKind::Request(_)) => Direction::Request,
            OcppPayload::DataTransfer(DataTransferKind::Response(_)) => Direction::Response,
            OcppPayload::DiagnosticsStatusNotification(
                DiagnosticsStatusNotificationKind::Request(_),
            ) => Direction::Request,
            OcppPayload::DiagnosticsStatusNotification(
                DiagnosticsStatusNotificationKind::Response(_),
            ) => Direction::Response,
            OcppPayload::FirmwareStatusNotification(
                FirmwareStatusNotificationKind::Request(_),
            ) => Direction::Request,
            OcppPayload::FirmwareStatusNotification(
                FirmwareStatusNotificationKind::Response(_),
            ) => Direction::Response,
            OcppPayload::GetCompositeSchedule(
                GetCompositeScheduleKind::Request(_),
            ) => Direction::Request,
            OcppPayload::GetCompositeSchedule(
                GetCompositeScheduleKind::Response(_),
            ) => Direction::Response,
            OcppPayload::GetConfiguration(GetConfigurationKind::Request(_)) => Direction::Request,
            OcppPayload::GetConfiguration(GetConfigurationKind::Response(_)) => Direction::Response,
            OcppPayload::GetDiagnostics(GetDiagnosticsKind::Request(_)) => Direction::Request,
            OcppPayload::GetDiagnostics(GetDiagnosticsKind::Response(_)) => Direction::Response,
            OcppPayload::GetLocalListVersion(
                GetLocalListVersionKind::Request(_),
            ) => Direction::Request,
            OcppPayload::GetLocalListVersion(
                GetLocalListVersionKind::Response(_),
            ) => Direction::Response,
            OcppPayload::Heartbeat(HeartbeatKind::Request(_)) => Direction::Request,
            OcppPayload::Heartbeat(HeartbeatKind::Response(_)) => Direction::Response,
            OcppPayload::MeterValues(MeterValuesKind::Request(_)) => Direction::Request,
            OcppPayload::MeterValues(MeterValuesKind::Response(_)) => Direction::Response,
            OcppPayload::RemoteStartTransaction(
                RemoteStartTransactionKind::Request(_),
            ) => Direction::Request,
            OcppPayload::RemoteStartTransaction(
                RemoteStartTransactionKind::Response(_),
            ) => Direction::Response,
            OcppPayload::RemoteStopTransaction(
                RemoteStopTransactionKind::Request(_),
            ) => Direction::Request,
            OcppPayload::RemoteStopTransaction(
                RemoteStopTransactionKind::Response(_),
            ) => Direction::Response,
            OcppPayload::ReserveNow(ReserveNowKind::Request(_)) => Direction::Request,
            OcppPayload::ReserveNow(ReserveNowKind::Response(_)) => Direction::Response,
            OcppPayload::Reset(ResetKind::Request(_)) => Direction::Request,
            OcppPayload::Reset(ResetKind::Response(_)) => Direction::Response,
            OcppPayload::SendLocalList(SendLocalListKind::Request(_)) => Direction::Request,
            OcppPayload::SendLocalList(SendLocalListKind::Response(_)) => Direction::Response,
            OcppPayload::SetChargingProfile(
                SetChargingProfileKind::Request(_),
            ) => Direction::Request,
            OcppPayload::SetChargingProfile(
                SetChargingProfileKind::Response(_),
            ) => Direction::Response,
            OcppPayload::StartTransaction(StartTransactionKind::Request(_)) => Direction::Request,
            OcppPayload::StartTransaction(StartTransactionKind::Response(_)) => Direction::Response,
            OcppPayload::StatusNotification(
                StatusNotificationKind::Request(_),
            ) => Direction::Request,
            OcppPayload::StatusNotification(
                StatusNotificationKind::Response(_),
            ) => Direction::Response,
            OcppPayload::StopTransaction(StopTransactionKind::Request(_)) => Direction::Request,
            OcppPayload::StopTransaction(StopTransactionKind::Response(_)) => Direction::Response,
            OcppPayload::TriggerMessage(TriggerMessageKind::Request(_)) => Direction::Request,
            OcppPayload::TriggerMessage(TriggerMessageKind::Response(_)) => Direction::Response,
            OcppPayload::UnlockConnector(UnlockConnectorKind::Request(_)) => Direction::Request,
            OcppPayload::UnlockConnector(UnlockConnectorKind::Response(_)) => Direction::Response,
            OcppPayload::UpdateFirmware(UpdateFirmwareKind::Request(_)) => Direction::Request,
            OcppPayload::UpdateFirmware(UpdateFirmwareKind::Response(_)) => Direction::Response,
        }
    }

    /// Write the payload as a JSON value.
    ///
    /// A value is owed for every payload but the three whose records hold
    /// decimal numbers; for those `serde_json` decides. For a record whose
    /// fields the library holds itself, the value holds exactly the
    /// record's JSON object. The only error is `NotSerializable`.
    pub fn to_value(&self) -> (r: Result<serde_json::Value, PayloadError>)
        ensures
            self.always_written() ==> r is Ok,
            r matches Ok(v) ==> self.written_as(value_json(v)),
            r matches Err(e) ==> e == PayloadError::NotSerializable,
    {
        match self {
            OcppPayload::Authorize(
                AuthorizeKind::Request(body),
            ) => match authorize_request_value(body) {
                Some(v) => Ok(v),
                None => Err(PayloadError::NotSerializable),
            },
            OcppPayload::Authorize(AuthorizeKind::Response(body)) => match body.to_value() {
                Some(v) => Ok(v),
                None => Err(PayloadError::NotSerializable),
            },
            OcppPayload::BootNotification(
                BootNotificationKind::Request(body),
            ) => match body.to_value() {
                Some(v) => Ok(v),
                None => Err(PayloadError::NotSerializable),
            },
            OcppPayload::BootNotification(
                BootNotificationKind::Response(body),
            ) => match body.to_value() {
                Some(v) => Ok(v),
                None => Err(PayloadError::NotSerializable),
            },
            OcppPayload::CancelReservation(
                CancelReservationKind::Request(body),
            ) => match cancel_reservation_request_value(body) {
                Some(v) => Ok(v),
                None => Err(PayloadError::NotSerializable),
            },
            OcppPayload::CancelReservation(
                CancelReservationKind::Response(body),
            ) => match cancel_reservation_response_value(body) {
                Some(v) => Ok(v),
                None => Err(PayloadError::NotSerializable),
            },
            OcppPayload::ChangeAvailability(
                ChangeAvailabilityKind::Request(body),
            ) => match change_availability_request_value(body) {
                Some(v) => Ok(v),
                None => Err(PayloadError::NotSerializable),
            },
            OcppPayload::ChangeAvailability(
                ChangeAvailabilityKind::Response(body),
            ) => match change_availability_response_value(body) {
                Some(v) => Ok(v),
                None => Err(PayloadError::NotSerializable),
            },
            OcppPayload::ChangeConfiguration(
                ChangeConfigurationKind::Request(body),
            ) => match change_configuration_request_value(body) {
                Some(v) => Ok(v),
                None => Err(PayloadError::NotSerializable),
            },
            OcppPayload::ChangeConfiguration(
                ChangeConfigurationKind::Response(body),
            ) => match change_configuration_response_value(body) {
                Some(v) => Ok(v),
                None => Err(PayloadError::NotSerializable),
            },
            OcppPayload::ClearCache(
                ClearCacheKind::Request(body),
            ) => match clear_cache_request_value(body) {
                Some(v) => Ok(v),
                None => Err(PayloadError::NotSerializable),
            },
            OcppPayload::ClearCache(
                ClearCacheKind::Response(body),
            ) => match clear_cache_response_value(body) {
                Some(v) => Ok(v),
                None => Err(PayloadError::NotSerializable),
            },
            OcppPayload::ClearChargingProfile(
                ClearChargingProfileKind::Request(body),
            ) => match clear_charging_profile_request_value(body) {
                Some(v) => Ok(v),
                None => Err(PayloadError::NotSerializable),
            },
            OcppPayload::ClearChargingProfile(
                ClearChargingProfileKind::Response(body),
            ) => match clear_charging_profile_response_value(body) {
                Some(v) => Ok(v),
                None => Err(PayloadError::NotSerializable),
            },
            OcppPayload::DataTransfer(
                DataTransferKind::Request(body),
            ) => match data_transfer_request_value(body) {
                Some(v) => Ok(v),
                None => Err(PayloadError::NotSerializable),
            },
            OcppPayload::DataTransfer(DataTransferKind::Response(body)) => match body.to_value() {
                Some(v) => Ok(v),
                None => Err(PayloadError::NotSerializable),
            },
            OcppPayload::DiagnosticsStatusNotification(
                DiagnosticsStatusNotificationKind::Request(body),
            ) => match diagnostics_status_notification_request_value(body) {
                Some(v) => Ok(v),
                None => Err(PayloadError::NotSerializable),
            },
            OcppPayload::DiagnosticsStatusNotification(
                DiagnosticsStatusNotificationKind::Response(body),
            ) => match diagnostics_status_notification_response_value(body) {
                Some(v) => Ok(v),
                None => Err(PayloadError::NotSerializable),
            },
            OcppPayload::FirmwareStatusNotification(
                FirmwareStatusNotificationKind::Request(body),
            ) => match firmware_status_notification_request_value(body) {
                Some(v) => Ok(v),
                None => Err(PayloadError::NotSerializable),
            },
            OcppPayload::FirmwareStatusNotification(
                FirmwareStatusNotificationKind::Response(body),
            ) => match firmware_status_notification_response_value(body) {
                Some(v) => Ok(v),
                None => Err(PayloadError::NotSerializable),
            },
            OcppPayload::GetCompositeSchedule(
                GetCompositeScheduleKind::Request(body),
            ) => match get_composite_schedule_request_value(body) {
                Some(v) => Ok(v),
                None => Err(PayloadError::NotSerializable),
            },
            OcppPayload::GetCompositeSchedule(
                GetCompositeScheduleKind::Response(body),
            ) => match get_composite_schedule_response_value(body) {
                Some(v) => Ok(v),
                None => Err(PayloadError::NotSerializable),
            },
            OcppPayload::GetConfiguration(
                GetConfigurationKind::Request(body),
            ) => match get_configuration_request_value(body) {
                Some(v) => Ok(v),
                None => Err(PayloadError::NotSerializable),
            },
            OcppPayload::GetConfiguration(
                GetConfigurationKind::Response(body),
            ) => match get_configuration_response_value(body) {
                Some(v) => Ok(v),
                None => Err(PayloadError::NotSerializable),
            },
            OcppPayload::GetDiagnostics(
                GetDiagnosticsKind::Request(body),
            ) => match get_diagnostics_request_value(body) {
                Some(v) => Ok(v),
                None => Err(PayloadError::NotSerializable),
            },
            OcppPayload::GetDiagnostics(
                GetDiagnosticsKind::Response(body),
            ) => match get_diagnostics_response_value(body) {
                Some(v) => Ok(v),
                None => Err(PayloadError::NotSerializable),
            },
            OcppPayload::GetLocalListVersion(
                GetLocalListVersionKind::Request(body),
            ) => match get_local_list_version_request_value(body) {
                Some(v) => Ok(v),
                None => Err(PayloadError::NotSerializable),
            },
            OcppPayload::GetLocalListVersion(
                GetLocalListVersionKind::Response(body),
            ) => match get_local_list_version_response_value(body) {
                Some(v) => Ok(v),
                None => Err(PayloadError::NotSerializable),
            },
            OcppPayload::Heartbeat(
                HeartbeatKind::Request(body),
            ) => match heartbeat_request_value(body) {
                Some(v) => Ok(v),
                None => Err(PayloadError::NotSerializable),
            },
            OcppPayload::Heartbeat(HeartbeatKind::Response(body)) => match body.to_value() {
                Some(v) => Ok(v),
                None => Err(PayloadError::NotSerializable),
            },
            OcppPayload::MeterValues(
                MeterValuesKind::Request(body),
            ) => match meter_values_request_value(body) {
                Some(v) => Ok(v),
                None => Err(PayloadError::NotSerializable),
            },
            OcppPayload::MeterValues(
                MeterValuesKind::Response(body),
            ) => match meter_values_response_value(body) {
                Some(v) => Ok(v),
                None => Err(PayloadError::NotSerializable),
            },
            OcppPayload::RemoteStartTransaction(
                RemoteStartTransactionKind::Request(body),
            ) => match remote_start_transaction_request_value(body) {
                Some(v) => Ok(v),
                None => Err(PayloadError::NotSerializable),
            },
            OcppPayload::RemoteStartTransaction(
                RemoteStartTransactionKind::Response(body),
            ) => match remote_start_transaction_response_value(body) {
                Some(v) => Ok(v),
                None => Err(PayloadError::NotSerializable),
            },
            OcppPayload::RemoteStopTransaction(
                RemoteStopTransactionKind::Request(body),
            ) => match remote_stop_transaction_request_value(body) {
                Some(v) => Ok(v),
                None => Err(PayloadError::NotSerializable),
            },
            OcppPayload::RemoteStopTransaction(
                RemoteStopTransactionKind::Response(body),
            ) => match remote_stop_transaction_response_value(body) {
                Some(v) => Ok(v),
                None => Err(PayloadError::NotSerializable),
            },
            OcppPayload::ReserveNow(
                ReserveNowKind::Request(body),
            ) => match reserve_now_request_value(body) {
                Some(v) => Ok(v),
                None => Err(PayloadError::NotSerializable),
            },
            OcppPayload::ReserveNow(
                ReserveNowKind::Response(body),
            ) => match reserve_now_response_value(body) {
                Some(v) => Ok(v),
                None => Err(PayloadError::NotSerializable),
            },
            OcppPayload::Reset(ResetKind::Request(body)) => match reset_request_value(body) {
                Some(v) => Ok(v),
                None => Err(PayloadError::NotSerializable),
            },
            OcppPayload::Reset(ResetKind::Response(body)) => match reset_response_value(body) {
                Some(v) => Ok(v),
                None => Err(PayloadError::NotSerializable),
            },
            OcppPayload::SendLocalList(
                SendLocalListKind::Request(body),
            ) => match send_local_list_request_value(body) {
                Some(v) => Ok(v),
                None => Err(PayloadError::NotSerializable),
            },
            OcppPayload::SendLocalList(
                SendLocalListKind::Response(body),
            ) => match send_local_list_response_value(body) {
                Some(v) => Ok(v),
                None => Err(PayloadError::NotSerializable),
            },
            OcppPayload::SetChargingProfile(
                SetChargingProfileKind::Request(body),
            ) => match set_charging_profile_request_value(body) {
                Some(v) => Ok(v),
                None => Err(PayloadError::NotSerializable),
            },
            OcppPayload::SetChargingProfile(
                SetChargingProfileKind::Response(body),
            ) => match set_charging_profile_response_value(body) {
                Some(v) => Ok(v),
                None => Err(PayloadError::NotSerializable),
            },
            OcppPayload::StartTransaction(
                StartTransactionKind::Request(body),
            ) => match start_transaction_request_value(body) {
                Some(v) => Ok(v),
                None => Err(PayloadError::NotSerializable),
            },
            OcppPayload::StartTransaction(
                StartTransactionKind::Response(body),
            ) => match start_transaction_response_value(body) {
                Some(v) => Ok(v),
                None => Err(PayloadError::NotSerializable),
            },
            OcppPayload::StatusNotification(
                StatusNotificationKind::Request(body),
            ) => match status_notification_request_value(body) {
                Some(v) => Ok(v),
                None => Err(PayloadError::NotSerializable),
            },
            OcppPayload::StatusNotification(
                StatusNotificationKind::Response(body),
            ) => match status_notification_response_value(body) {
                Some(v) => Ok(v),
                None => Err(PayloadError::NotSerializable),
            },
            OcppPayload::StopTransaction(
                StopTransactionKind::Request(body),
            ) => match stop_transaction_request_value(body) {
                Some(v) => Ok(v),
                None => Err(PayloadError::NotSerializable),
            },
            OcppPayload::StopTransaction(
                StopTransactionKind::Response(body),
            ) => match body.to_value() {
                Some(v) => Ok(v),
                None => Err(PayloadError::NotSerializable),
            },
            OcppPayload::TriggerMessage(
                TriggerMessageKind::Request(body),
            ) => match trigger_message_request_value(body) {
                Some(v) => Ok(v),
                None => Err(PayloadError::NotSerializable),
            },
            OcppPayload::TriggerMessage(
                TriggerMessageKind::Response(body),
            ) => match trigger_message_response_value(body) {
                Some(v) => Ok(v),
                None => Err(PayloadError::NotSerializable),
            },
            OcppPayload::UnlockConnector(
                UnlockConnectorKind::Request(body),
            ) => match unlock_connector_request_value(body) {
                Some(v) => Ok(v),
                None => Err(PayloadError::NotSerializable),
            },
            OcppPayload::UnlockConnector(
                UnlockConnectorKind::Response(body),
            ) => match unlock_connector_response_value(body) {
                Some(v) => Ok(v),
                None => Err(PayloadError::NotSerializable),
            },
            OcppPayload::UpdateFirmware(
                UpdateFirmwareKind::Request(body),
            ) => match update_firmware_request_value(body) {
                Some(v) => Ok(v),
                None => Err(PayloadError::NotSerializable),
            },
            OcppPayload::UpdateFirmware(
                UpdateFirmwareKind::Response(body),
            ) => match update_firmware_response_value(body) {
                Some(v) => Ok(v),
                None => Err(PayloadError::NotSerializable),
            },
        }
    }
}

/// Read `value` as the record that `action` and `direction` call for.
///
/// The payload comes back exactly where `record_is_read` says that the
/// value is read; it belongs to `action` and `direction`, and where the
/// library holds the record it is the record that `serde_json` reads. The
/// only error is `FormationViolation`: no payload is made up.
pub fn decode_payload(
    action: OcppActionEnum,
    direction: Direction,
    value: serde_json::Value,
) -> (r: Result<OcppPayload, PayloadError>)
    ensures
        r is Ok <==> record_is_read(action, direction, value_json(value)),
        r matches Ok(p) ==> {
            &&& p.spec_action() == action
            &&& p.spec_direction() == direction
            &&& p.read_from(value_json(value))
        },
        r matches Err(e) ==> e == PayloadError::FormationViolation,
{
    match action {
        OcppActionEnum::Authorize => match direction {
            Direction::Request => match authorize_request_from(value) {
                Some(body) => Ok(OcppPayload::Authorize(AuthorizeKind::Request(body))),
                None => Err(PayloadError::FormationViolation),
            },
            Direction::Response => match AuthorizeResponse::from_value(value) {
                Some(body) => Ok(OcppPayload::Authorize(AuthorizeKind::Response(body))),
                None => Err(PayloadError::FormationViolation),
            },
        },
        OcppActionEnum::BootNotification => match direction {
            Direction::Request => match BootNotificationRequest::from_value(value) {
                Some(body) => Ok(
                    OcppPayload::BootNotification(BootNotificationKind::Request(body)),
                ),
                None => Err(PayloadError::FormationViolation),
            },
            Direction::Response => match BootNotificationResponse::from_value(value) {
                Some(body) => Ok(
                    OcppPayload::BootNotification(BootNotificationKind::Response(body)),
                ),
                None => Err(PayloadError::FormationViolation),
            },
        },
        OcppActionEnum::CancelReservation => match direction {
            Direction::Request => match cancel_reservation_request_from(value) {
                Some(body) => Ok(
                    OcppPayload::CancelReservation(CancelReservationKind::Request(body)),
                ),
                None => Err(PayloadError::FormationViolation),
            },
            Direction::Response => match cancel_reservation_response_from(value) {
                Some(body) => Ok(
                    OcppPayload::CancelReservation(CancelReservationKind::Response(body)),
                ),
                None => Err(PayloadError::FormationViolation),
            },
        },
        OcppActionEnum::ChangeAvailability => match direction {
            Direction::Request => match change_availability_request_from(value) {
                Some(body) => Ok(
                    OcppPayload::ChangeAvailability(ChangeAvailabilityKind::Request(body)),
                ),
                None => Err(PayloadError::FormationViolation),
            },
            Direction::Response => match change_availability_response_from(value) {
                Some(body) => Ok(
                    OcppPayload::ChangeAvailability(ChangeAvailabilityKind::Response(body)),
                ),
                None => Err(PayloadError::FormationViolation),
            },
        },
        OcppActionEnum::ChangeConfiguration => match direction {
            Direction::Request => match change_configuration_request_from(value) {
                Some(body) => Ok(
                    OcppPayload::ChangeConfiguration(ChangeConfigurationKind::Request(body)),
                ),
                None => Err(PayloadError::FormationViolation),
            },
            Direction::Response => match change_configuration_response_from(value) {
                Some(body) => Ok(
                    OcppPayload::ChangeConfiguration(ChangeConfigurationKind::Response(body)),
                ),
                None => Err(PayloadError::FormationViolation),
            },
        },
        OcppActionEnum::ClearCache => match direction {
            Direction::Request => match clear_cache_request_from(value) {
                Some(body) => Ok(OcppPayload::ClearCache(ClearCacheKind::Request(body))),
                None => Err(PayloadError::FormationViolation),
            },
            Direction::Response => match clear_cache_response_from(value) {
                Some(body) => Ok(OcppPayload::ClearCache(ClearCacheKind::Response(body))),
                None => Err(PayloadError::FormationViolation),
            },
        },
        OcppActionEnum::ClearChargingProfile => match direction {
            Direction::Request => match clear_charging_profile_request_from(value) {
                Some(body) => Ok(
                    OcppPayload::ClearChargingProfile(ClearChargingProfileKind::Request(body)),
                ),
                None => Err(PayloadError::FormationViolation),
            },
            Direction::Response => match clear_charging_profile_response_from(value) {
                Some(body) => Ok(
                    OcppPayload::ClearChargingProfile(ClearChargingProfileKind::Response(body)),
                ),
                None => Err(PayloadError::FormationViolation),
            },
        },
        OcppActionEnum::DataTransfer => match direction {
            Direction::Request => match data_transfer_request_from(value) {
                Some(body) => Ok(OcppPayload::DataTransfer(DataTransferKind::Request(body))),
                None => Err(PayloadError::FormationViolation),
            },
            Direction::Response => match DataTransferResponse::from_value(value) {
                Some(body) => Ok(OcppPayload::DataTransfer(DataTransferKind::Response(body))),
                None => Err(PayloadError::FormationViolation),
            },
        },
        OcppActionEnum::DiagnosticsStatusNotification => match direction {
            Direction::Request => match diagnostics_status_notification_request_from(value) {
                Some(body) => Ok(
                    OcppPayload::DiagnosticsStatusNotification(
                        DiagnosticsStatusNotificationKind::Request(body),
                    ),
                ),
                None => Err(PayloadError::FormationViolation),
            },
            Direction::Response => match diagnostics_status_notification_response_from(value) {
                Some(body) => Ok(
                    OcppPayload::DiagnosticsStatusNotification(
                        DiagnosticsStatusNotificationKind::Response(body),
                    ),
                ),
                None => Err(PayloadError::FormationViolation),
            },
        },
        OcppActionEnum::FirmwareStatusNotification => match direction {
            Direction::Request => match firmware_status_notification_request_from(value) {
                Some(body) => Ok(
                    OcppPayload::FirmwareStatusNotification(
                        FirmwareStatusNotificationKind::Request(body),
                    ),
                ),
                None => Err(PayloadError::FormationViolation),
            },
            Direction::Response => match firmware_status_notification_response_from(value) {
                Some(body) => Ok(
                    OcppPayload::FirmwareStatusNotification(
                        FirmwareStatusNotificationKind::Response(body),
                    ),
                ),
                None => Err(PayloadError::FormationViolation),
            },
        },
        OcppActionEnum::GetCompositeSchedule => match direction {
            Direction::Request => match get_composite_schedule_request_from(value) {
                Some(body) => Ok(
                    OcppPayload::GetCompositeSchedule(GetCompositeScheduleKind::Request(body)),
                ),
                None => Err(PayloadError::FormationViolation),
            },
            Direction::Response => match get_composite_schedule_response_from(value) {
                Some(body) => Ok(
                    OcppPayload::GetCompositeSchedule(GetCompositeScheduleKind::Response(body)),
                ),
                None => Err(PayloadError::FormationViolation),
            },
        },
        OcppActionEnum::GetConfiguration => match direction {
            Direction::Request => match get_configuration_request_from(value) {
                Some(body) => Ok(
                    OcppPayload::GetConfiguration(GetConfigurationKind::Request(body)),
                ),
                None => Err(PayloadError::FormationViolation),
            },
            Direction::Response => match get_configuration_response_from(value) {
                Some(body) => Ok(
                    OcppPayload::GetConfiguration(GetConfigurationKind::Response(body)),
                ),
                None => Err(PayloadError::FormationViolation),
            },
        },
        OcppActionEnum::GetDiagnostics => match direction {
            Direction::Request => match get_diagnostics_request_from(value) {
                Some(body) => Ok(OcppPayload::GetDiagnostics(GetDiagnosticsKind::Request(body))),
                None => Err(PayloadError::FormationViolation),
            },
            Direction::Response => match get_diagnostics_response_from(value) {
                Some(body) => Ok(OcppPayload::GetDiagnostics(GetDiagnosticsKind::Response(body))),
                None => Err(PayloadError::FormationViolation),
            },
        },
        OcppActionEnum::GetLocalListVersion => match direction {
            Direction::Request => match get_local_list_version_request_from(value) {
                Some(body) => Ok(
                    OcppPayload::GetLocalListVersion(GetLocalListVersionKind::Request(body)),
                ),
                None => Err(PayloadError::FormationViolation),
            },
            Direction::Response => match get_local_list_version_response_from(value) {
                Some(body) => Ok(
                    OcppPayload::GetLocalListVersion(GetLocalListVersionKind::Response(body)),
                ),
                None => Err(PayloadError::FormationViolation),
            },
        },
        OcppActionEnum::Heartbeat => match direction {
            Direction::Request => match heartbeat_request_from(value) {
                Some(body) => Ok(OcppPayload::Heartbeat(HeartbeatKind::Request(body))),
                None => Err(PayloadError::FormationViolation),
            },
            Direction::Response => match HeartbeatResponse::from_value(value) {
                Some(body) => Ok(OcppPayload::Heartbeat(HeartbeatKind::Response(body))),
                None => Err(PayloadError::FormationViolation),
            },
        },
        OcppActionEnum::MeterValues => match direction {
            Direction::Request => match meter_values_request_from(value) {
                Some(body) => Ok(OcppPayload::MeterValues(MeterValuesKind::Request(body))),
                None => Err(PayloadError::FormationViolation),
            },
            Direction::Response => match meter_values_response_from(value) {
                Some(body) => Ok(OcppPayload::MeterValues(MeterValuesKind::Response(body))),
                None => Err(PayloadError::FormationViolation),
            },
        },
        OcppActionEnum::RemoteStartTransaction => match direction {
            Direction::Request => match remote_start_transaction_request_from(value) {
                Some(body) => Ok(
                    OcppPayload::RemoteStartTransaction(RemoteStartTransactionKind::Request(body)),
                ),
                None => Err(PayloadError::FormationViolation),
            },
            Direction::Response => match remote_start_transaction_response_from(value) {
                Some(body) => Ok(
                    OcppPayload::RemoteStartTransaction(RemoteStartTransactionKind::Response(body)),
                ),
                None => Err(PayloadError::FormationViolation),
            },
        },
        OcppActionEnum::RemoteStopTransaction => match direction {
            Direction::Request => match remote_stop_transaction_request_from(value) {
                Some(body) => Ok(
                    OcppPayload::RemoteStopTransaction(RemoteStopTransactionKind::Request(body)),
                ),
                None => Err(PayloadError::FormationViolation),
            },
            Direction::Response => match remote_stop_transaction_response_from(value) {
                Some(body) => Ok(
                    OcppPayload::RemoteStopTransaction(RemoteStopTransactionKind::Response(body)),
                ),
                None => Err(PayloadError::FormationViolation),
            },
        },
        OcppActionEnum::ReserveNow => match direction {
            Direction::Request => match reserve_now_request_from(value) {
                Some(body) => Ok(OcppPayload::ReserveNow(ReserveNowKind::Request(body))),
                None => Err(PayloadError::FormationViolation),
            },
            Direction::Response => match reserve_now_response_from(value) {
                Some(body) => Ok(OcppPayload::ReserveNow(ReserveNowKind::Response(body))),
                None => Err(PayloadError::FormationViolation),
            },
        },
        OcppActionEnum::Reset => match direction {
            Direction::Request => match reset_request_from(value) {
                Some(body) => Ok(OcppPayload::Reset(ResetKind::Request(body))),
                None => Err(PayloadError::FormationViolation),
            },
            Direction::Response => match reset_response_from(value) {
                Some(body) => Ok(OcppPayload::Reset(ResetKind::Response(body))),
                None => Err(PayloadError::FormationViolation),
            },
        },
        OcppActionEnum::SendLocalList => match direction {
            Direction::Request => match send_local_list_request_from(value) {
                Some(body) => Ok(OcppPayload::SendLocalList(SendLocalListKind::Request(body))),
                None => Err(PayloadError::FormationViolation),
            },
            Direction::Response => match send_local_list_response_from(value) {
                Some(body) => Ok(OcppPayload::SendLocalList(SendLocalListKind::Response(body))),
                None => Err(PayloadError::FormationViolation),
            },
        },
        OcppActionEnum::SetChargingProfile => match direction {
            Direction::Request => match set_charging_profile_request_from(value) {
                Some(body) => Ok(
                    OcppPayload::SetChargingProfile(SetChargingProfileKind::Request(body)),
                ),
                None => Err(PayloadError::FormationViolation),
            },
            Direction::Response => match set_charging_profile_response_from(value) {
                Some(body) => Ok(
                    OcppPayload::SetChargingProfile(SetChargingProfileKind::Response(body)),
                ),
                None => Err(PayloadError::FormationViolation),
            },
        },
        OcppActionEnum::StartTransaction => match direction {
            Direction::Request => match start_transaction_request_from(value) {
                Some(body) => Ok(
                    OcppPayload::StartTransaction(StartTransactionKind::Request(body)),
                ),
                None => Err(PayloadError::FormationViolation),
            },
            Direction::Response => match start_transaction_response_from(value) {
                Some(body) => Ok(
                    OcppPayload::StartTransaction(StartTransactionKind::Response(body)),
                ),
                None => Err(PayloadError::FormationViolation),
            },
        },
        OcppActionEnum::StatusNotification => match direction {
            Direction::Request => match status_notification_request_from(value) {
                Some(body) => Ok(
                    OcppPayload::StatusNotification(StatusNotificationKind::Request(body)),
                ),
                None => Err(PayloadError::FormationViolation),
            },
            Direction::Response => match status_notification_response_from(value) {
                Some(body) => Ok(
                    OcppPayload::StatusNotification(StatusNotificationKind::Response(body)),
                ),
                None => Err(PayloadError::FormationViolation),
            },
        },
        OcppActionEnum::StopTransaction => match direction {
            Direction::Request => match stop_transaction_request_from(value) {
                Some(body) => Ok(OcppPayload::StopTransaction(StopTransactionKind::Request(body))),
                None => Err(PayloadError::FormationViolation),
            },
            Direction::Response => match StopTransactionResponse::from_value(value) {
                Some(body) => Ok(OcppPayload::StopTransaction(StopTransactionKind::Response(body))),
                None => Err(PayloadError::FormationViolation),
            },
        },
        OcppActionEnum::TriggerMessage => match direction {
            Direction::Request => match trigger_message_request_from(value) {
                Some(body) => Ok(OcppPayload::TriggerMessage(TriggerMessageKind::Request(body))),
                None => Err(PayloadError::FormationViolation),
            },
            Direction::Response => match trigger_message_response_from(value) {
                Some(body) => Ok(OcppPayload::TriggerMessage(TriggerMessageKind::Response(body))),
                None => Err(PayloadError::FormationViolation),
            },
        },
        OcppActionEnum::UnlockConnector => match direction {
            Direction::Request => match unlock_connector_request_from(value) {
                Some(body) => Ok(OcppPayload::UnlockConnector(UnlockConnectorKind::Request(body))),
                None => Err(PayloadError::FormationViolation),
            },
            Direction::Response => match unlock_connector_response_from(value) {
                Some(body) => Ok(OcppPayload::UnlockConnector(UnlockConnectorKind::Response(body))),
                None => Err(PayloadError::FormationViolation),
            },
        },
        OcppActionEnum::UpdateFirmware => match direction {
            Direction::Request => match update_firmware_request_from(value) {
                Some(body) => Ok(OcppPayload::UpdateFirmware(UpdateFirmwareKind::Request(body))),
                None => Err(PayloadError::FormationViolation),
            },
            Direction::Response => match update_firmware_response_from(value) {
                Some(body) => Ok(OcppPayload::UpdateFirmware(UpdateFirmwareKind::Response(body))),
                None => Err(PayloadError::FormationViolation),
            },
        },
    }
}

} // verus!
