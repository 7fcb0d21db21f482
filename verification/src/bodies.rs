//! The message bodies that the central station only carries: the records
//! of `rust_ocpp` for OCPP 1.6-J, known to the verifier by name alone.

use vstd::prelude::*;

use rust_ocpp::v1_6::messages::authorize::AuthorizeRequest;
use rust_ocpp::v1_6::messages::cancel_reservation::CancelReservationRequest;
use rust_ocpp::v1_6::messages::cancel_reservation::CancelReservationResponse;
use rust_ocpp::v1_6::messages::change_availability::ChangeAvailabilityRequest;
use rust_ocpp::v1_6::messages::change_availability::ChangeAvailabilityResponse;
use rust_ocpp::v1_6::messages::change_configuration::ChangeConfigurationRequest;
use rust_ocpp::v1_6::messages::change_configuration::ChangeConfigurationResponse;
use rust_ocpp::v1_6::messages::clear_cache::ClearCacheRequest;
use rust_ocpp::v1_6::messages::clear_cache::ClearCacheResponse;
use rust_ocpp::v1_6::messages::clear_charging_profile::ClearChargingProfileRequest;
use rust_ocpp::v1_6::messages::clear_charging_profile::ClearChargingProfileResponse;
use rust_ocpp::v1_6::messages::data_transfer::DataTransferRequest;
use rust_ocpp::v1_6::messages::diagnostics_status_notification::DiagnosticsStatusNotificationRequest;
use rust_ocpp::v1_6::messages::diagnostics_status_notification::DiagnosticsStatusNotificationResponse;
use rust_ocpp::v1_6::messages::firmware_status_notification::FirmwareStatusNotificationRequest;
use rust_ocpp::v1_6::messages::firmware_status_notification::FirmwareStatusNotificationResponse;
use rust_ocpp::v1_6::messages::get_composite_schedule::GetCompositeScheduleRequest;
use rust_ocpp::v1_6::messages::get_composite_schedule::GetCompositeScheduleResponse;
use rust_ocpp::v1_6::messages::get_configuration::GetConfigurationRequest;
use rust_ocpp::v1_6::messages::get_configuration::GetConfigurationResponse;
use rust_ocpp::v1_6::messages::get_diagnostics::GetDiagnosticsRequest;
use rust_ocpp::v1_6::messages::get_diagnostics::GetDiagnosticsResponse;
use rust_ocpp::v1_6::messages::get_local_list_version::GetLocalListVersionRequest;
use rust_ocpp::v1_6::messages::get_local_list_version::GetLocalListVersionResponse;
use rust_ocpp::v1_6::messages::heart_beat::HeartbeatRequest;
use rust_ocpp::v1_6::messages::meter_values::MeterValuesRequest;
use rust_ocpp::v1_6::messages::meter_values::MeterValuesResponse;
use rust_ocpp::v1_6::messages::remote_start_transaction::RemoteStartTransactionRequest;
use rust_ocpp::v1_6::messages::remote_start_transaction::RemoteStartTransactionResponse;
use rust_ocpp::v1_6::messages::remote_stop_transaction::RemoteStopTransactionRequest;
use rust_ocpp::v1_6::messages::remote_stop_transaction::RemoteStopTransactionResponse;
use rust_ocpp::v1_6::messages::reserve_now::ReserveNowRequest;
use rust_ocpp::v1_6::messages::reserve_now::ReserveNowResponse;
use rust_ocpp::v1_6::messages::reset::ResetRequest;
use rust_ocpp::v1_6::messages::reset::ResetResponse;
use rust_ocpp::v1_6::messages::send_local_list::SendLocalListRequest;
use rust_ocpp::v1_6::messages::send_local_list::SendLocalListResponse;
use rust_ocpp::v1_6::messages::set_charging_profile::SetChargingProfileRequest;
use rust_ocpp::v1_6::messages::set_charging_profile::SetChargingProfileResponse;
use rust_ocpp::v1_6::messages::start_transaction::StartTransactionRequest;
use rust_ocpp::v1_6::messages::start_transaction::StartTransactionResponse;
use rust_ocpp::v1_6::messages::status_notification::StatusNotificationRequest;
use rust_ocpp::v1_6::messages::status_notification::StatusNotificationResponse;
use rust_ocpp::v1_6::messages::stop_transaction::StopTransactionRequest;
use rust_ocpp::v1_6::messages::trigger_message::TriggerMessageRequest;
use rust_ocpp::v1_6::messages::trigger_message::TriggerMessageResponse;
use rust_ocpp::v1_6::messages::unlock_connector::UnlockConnectorRequest;
use rust_ocpp::v1_6::messages::unlock_connector::UnlockConnectorResponse;
use rust_ocpp::v1_6::messages::update_firmware::UpdateFirmwareRequest;
use rust_ocpp::v1_6::messages::update_firmware::UpdateFirmwareResponse;

verus! {

/// `rust_ocpp`'s `AuthorizeRequest`: carried, never looked into.
#[verifier::external_type_specification]
#[verifier::external_body]
pub struct ExAuthorizeRequest(AuthorizeRequest);

/// `rust_ocpp`'s `CancelReservationRequest`: carried, never looked into.
#[verifier::external_type_specification]
#[verifier::external_body]
pub struct ExCancelReservationRequest(CancelReservationRequest);

/// `rust_ocpp`'s `CancelReservationResponse`: carried, never looked into.
#[verifier::external_type_specification]
#[verifier::external_body]
pub struct ExCancelReservationResponse(CancelReservationResponse);

/// `rust_ocpp`'s `ChangeAvailabilityRequest`: carried, never looked into.
#[verifier::external_type_specification]
#[verifier::external_body]
pub struct ExChangeAvailabilityRequest(ChangeAvailabilityRequest);

/// `rust_ocpp`'s `ChangeAvailabilityResponse`: carried, never looked into.
#[verifier::external_type_specification]
#[verifier::external_body]
pub struct ExChangeAvailabilityResponse(ChangeAvailabilityResponse);

/// `rust_ocpp`'s `ChangeConfigurationRequest`: carried, never looked into.
#[verifier::external_type_specification]
#[verifier::external_body]
pub struct ExChangeConfigurationRequest(ChangeConfigurationRequest);

/// `rust_ocpp`'s `ChangeConfigurationResponse`: carried, never looked into.
#[verifier::external_type_specification]
#[verifier::external_body]
pub struct ExChangeConfigurationResponse(ChangeConfigurationResponse);

/// `rust_ocpp`'s `ClearCacheRequest`: carried, never looked into.
#[verifier::external_type_specification]
#[verifier::external_body]
pub struct ExClearCacheRequest(ClearCacheRequest);

/// `rust_ocpp`'s `ClearCacheResponse`: carried, never looked into.
#[verifier::external_type_specification]
#[verifier::external_body]
pub struct ExClearCacheResponse(ClearCacheResponse);

/// `rust_ocpp`'s `ClearChargingProfileRequest`: carried, never looked into.
#[verifier::external_type_specification]
#[verifier::external_body]
pub struct ExClearChargingProfileRequest(ClearChargingProfileRequest);

/// `rust_ocpp`'s `ClearChargingProfileResponse`: carried, never looked into.
#[verifier::external_type_specification]
#[verifier::external_body]
pub struct ExClearChargingProfileResponse(ClearChargingProfileResponse);

/// `rust_ocpp`'s `DataTransferRequest`: carried, never looked into.
#[verifier::external_type_specification]
#[verifier::external_body]
pub struct ExDataTransferRequest(DataTransferRequest);

/// `rust_ocpp`'s `DiagnosticsStatusNotificationRequest`: carried, never looked into.
#[verifier::external_type_specification]
#[verifier::external_body]
pub struct ExDiagnosticsStatusNotificationRequest(DiagnosticsStatusNotificationRequest);

/// `rust_ocpp`'s `DiagnosticsStatusNotificationResponse`: carried, never looked into.
#[verifier::external_type_specification]
#[verifier::external_body]
pub struct ExDiagnosticsStatusNotificationResponse(DiagnosticsStatusNotificationResponse);

/// `rust_ocpp`'s `FirmwareStatusNotificationRequest`: carried, never looked into.
#[verifier::external_type_specification]
#[verifier::external_body]
pub struct ExFirmwareStatusNotificationRequest(FirmwareStatusNotificationRequest);

/// `rust_ocpp`'s `FirmwareStatusNotificationResponse`: carried, never looked into.
#[verifier::external_type_specification]
#[verifier::external_body]
pub struct ExFirmwareStatusNotificationResponse(FirmwareStatusNotificationResponse);

/// `rust_ocpp`'s `GetCompositeScheduleRequest`: carried, never looked into.
#[verifier::external_type_specification]
#[verifier::external_body]
pub struct ExGetCompositeScheduleRequest(GetCompositeScheduleRequest);

/// `rust_ocpp`'s `GetCompositeScheduleResponse`: carried, never looked into.
#[verifier::external_type_specification]
#[verifier::external_body]
pub struct ExGetCompositeScheduleResponse(GetCompositeScheduleResponse);

/// `rust_ocpp`'s `GetConfigurationRequest`: carried, never looked into.
#[verifier::external_type_specification]
#[verifier::external_body]
pub struct ExGetConfigurationRequest(GetConfigurationRequest);

/// `rust_ocpp`'s `GetConfigurationResponse`: carried, never looked into.
#[verifier::external_type_specification]
#[verifier::external_body]
pub struct ExGetConfigurationResponse(GetConfigurationResponse);

/// `rust_ocpp`'s `GetDiagnosticsRequest`: carried, never looked into.
#[verifier::external_type_specification]
#[verifier::external_body]
pub struct ExGetDiagnosticsRequest(GetDiagnosticsRequest);

/// `rust_ocpp`'s `GetDiagnosticsResponse`: carried, never looked into.
#[verifier::external_type_specification]
#[verifier::external_body]
pub struct ExGetDiagnosticsResponse(GetDiagnosticsResponse);

/// `rust_ocpp`'s `GetLocalListVersionRequest`: carried, never looked into.
#[verifier::external_type_specification]
#[verifier::external_body]
pub struct ExGetLocalListVersionRequest(GetLocalListVersionRequest);

/// `rust_ocpp`'s `GetLocalListVersionResponse`: carried, never looked into.
#[verifier::external_type_specification]
#[verifier::external_body]
pub struct ExGetLocalListVersionResponse(GetLocalListVersionResponse);

/// `rust_ocpp`'s `HeartbeatRequest`: carried, never looked into.
#[verifier::external_type_specification]
#[verifier::external_body]
pub struct ExHeartbeatRequest(HeartbeatRequest);

/// `rust_ocpp`'s `MeterValuesRequest`: carried, never looked into.
#[verifier::external_type_specification]
#[verifier::external_body]
pub struct ExMeterValuesRequest(MeterValuesRequest);

/// `rust_ocpp`'s `MeterValuesResponse`: carried, never looked into.
#[verifier::external_type_specification]
#[verifier::external_body]
pub struct ExMeterValuesResponse(MeterValuesResponse);

/// `rust_ocpp`'s `RemoteStartTransactionRequest`: carried, never looked into.
#[verifier::external_type_specification]
#[verifier::external_body]
pub struct ExRemoteStartTransactionRequest(RemoteStartTransactionRequest);

/// `rust_ocpp`'s `RemoteStartTransactionResponse`: carried, never looked into.
#[verifier::external_type_specification]
#[verifier::external_body]
pub struct ExRemoteStartTransactionResponse(RemoteStartTransactionResponse);

/// `rust_ocpp`'s `RemoteStopTransactionRequest`: carried, never looked into.
#[verifier::external_type_specification]
#[verifier::external_body]
pub struct ExRemoteStopTransactionRequest(RemoteStopTransactionRequest);

/// `rust_ocpp`'s `RemoteStopTransactionResponse`: carried, never looked into.
#[verifier::external_type_specification]
#[verifier::external_body]
pub struct ExRemoteStopTransactionResponse(RemoteStopTransactionResponse);

/// `rust_ocpp`'s `ReserveNowRequest`: carried, never looked into.
#[verifier::external_type_specification]
#[verifier::external_body]
pub struct ExReserveNowRequest(ReserveNowRequest);

/// `rust_ocpp`'s `ReserveNowResponse`: carried, never looked into.
#[verifier::external_type_specification]
#[verifier::external_body]
pub struct ExReserveNowResponse(ReserveNowResponse);

/// `rust_ocpp`'s `ResetRequest`: carried, never looked into.
#[verifier::external_type_specification]
#[verifier::external_body]
pub struct ExResetRequest(ResetRequest);

/// `rust_ocpp`'s `ResetResponse`: carried, never looked into.
#[verifier::external_type_specification]
#[verifier::external_body]
pub struct ExResetResponse(ResetResponse);

/// `rust_ocpp`'s `SendLocalListRequest`: carried, never looked into.
#[verifier::external_type_specification]
#[verifier::external_body]
pub struct ExSendLocalListRequest(SendLocalListRequest);

/// `rust_ocpp`'s `SendLocalListResponse`: carried, never looked into.
#[verifier::external_type_specification]
#[verifier::external_body]
pub struct ExSendLocalListResponse(SendLocalListResponse);

/// `rust_ocpp`'s `SetChargingProfileRequest`: carried, never looked into.
#[verifier::external_type_specification]
#[verifier::external_body]
pub struct ExSetChargingProfileRequest(SetChargingProfileRequest);

/// `rust_ocpp`'s `SetChargingProfileResponse`: carried, never looked into.
#[verifier::external_type_specification]
#[verifier::external_body]
pub struct ExSetChargingProfileResponse(SetChargingProfileResponse);

/// `rust_ocpp`'s `StartTransactionRequest`: carried, never looked into.
#[verifier::external_type_specification]
#[verifier::external_body]
pub struct ExStartTransactionRequest(StartTransactionRequest);

/// `rust_ocpp`'s `StartTransactionResponse`: carried, never looked into.
#[verifier::external_type_specification]
#[verifier::external_body]
pub struct ExStartTransactionResponse(StartTransactionResponse);

/// `rust_ocpp`'s `StatusNotificationRequest`: carried, never looked into.
#[verifier::external_type_specification]
#[verifier::external_body]
pub struct ExStatusNotificationRequest(StatusNotificationRequest);

/// `rust_ocpp`'s `StatusNotificationResponse`: carried, never looked into.
#[verifier::external_type_specification]
#[verifier::external_body]
pub struct ExStatusNotificationResponse(StatusNotificationResponse);

/// `rust_ocpp`'s `StopTransactionRequest`: carried, never looked into.
#[verifier::external_type_specification]
#[verifier::external_body]
pub struct ExStopTransactionRequest(StopTransactionRequest);

/// `rust_ocpp`'s `TriggerMessageRequest`: carried, never looked into.
#[verifier::external_type_specification]
#[verifier::external_body]
pub struct ExTriggerMessageRequest(TriggerMessageRequest);

/// `rust_ocpp`'s `TriggerMessageResponse`: carried, never looked into.
#[verifier::external_type_specification]
#[verifier::external_body]
pub struct ExTriggerMessageResponse(TriggerMessageResponse);

/// `rust_ocpp`'s `UnlockConnectorRequest`: carried, never looked into.
#[verifier::external_type_specification]
#[verifier::external_body]
pub struct ExUnlockConnectorRequest(UnlockConnectorRequest);

/// `rust_ocpp`'s `UnlockConnectorResponse`: carried, never looked into.
#[verifier::external_type_specification]
#[verifier::external_body]
pub struct ExUnlockConnectorResponse(UnlockConnectorResponse);

/// `rust_ocpp`'s `UpdateFirmwareRequest`: carried, never looked into.
#[verifier::external_type_specification]
#[verifier::external_body]
pub struct ExUpdateFirmwareRequest(UpdateFirmwareRequest);

/// `rust_ocpp`'s `UpdateFirmwareResponse`: carried, never looked into.
#[verifier::external_type_specification]
#[verifier::external_body]
pub struct ExUpdateFirmwareResponse(UpdateFirmwareResponse);

} // verus!
