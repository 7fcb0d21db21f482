//! The dispatcher: what the central station answers to a frame.
//!
//! Deciding and writing are kept apart. `call_plan` and `text_plan` say,
//! as mathematics, what is owed to a message; `respond_to_call` computes
//! that answer as a typed value; `outcome_of` writes it as frames for the
//! socket, and `carried_out` says which frames those are. Reading a
//! payload as a record and writing a frame as text are the work of
//! `serde_json`; what they give is named, so that every outcome is stated
//! exactly. Only the clock is left open: a function that asks it holds for
//! whatever time came back.

use vstd::prelude::*;
use vstd::string::*;

use crate::action::action_named;
use crate::action::OcppActionEnum;
use crate::codec::decode_envelope;
use crate::codec::decode_json;
use crate::codec::decode_text;
use crate::codec::encoded;
use crate::codec::text_result;
use crate::codec::names_message;
use crate::config::texts;
use crate::json::empty_object;
use crate::json::JsonValue;
use crate::json::object1;
use crate::json::object2;
use crate::json::single_member;
use crate::json::text_value;
use crate::json::two_members;
use crate::json::unsigned_value;
use crate::json::value_json;
use crate::payload::AuthorizeKind;
use crate::payload::BootNotificationKind;
use crate::payload::DataTransferKind;
use crate::payload::decode_payload;
use crate::payload::Direction;
use crate::payload::HeartbeatKind;
use crate::payload::OcppPayload;
use crate::payload::PayloadError;
use crate::payload::record_is_read;
use crate::payload::StopTransactionKind;
use crate::records::AuthorizationStatus;
use crate::records::AuthorizeResponse;
use crate::records::boot_notification_serial;
use crate::records::BootNotificationResponse;
use crate::records::DataTransferResponse;
use crate::records::DataTransferStatus;
use crate::records::HeartbeatResponse;
use crate::records::IdTagInfo;
use crate::records::is_boot_notification_request;
use crate::records::member_text;
use crate::records::optional_text;
use crate::records::RegistrationStatus;
use crate::records::StopTransactionResponse;
use crate::state::admitted;
use crate::state::serial_is_allowed;
use crate::time::Timestamp;
use crate::time::utc_now;
use crate::types::DecodeError;
use crate::types::DecodeFailure;
use crate::types::EncodeError;
use crate::types::Frame;
use crate::types::OcppCallError;
use crate::types::OcppCallResult;
use crate::types::OcppMessageType;
use crate::types::ProtocolViolation;
use crate::types::Violation;

verus! {

/// The heartbeat interval, in seconds, that an accepted charger is given.
pub const HEARTBEAT_INTERVAL: u32 = 300;

/// The close frame of a WebSocket: a status code and a reason.
#[derive(Debug, Clone, PartialEq)]
pub struct CloseFrame {
    pub code: u16,
    pub reason: String,
}

/// A WebSocket message, as plain values.
#[derive(Debug, Clone, PartialEq)]
pub enum WsMessage {
    Text(String),
    Binary(Vec<u8>),
    Ping(Vec<u8>),
    Pong(Vec<u8>),
    Close(Option<CloseFrame>),
}

/// The mathematical content of a WebSocket message.
pub enum Message {
    Text(Seq<char>),
    Binary(Seq<u8>),
    Ping(Seq<u8>),
    Pong(Seq<u8>),
    Close(Option<(u16, Seq<char>)>),
}

impl View for WsMessage {
    type V = Message;

    open spec fn view(&self) -> Message {
        match self {
            WsMessage::Text(s) => Message::Text(s@),
            WsMessage::Binary(b) => Message::Binary(b@),
            WsMessage::Ping(b) => Message::Ping(b@),
            WsMessage::Pong(b) => Message::Pong(b@),
            WsMessage::Close(Some(frame)) => Message::Close(Some((frame.code, frame.reason@))),
            WsMessage::Close(None) => Message::Close(None),
        }
    }
}

/// The contents of a list of messages, in their order.
pub open spec fn messages(list: Seq<WsMessage>) -> Seq<Message> {
    Seq::new(list.len(), |i: int| list[i]@)
}

/// What handling one message gives: the frames to enqueue, in order, and
/// whether the session goes on or ends after them.
#[derive(Debug, Clone, PartialEq)]
pub enum DispatchOutcome {
    Continue(Vec<WsMessage>),
    Close(Vec<WsMessage>),
}

/// The mathematical content of a `DispatchOutcome`.
pub struct Outcome {
    /// Whether the session ends once `outgoing` is enqueued.
    pub closes: bool,
    pub outgoing: Seq<Message>,
}

impl View for DispatchOutcome {
    type V = Outcome;

    open spec fn view(&self) -> Outcome {
        match self {
            DispatchOutcome::Continue(list) => Outcome { closes: false, outgoing: messages(list@) },
            DispatchOutcome::Close(list) => Outcome { closes: true, outgoing: messages(list@) },
        }
    }
}

/// What is owed to a message.
pub enum Plan {
    /// One frame in reply.
    Reply(Frame),
    /// No reply; the session goes on.
    Nothing,
    /// A close frame without code or reason; the session ends.
    Reject,
}

/// The CallResult that answers the message `message_id` with `payload`.
pub open spec fn result_frame(message_id: Seq<char>, payload: JsonValue) -> Frame {
    Frame::CallResult { type_id: 3, message_id, payload }
}

/// The CallError that answers the message `message_id`.
pub open spec fn error_frame(
    message_id: Seq<char>,
    code: Seq<char>,
    description: Seq<char>,
    details: JsonValue,
) -> Frame {
    Frame::CallError { type_id: 4, message_id, code, description, details }
}

/// The status information of an accepted identifier: no expiry date and no
/// parent tag.
pub open spec fn accepted_tag() -> IdTagInfo {
    IdTagInfo { expiry_date: None, parent_id_tag: None, status: AuthorizationStatus::Accepted }
}

/// The payload of the answer to an Authorize request: the identifier is
/// accepted.
pub open spec fn authorize_reply() -> JsonValue {
    (AuthorizeResponse { id_tag_info: accepted_tag() }).json()
}

/// The payload of the answer to an admitted BootNotification request:
/// accepted, the current time, and a heartbeat interval of 300 seconds.
pub open spec fn boot_reply(now: Timestamp) -> JsonValue {
    (BootNotificationResponse {
        current_time: now,
        interval: 300,
        status: RegistrationStatus::Accepted,
    }).json()
}

/// The payload of the answer to a Heartbeat request: the current time.
pub open spec fn heartbeat_reply(now: Timestamp) -> JsonValue {
    (HeartbeatResponse { current_time: now }).json()
}

/// The payload of the answer to a DataTransfer request.
pub open spec fn data_transfer_reply() -> JsonValue {
    object2(
        "status"@,
        JsonValue::Text(DataTransferStatus::Accepted.name()),
        "data"@,
        JsonValue::Text("Data Transfer Accepted"@),
    )
}

/// The payload of the answer to a StopTransaction request: the identifier
/// is accepted.
pub open spec fn stop_transaction_reply() -> JsonValue {
    (StopTransactionResponse { id_tag_info: Some(accepted_tag()) }).json()
}

/// The CallError for an action of the set that the central station does
/// not handle.
pub open spec fn not_implemented_frame(message_id: Seq<char>, action: OcppActionEnum) -> Frame {
    error_frame(
        message_id,
        "NotSupported"@,
        "Action "@ + action.name() + " not implemented"@,
        object1("action"@, JsonValue::Text(action.name())),
    )
}

/// The CallError for an action outside the set.
pub open spec fn unknown_action_frame(message_id: Seq<char>, action: Seq<char>) -> Frame {
    error_frame(
        message_id,
        "NotSupported"@,
        "Unknown action: "@ + action,
        object2(
            "action"@,
            JsonValue::Text(action),
            "reason"@,
            JsonValue::Text("Matching variant not found"@),
        ),
    )
}

/// The name of the envelope that a type identifier stands for.
pub open spec fn envelope_name(type_id: usize) -> Seq<char> {
    if type_id == 2 {
        "Call"@
    } else if type_id == 3 {
        "CallResult"@
    } else {
        "CallError"@
    }
}

/// The CallError for an envelope that stands under another envelope's type
/// identifier: it names the envelope, the identifier that was expected and
/// the one that was received.
pub open spec fn wrong_type_id_frame(message_id: Seq<char>, expected: usize, received: usize)
    -> Frame {
    error_frame(
        message_id,
        "ProtocolError"@,
        "Invalid MessageTypeId for "@ + envelope_name(expected),
        object2(
            "expected"@,
            JsonValue::Unsigned(expected as u64),
            "received"@,
            JsonValue::Unsigned(received as u64),
        ),
    )
}

/// The CallError for a value that names a message but is no envelope.
pub open spec fn malformed_frame(message_id: Seq<char>) -> Frame {
    error_frame(
        message_id,
        "ProtocolError"@,
        "Malformed frame"@,
        JsonValue::Object(Map::<Seq<char>, JsonValue>::empty()),
    )
}

/// What is owed to a Call of a known action.
///
/// - Authorize, DataTransfer, StopTransaction: the accepting answer where
///   the payload is read as the action's request, else nothing.
/// - BootNotification: where the payload is read as the request, the
///   accepting answer if its serial number is admitted and a rejection if
///   not; else nothing.
/// - Heartbeat: the current time, whatever the payload.
/// - StatusNotification: nothing.
/// - Every other action: a `NotSupported` error, whatever the payload.
pub open spec fn call_plan(
    action: OcppActionEnum,
    message_id: Seq<char>,
    payload: JsonValue,
    allowed: Seq<Seq<char>>,
    now: Timestamp,
) -> Plan {
    match action {
        OcppActionEnum::Authorize => if record_is_read(action, Direction::Request, payload) {
            Plan::Reply(result_frame(message_id, authorize_reply()))
        } else {
            Plan::Nothing
        },
        OcppActionEnum::BootNotification => match boot_notification_serial(payload) {
            Some(serial) => if admitted(allowed, serial) {
                Plan::Reply(result_frame(message_id, boot_reply(now)))
            } else {
                Plan::Reject
            },
            None => Plan::Nothing,
        },
        OcppActionEnum::DataTransfer => if record_is_read(action, Direction::Request, payload) {
            Plan::Reply(result_frame(message_id, data_transfer_reply()))
        } else {
            Plan::Nothing
        },
        OcppActionEnum::Heartbeat => Plan::Reply(result_frame(message_id, heartbeat_reply(now))),
        OcppActionEnum::StatusNotification => Plan::Nothing,
        OcppActionEnum::StopTransaction => if record_is_read(
            action,
            Direction::Request,
            payload,
        ) {
            Plan::Reply(result_frame(message_id, stop_transaction_reply()))
        } else {
            Plan::Nothing
        },
        _ => Plan::Reply(not_implemented_frame(message_id, action)),
    }
}

/// What is owed to a Call of a known action, `decoded` being its payload
/// read as a record: what `call_plan` says, with the record in the place of
/// the JSON value.
pub open spec fn answer_plan(
    action: OcppActionEnum,
    message_id: Seq<char>,
    decoded: Result<OcppPayload, PayloadError>,
    allowed: Seq<Seq<char>>,
    now: Timestamp,
) -> Plan {
    match action {
        OcppActionEnum::Authorize => match decoded {
            Ok(OcppPayload::Authorize(AuthorizeKind::Request(_))) => Plan::Reply(
                result_frame(message_id, authorize_reply()),
            ),
            _ => Plan::Nothing,
        },
        OcppActionEnum::BootNotification => match decoded {
            Ok(OcppPayload::BootNotification(BootNotificationKind::Request(request))) => {
                if admitted(allowed, optional_text(request.charge_point_serial_number)) {
                    Plan::Reply(result_frame(message_id, boot_reply(now)))
                } else {
                    Plan::Reject
                }
            },
            _ => Plan::Nothing,
        },
        OcppActionEnum::DataTransfer => match decoded {
            Ok(OcppPayload::DataTransfer(DataTransferKind::Request(_))) => Plan::Reply(
                result_frame(message_id, data_transfer_reply()),
            ),
            _ => Plan::Nothing,
        },
        OcppActionEnum::Heartbeat => Plan::Reply(result_frame(message_id, heartbeat_reply(now))),
        OcppActionEnum::StatusNotification => Plan::Nothing,
        OcppActionEnum::StopTransaction => match decoded {
            Ok(OcppPayload::StopTransaction(StopTransactionKind::Request(_))) => Plan::Reply(
                result_frame(message_id, stop_transaction_reply()),
            ),
            _ => Plan::Nothing,
        },
        _ => Plan::Reply(not_implemented_frame(message_id, action)),
    }
}

/// What is owed to a frame, given what reading it gave.
///
/// - A text that is not JSON, or that names no message: nothing, for there
///   is no message identifier to answer to.
/// - A value that names a message but is no frame: a `ProtocolError` that
///   keeps the message identifier; where the type identifier is not the
///   envelope's, it names both identifiers.
/// - A Call of an unknown action: a `NotSupported` error that keeps the
///   message identifier.
/// - A Call of a known action: what `call_plan` says.
/// - A CallResult or a CallError: nothing, ever.
pub open spec fn frame_plan(
    frame: Result<Frame, DecodeFailure>,
    allowed: Seq<Seq<char>>,
    now: Timestamp,
) -> Plan {
    match frame {
        Err(DecodeFailure::FramingError) => Plan::Nothing,
        Err(DecodeFailure::ProtocolError(Violation::NotAnEnvelope)) => Plan::Nothing,
        Err(DecodeFailure::ProtocolError(Violation::Malformed { message_id })) => Plan::Reply(
            malformed_frame(message_id),
        ),
        Err(
            DecodeFailure::ProtocolError(Violation::WrongTypeId { message_id, expected, received }),
        ) => Plan::Reply(wrong_type_id_frame(message_id, expected, received)),
        Ok(Frame::Call { message_id, action, payload, .. }) => match action_named(action) {
            Some(known) => call_plan(known, message_id, payload, allowed, now),
            None => Plan::Reply(unknown_action_frame(message_id, action)),
        },
        Ok(_) => Plan::Nothing,
    }
}

/// What is owed to a text frame: what is owed to the frame that it is.
pub open spec fn text_plan(text: Seq<char>, allowed: Seq<Seq<char>>, now: Timestamp) -> Plan {
    frame_plan(decode_text(text), allowed, now)
}

/// What writing a frame for the socket gives: the one text frame that holds
/// the text of the frame, and the session goes on. Where the frame is not
/// written, because it is not valid or because `serde_json` reports an
/// error for it, it is dropped and nothing is sent.
pub open spec fn written(frame: Frame) -> Outcome {
    Outcome {
        closes: false,
        outgoing: match encoded(frame) {
            Ok(text) => seq![Message::Text(text)],
            Err(_) => Seq::empty(),
        },
    }
}

/// The outcome that carries out a plan.
///
/// A rejection is one close frame without code or reason, and the session
/// ends. Otherwise the session goes on: with nothing enqueued where
/// nothing is owed, and with the reply written where one is owed (see
/// `written`), so that a reply is dropped only where it cannot be written.
pub open spec fn carried_out(plan: Plan) -> Outcome {
    match plan {
        Plan::Reject => Outcome { closes: true, outgoing: seq![Message::Close(None)] },
        Plan::Nothing => Outcome { closes: false, outgoing: Seq::empty() },
        Plan::Reply(frame) => written(frame),
    }
}

/// The message identifier that a text claims, where it claims one.
pub open spec fn claimed_message_id(frame: Result<Frame, DecodeFailure>) -> Seq<char> {
    match frame {
        Ok(f) => f.message_id(),
        Err(DecodeFailure::ProtocolError(Violation::WrongTypeId { message_id, .. })) => message_id,
        Err(DecodeFailure::ProtocolError(Violation::Malformed { message_id })) => message_id,
        Err(_) => Seq::empty(),
    }
}

/// Every frame that is owed in reply is a valid CallResult or CallError
/// and carries the message identifier of the frame it answers: an answer
/// is paired with its message by the identifier alone, whatever else the
/// central station is doing.
pub proof fn lemma_reply_answers_its_message(
    frame: Result<Frame, DecodeFailure>,
    allowed: Seq<Seq<char>>,
    now: Timestamp,
)
    ensures
        frame_plan(frame, allowed, now) matches Plan::Reply(reply) ==> {
            &&& reply.valid()
            &&& reply is CallResult || reply is CallError
            &&& reply.message_id() == claimed_message_id(frame)
        },
{
}

/// A Call ends the session only where it is a BootNotification whose
/// request is read and whose serial number is not admitted.
pub proof fn lemma_only_admission_rejects(
    action: OcppActionEnum,
    message_id: Seq<char>,
    payload: JsonValue,
    allowed: Seq<Seq<char>>,
    now: Timestamp,
)
    ensures
        call_plan(action, message_id, payload, allowed, now) is Reject <==> {
            &&& action == OcppActionEnum::BootNotification
            &&& boot_notification_serial(payload) matches Some(serial)
            &&& !admitted(allowed, serial)
        },
{
}

/// With an empty allow-list no message ends the session.
pub proof fn lemma_empty_list_rejects_nothing(frame: Result<Frame, DecodeFailure>, now: Timestamp)
    ensures
        !(frame_plan(frame, Seq::empty(), now) is Reject),
{
}

/// A Heartbeat is owed its answer whatever its payload and whatever the
/// allow-list.
pub proof fn lemma_heartbeat_is_always_answered(
    message_id: Seq<char>,
    payload: JsonValue,
    allowed: Seq<Seq<char>>,
    now: Timestamp,
)
    ensures
        call_plan(OcppActionEnum::Heartbeat, message_id, payload, allowed, now) == Plan::Reply(
            result_frame(message_id, heartbeat_reply(now)),
        ),
{
}

/// A value that names a message and is no frame is owed a `ProtocolError`
/// that echoes the message identifier, whatever its length and whatever
/// its type identifier.
pub proof fn lemma_protocol_errors_are_answered(
    j: JsonValue,
    allowed: Seq<Seq<char>>,
    now: Timestamp,
)
    requires
        names_message(j),
        decode_json(j) is Err,
    ensures
        frame_plan(decode_json(j), allowed, now) is Reply,
        ({
            let reply = frame_plan(decode_json(j), allowed, now)->Reply_0;
            &&& reply.valid()
            &&& reply is CallError
            &&& reply.message_id() == j->Array_0[1]->Text_0
            &&& reply->code == "ProtocolError"@
        }),
{
}

/// A BootNotification whose payload is an object of the request's shape is
/// answered by the allow-list alone: accepted where the list is empty or
/// holds the serial number that the object gives, and rejected otherwise.
pub proof fn lemma_boot_notification_of_an_object(
    message_id: Seq<char>,
    members: Map<Seq<char>, JsonValue>,
    allowed: Seq<Seq<char>>,
    now: Timestamp,
)
    requires
        is_boot_notification_request(members),
    ensures
        call_plan(
            OcppActionEnum::BootNotification,
            message_id,
            JsonValue::Object(members),
            allowed,
            now,
        ) == (if admitted(allowed, member_text(members, "chargePointSerialNumber"@)) {
            Plan::Reply(result_frame(message_id, boot_reply(now)))
        } else {
            Plan::Reject
        }),
{
}

/// The central station's answer to a Call, as a typed value.
#[derive(Debug, PartialEq)]
pub enum CallResponse {
    /// The CallResult to send.
    Result(OcppCallResult),
    /// The CallError to send.
    Error(OcppCallError),
    /// No reply.
    Nothing,
    /// The charger is not admitted: close the session.
    Reject,
}

impl CallResponse {
    /// The answer as a plan. The payload of a CallResult counts by its
    /// JSON object, which every record that the central station writes
    /// states.
    pub open spec fn plan(self) -> Plan {
        match self {
            CallResponse::Result(result) => Plan::Reply(
                Frame::CallResult {
                    type_id: result.0,
                    message_id: result.1@,
                    payload: result.2.known_json()->Some_0,
                },
            ),
            CallResponse::Error(error) => Plan::Reply(error@),
            CallResponse::Nothing => Plan::Nothing,
            CallResponse::Reject => Plan::Reject,
        }
    }
}

/// The CallError for an action of the set that the central station does
/// not handle.
pub fn not_implemented(message_id: String, action: OcppActionEnum) -> (r: OcppCallError)
    ensures
        r@ == not_implemented_frame(message_id@, action),
{
    let name: &'static str = action.as_str();
    let description: String = "Action ".to_string().concat(name).concat(" not implemented");
    let details = single_member("action", text_value(name.to_string()));
    OcppCallError(4, message_id, "NotSupported".to_string(), description, details)
}

/// The CallError for an action outside the set.
pub fn unknown_action(message_id: String, action: &str, reason: String) -> (r: OcppCallError)
    ensures
        r@ == error_frame(
            message_id@,
            "NotSupported"@,
            "Unknown action: "@ + action@,
            object2("action"@, JsonValue::Text(action@), "reason"@, JsonValue::Text(reason@)),
        ),
{
    proof {
        reveal_strlit("action");
        reveal_strlit("reason");
        assert("action"@[0] != "reason"@[0]);
    }
    let description: String = "Unknown action: ".to_string().concat(action);
    let details = two_members(
        "action",
        text_value(action.to_string()),
        "reason",
        text_value(reason),
    );
    OcppCallError(4, message_id, "NotSupported".to_string(), description, details)
}

/// The CallError for an envelope that stands under another envelope's type
/// identifier.
pub fn wrong_type_id(message_id: String, expected: usize, received: usize) -> (r: OcppCallError)
    ensures
        r@ == wrong_type_id_frame(message_id@, expected, received),
{
    proof {
        reveal_strlit("expected");
        reveal_strlit("received");
        assert("expected"@[0] != "received"@[0]);
    }
    let details = two_members(
        "expected",
        unsigned_value(expected as u64),
        "received",
        unsigned_value(received as u64),
    );
    let envelope: &'static str = if expected == 2 {
        "Call"
    } else if expected == 3 {
        "CallResult"
    } else {
        "CallError"
    };
    let description: String = "Invalid MessageTypeId for ".to_string().concat(envelope);
    OcppCallError(4, message_id, "ProtocolError".to_string(), description, details)
}

/// The CallError for a value that names a message but is no envelope.
pub fn malformed(message_id: String) -> (r: OcppCallError)
    ensures
        r@ == malformed_frame(message_id@),
{
    OcppCallError(
        4,
        message_id,
        "ProtocolError".to_string(),
        "Malformed frame".to_string(),
        empty_object(),
    )
}

/// Decide the answer to a Call of a known action.
///
/// `decoded` is the payload read as a record, `allowed` the allow-list and
/// `now` the time of the answer. The answer is exactly what `answer_plan`
/// says; a CallResult carries the identifier of the Call and a record whose
/// JSON object is stated.
pub fn respond_to_call(
    message_id: String,
    action: OcppActionEnum,
    decoded: Result<OcppPayload, PayloadError>,
    allowed: &Vec<String>,
    now: Timestamp,
) -> (r: CallResponse)
    ensures
        r.plan() == answer_plan(action, message_id@, decoded, texts(allowed@), now),
        r matches CallResponse::Result(result) ==> result.2.known_json() is Some,
{
    match action {
        OcppActionEnum::Authorize => match decoded {
            Ok(OcppPayload::Authorize(AuthorizeKind::Request(_))) => CallResponse::Result(
                OcppCallResult(
                    3,
                    message_id,
                    OcppPayload::Authorize(
                        AuthorizeKind::Response(
                            AuthorizeResponse {
                                id_tag_info: IdTagInfo {
                                    expiry_date: None,
                                    parent_id_tag: None,
                                    status: AuthorizationStatus::Accepted,
                                },
                            },
                        ),
                    ),
                ),
            ),
            _ => CallResponse::Nothing,
        },
        OcppActionEnum::BootNotification => match decoded {
            Ok(OcppPayload::BootNotification(BootNotificationKind::Request(request))) => {
                if serial_is_allowed(allowed, &request.charge_point_serial_number) {
                    CallResponse::Result(
                        OcppCallResult(
                            3,
                            message_id,
                            OcppPayload::BootNotification(
                                BootNotificationKind::Response(
                                    BootNotificationResponse {
                                        current_time: now,
                                        interval: HEARTBEAT_INTERVAL,
                                        status: RegistrationStatus::Accepted,
                                    },
                                ),
                            ),
                        ),
                    )
                } else {
                    CallResponse::Reject
                }
            },
            _ => CallResponse::Nothing,
        },
        OcppActionEnum::DataTransfer => match decoded {
            Ok(OcppPayload::DataTransfer(DataTransferKind::Request(_))) => CallResponse::Result(
                OcppCallResult(
                    3,
                    message_id,
                    OcppPayload::DataTransfer(
                        DataTransferKind::Response(
                            DataTransferResponse {
                                status: DataTransferStatus::Accepted,
                                data: Some("Data Transfer Accepted".to_string()),
                            },
                        ),
                    ),
                ),
            ),
            _ => CallResponse::Nothing,
        },
        OcppActionEnum::Heartbeat => CallResponse::Result(
            OcppCallResult(
                3,
                message_id,
                OcppPayload::Heartbeat(
                    HeartbeatKind::Response(HeartbeatResponse { current_time: now }),
                ),
            ),
        ),
        OcppActionEnum::StatusNotification => CallResponse::Nothing,
        OcppActionEnum::StopTransaction => match decoded {
            Ok(OcppPayload::StopTransaction(StopTransactionKind::Request(_))) => {
                CallResponse::Result(
                    OcppCallResult(
                        3,
                        message_id,
                        OcppPayload::StopTransaction(
                            StopTransactionKind::Response(
                                StopTransactionResponse {
                                    id_tag_info: Some(
                                        IdTagInfo {
                                            expiry_date: None,
                                            parent_id_tag: None,
                                            status: AuthorizationStatus::Accepted,
                                        },
                                    ),
                                },
                            ),
                        ),
                    ),
                )
            },
            _ => CallResponse::Nothing,
        },
        _ => CallResponse::Error(not_implemented(message_id, action)),
    }
}

/// The frames that carry a written answer: the one text frame with the
/// text, or none where the answer could not be written.
pub fn frames_for(encoded: Result<String, EncodeError>) -> (r: Vec<WsMessage>)
    ensures
        messages(r@) == (match encoded {
            Ok(text) => seq![Message::Text(text@)],
            Err(_) => Seq::<Message>::empty(),
        }),
{
    let mut frames: Vec<WsMessage> = Vec::new();
    if let Ok(text) = encoded {
        frames.push(WsMessage::Text(text));
    }
    proof {
        assert(messages(frames@) =~= (match encoded {
            Ok(text) => seq![Message::Text(text@)],
            Err(_) => Seq::<Message>::empty(),
        }));
    }
    frames
}

/// Write an answer as frames for the socket.
///
/// A rejection is one close frame and ends the session. A CallResult or a
/// CallError is one text frame with its JSON text. The outcome is exactly
/// what carries out the plan of the answer: a reply is dropped only where
/// it is not valid or `serde_json` reports an error for its frame. Of a
/// CallResult whose record the library only carries, the JSON object is
/// not stated; the outcome is then what `written` says of the frame with
/// whatever the record is written as.
pub fn outcome_of(response: CallResponse) -> (r: DispatchOutcome)
    ensures
        (response matches CallResponse::Result(result) ==> result.2.known_json() is Some) ==> r@
            == carried_out(response.plan()),
        response matches CallResponse::Result(result) ==> (result.2.always_written()
            ==> exists|payload: JsonValue| #[trigger]
            result.2.written_as(payload) && r@ == written(result.frame(payload))),
        r@.closes <==> response is Reject,
        r@.outgoing.len() <= 1,
{
    match response {
        CallResponse::Result(result) => {
            let text = result.encode();
            let ghost written_text = text_result(text);
            let frames = frames_for(text);
            let outcome = DispatchOutcome::Continue(frames);
            proof {
                if result.2.always_written() {
                    if result.0 != 3 {
                        let payload = match result.2.known_json() {
                            Some(known) => known,
                            None => JsonValue::Null,
                        };
                        assert(result.2.written_as(payload));
                        assert(outcome@ == written(result.frame(payload)));
                    } else {
                        let payload = choose|payload: JsonValue| #[trigger]
                            result.2.written_as(payload) && written_text == encoded(
                                result.frame(payload),
                            );
                        assert(outcome@ == written(result.frame(payload)));
                    }
                }
            }
            outcome
        },
        CallResponse::Error(error) => {
            let frames = frames_for(error.encode());
            DispatchOutcome::Continue(frames)
        },
        CallResponse::Nothing => {
            let frames: Vec<WsMessage> = Vec::new();
            proof {
                assert(messages(frames@) =~= Seq::<Message>::empty());
            }
            DispatchOutcome::Continue(frames)
        },
        CallResponse::Reject => {
            let mut frames: Vec<WsMessage> = Vec::new();
            frames.push(WsMessage::Close(None));
            proof {
                assert(messages(frames@) =~= seq![Message::Close(None)]);
            }
            DispatchOutcome::Close(frames)
        },
    }
}

/// Handle a Call of a known action at a given time.
///
/// The payload is read as the action's request and the outcome is exactly
/// what carries out `call_plan`: the reply that is owed is sent unless it
/// cannot be written, a charger that is not admitted gets the close frame,
/// and nothing is sent where nothing is owed.
pub fn handle_ocpp_call_at(
    message_type_id: usize,
    message_id: String,
    action: OcppActionEnum,
    payload: serde_json::Value,
    allowed: &Vec<String>,
    now: Timestamp,
) -> (r: DispatchOutcome)
    ensures
        r@ == carried_out(
            call_plan(action, message_id@, value_json(payload), texts(allowed@), now),
        ),
{
    let decoded = decode_payload(action, Direction::Request, payload);
    let response = respond_to_call(message_id, action, decoded, allowed, now);
    outcome_of(response)
}

/// Handle a Call of a known action, the time being that of the answer.
///
/// The outcome is that of `handle_ocpp_call_at` for the time that the clock
/// gave, of which nothing is known.
pub fn handle_ocpp_call(
    message_type_id: usize,
    message_id: String,
    action: OcppActionEnum,
    payload: serde_json::Value,
    allowed: &Vec<String>,
) -> (r: DispatchOutcome)
    ensures
        exists|now: Timestamp|
            r@ == carried_out(
                #[trigger] call_plan(
                    action,
                    message_id@,
                    value_json(payload),
                    texts(allowed@),
                    now,
                ),
            ),
{
    let now = utc_now();
    handle_ocpp_call_at(message_type_id, message_id, action, payload, allowed, now)
}

/// Handle a CallResult from the charger: it is never answered.
pub fn handle_ocpp_call_result(
    message_type_id: usize,
    message_id: String,
    payload: serde_json::Value,
) -> (r: DispatchOutcome)
    ensures
        r@ == carried_out(Plan::Nothing),
{
    let frames: Vec<WsMessage> = Vec::new();
    proof {
        assert(messages(frames@) =~= Seq::<Message>::empty());
    }
    DispatchOutcome::Continue(frames)
}

/// Write a CallError for the socket.
///
/// The outcome is exactly what `written` says of the CallError made of the
/// arguments: the session goes on, and the one text frame with the error's
/// JSON text is enqueued. An error that is not valid (its type identifier
/// is not 4, or its details are no object) is dropped, and so is one for
/// which `serde_json` reports an error.
pub fn handle_ocpp_call_error(
    message_type_id: usize,
    message_id: String,
    error_code: String,
    error_description: String,
    error_details: serde_json::Value,
) -> (r: DispatchOutcome)
    ensures
        r@ == written(
            Frame::CallError {
                type_id: message_type_id,
                message_id: message_id@,
                code: error_code@,
                description: error_description@,
                details: value_json(error_details),
            },
        ),
{
    outcome_of(
        CallResponse::Error(
            OcppCallError(
                message_type_id,
                message_id,
                error_code,
                error_description,
                error_details,
            ),
        ),
    )
}

/// Handle an inbound text frame at a given time.
///
/// The text is read as a frame and the outcome is exactly what carries out
/// `text_plan`: nothing is sent to a text that names no message, to a
/// CallResult and to a CallError; a `ProtocolError` goes to a value that
/// names a message but is no frame, a `NotSupported` error to a Call of an
/// unknown action, and to a Call of a known action what `call_plan` owes.
/// A reply is dropped only where it cannot be written.
pub fn handle_ocpp_messages_at(message: &str, allowed: &Vec<String>, now: Timestamp) -> (r:
    DispatchOutcome)
    ensures
        r@ == carried_out(text_plan(message@, texts(allowed@), now)),
{
    match decode_envelope(message) {
        Err(DecodeError::FramingError) => {
            let frames: Vec<WsMessage> = Vec::new();
            proof {
                assert(messages(frames@) =~= Seq::<Message>::empty());
            }
            DispatchOutcome::Continue(frames)
        },
        Err(DecodeError::ProtocolError(ProtocolViolation::NotAnEnvelope)) => {
            let frames: Vec<WsMessage> = Vec::new();
            proof {
                assert(messages(frames@) =~= Seq::<Message>::empty());
            }
            DispatchOutcome::Continue(frames)
        },
        Err(DecodeError::ProtocolError(ProtocolViolation::Malformed { message_id })) => {
            outcome_of(CallResponse::Error(malformed(message_id)))
        },
        Err(
            DecodeError::ProtocolError(
                ProtocolViolation::WrongTypeId { message_id, expected, received },
            ),
        ) => outcome_of(CallResponse::Error(wrong_type_id(message_id, expected, received))),
        Ok(OcppMessageType::Call(message_type_id, message_id, action, payload)) => {
            match OcppActionEnum::from_str(action.as_str()) {
                Ok(known) => handle_ocpp_call_at(
                    message_type_id,
                    message_id,
                    known,
                    payload,
                    allowed,
                    now,
                ),
                Err(e) => outcome_of(
                    CallResponse::Error(unknown_action(message_id, action.as_str(), e.to_string())),
                ),
            }
        },
        Ok(OcppMessageType::CallResult(message_type_id, message_id, payload)) => {
            handle_ocpp_call_result(message_type_id, message_id, payload)
        },
        Ok(OcppMessageType::CallError(_, _, _, _, _)) => {
            let frames: Vec<WsMessage> = Vec::new();
            proof {
                assert(messages(frames@) =~= Seq::<Message>::empty());
            }
            DispatchOutcome::Continue(frames)
        },
    }
}

/// Handle an inbound text frame, the time being that of the answer.
///
/// The outcome is that of `handle_ocpp_messages_at` for the time that the
/// clock gave, of which nothing is known.
pub fn handle_ocpp_messages(message: &str, allowed: &Vec<String>) -> (r: DispatchOutcome)
    ensures
        exists|now: Timestamp|
            r@ == carried_out(#[trigger] text_plan(message@, texts(allowed@), now)),
{
    let now = utc_now();
    handle_ocpp_messages_at(message, allowed, now)
}

} // verus!
