//! The three envelopes of OCPP 1.6-J and the errors of reading and writing
//! them.
//!
//! - Call: `[2, "<MessageId>", "<Action>", {<Payload>}]`
//! - CallResult: `[3, "<MessageId>", {<Payload>}]`
//! - CallError: `[4, "<MessageId>", "<errorCode>", "<errorDescription>", {<errorDetails>}]`

use vstd::prelude::*;

use crate::action::OcppActionEnum;
use crate::json::JsonValue;
use crate::json::value_json;
use crate::payload::OcppPayload;

verus! {

pub type OcppMessageTypeId = usize;

pub type OcppMessageId = String;

pub type OcppErrorCode = String;

pub type OcppErrorDescription = String;

pub type OcppErrorDetails = serde_json::Value;

/// The message type identifier of a Call.
pub const CALL_MESSAGE_TYPE_ID: OcppMessageTypeId = 2;

/// The message type identifier of a CallResult.
pub const CALL_RESULT_MESSAGE_TYPE_ID: OcppMessageTypeId = 3;

/// The message type identifier of a CallError.
pub const CALL_ERROR_MESSAGE_TYPE_ID: OcppMessageTypeId = 4;

/// Call: `[<MessageTypeId>, "<MessageId>", "<Action>", {<Payload>}]`
#[derive(Debug, PartialEq)]
pub struct OcppCall(
    pub OcppMessageTypeId,
    pub OcppMessageId,
    pub OcppActionEnum,
    pub OcppPayload,
);

/// CallResult: `[<MessageTypeId>, "<MessageId>", {<Payload>}]`
#[derive(Debug, PartialEq)]
pub struct OcppCallResult(pub OcppMessageTypeId, pub OcppMessageId, pub OcppPayload);

/// CallError: `[<MessageTypeId>, "<MessageId>", "<errorCode>", "<errorDescription>",
/// {<errorDetails>}]`
#[derive(Debug, Clone, PartialEq)]
pub struct OcppCallError(
    pub OcppMessageTypeId,
    pub OcppMessageId,
    pub OcppErrorCode,
    pub OcppErrorDescription,
    pub OcppErrorDetails,
);

/// A frame as it stands on the wire: the envelope read, the payload still a
/// JSON value and the action still a string.
#[derive(Debug, Clone, PartialEq)]
pub enum OcppMessageType {
    /// OCPP Call
    Call(usize, String, String, serde_json::Value),
    /// OCPP Result
    CallResult(usize, String, serde_json::Value),
    /// OCPP Error
    CallError(usize, String, String, String, serde_json::Value),
}

/// The mathematical content of a frame.
pub enum Frame {
    Call { type_id: usize, message_id: Seq<char>, action: Seq<char>, payload: JsonValue },
    CallResult { type_id: usize, message_id: Seq<char>, payload: JsonValue },
    CallError {
        type_id: usize,
        message_id: Seq<char>,
        code: Seq<char>,
        description: Seq<char>,
        details: JsonValue,
    },
}

impl View for OcppMessageType {
    type V = Frame;

    open spec fn view(&self) -> Frame {
        match self {
            OcppMessageType::Call(type_id, message_id, action, payload) => Frame::Call {
                type_id: *type_id,
                message_id: message_id@,
                action: action@,
                payload: value_json(*payload),
            },
            OcppMessageType::CallResult(type_id, message_id, payload) => Frame::CallResult {
                type_id: *type_id,
                message_id: message_id@,
                payload: value_json(*payload),
            },
            OcppMessageType::CallError(type_id, message_id, code, description, details) => {
                Frame::CallError {
                    type_id: *type_id,
                    message_id: message_id@,
                    code: code@,
                    description: description@,
                    details: value_json(*details),
                }
            },
        }
    }
}

impl View for OcppCallError {
    type V = Frame;

    open spec fn view(&self) -> Frame {
        Frame::CallError {
            type_id: self.0,
            message_id: self.1@,
            code: self.2@,
            description: self.3@,
            details: value_json(self.4),
        }
    }
}

/// How a JSON value fails to be a frame.
#[derive(Debug, Clone, PartialEq)]
pub enum ProtocolViolation {
    /// The value names no message: it is not an array, or it holds no
    /// string in the place of the message identifier.
    NotAnEnvelope,
    /// The value names a message but is no envelope: its first element is
    /// no type identifier, it does not have three, four or five elements,
    /// or an element is of the wrong kind.
    Malformed { message_id: String },
    /// The elements are those of one envelope, the type identifier that of
    /// another.
    WrongTypeId { message_id: String, expected: usize, received: usize },
}

/// Why a text is not a frame.
#[derive(Debug, Clone, PartialEq)]
pub enum DecodeError {
    /// The text is not JSON at all.
    FramingError,
    /// The text is JSON, but its type identifier or its length is wrong.
    ProtocolError(ProtocolViolation),
}

/// The mathematical content of a `ProtocolViolation`.
pub enum Violation {
    NotAnEnvelope,
    Malformed { message_id: Seq<char> },
    WrongTypeId { message_id: Seq<char>, expected: usize, received: usize },
}

/// The mathematical content of a `DecodeError`.
pub enum DecodeFailure {
    FramingError,
    ProtocolError(Violation),
}

impl View for ProtocolViolation {
    type V = Violation;

    open spec fn view(&self) -> Violation {
        match self {
            ProtocolViolation::NotAnEnvelope => Violation::NotAnEnvelope,
            ProtocolViolation::Malformed { message_id } => Violation::Malformed {
                message_id: message_id@,
            },
            ProtocolViolation::WrongTypeId { message_id, expected, received } => {
                Violation::WrongTypeId {
                    message_id: message_id@,
                    expected: *expected,
                    received: *received,
                }
            },
        }
    }
}

impl View for DecodeError {
    type V = DecodeFailure;

    open spec fn view(&self) -> DecodeFailure {
        match self {
            DecodeError::FramingError => DecodeFailure::FramingError,
            DecodeError::ProtocolError(violation) => DecodeFailure::ProtocolError(violation@),
        }
    }
}

/// Why a frame cannot be written.
#[derive(Debug, Clone, Copy, PartialEq, Eq, Structural)]
pub enum EncodeError {
    /// The type identifier is not that of the envelope.
    WrongTypeId,
    /// The details of a CallError are not a JSON object.
    DetailsNotObject,
    /// A payload or the frame could not be written as JSON.
    NotSerializable,
}

} // verus!
