//! The wire framing codec: frames to JSON arrays and back.
//!
//! A frame is a JSON array whose first element is the message type
//! identifier. Reading is strict: the number of elements decides which
//! envelope a frame claims to be, and the identifier must be that
//! envelope's. Writing refuses a frame that reading would not give back.

use vstd::prelude::*;
use vstd::string::*;

use crate::json::array_value;
use crate::json::json_of_text;
use crate::json::JsonValue;
use crate::json::parse_value;
use crate::json::text_of_json;
use crate::json::text_value;
use crate::json::unsigned_value;
use crate::json::value_json;
use crate::json::value_text;
use crate::json::values_json;
use crate::types::DecodeError;
use crate::types::DecodeFailure;
use crate::types::EncodeError;
use crate::types::Frame;
use crate::types::OcppCall;
use crate::types::OcppCallError;
use crate::types::OcppCallResult;
use crate::types::OcppMessageType;
use crate::types::ProtocolViolation;
use crate::types::Violation;

verus! {

impl Frame {
    /// The message type identifier that the frame carries.
    pub open spec fn type_id(self) -> usize {
        match self {
            Frame::Call { type_id, .. } => type_id,
            Frame::CallResult { type_id, .. } => type_id,
            Frame::CallError { type_id, .. } => type_id,
        }
    }

    /// The message type identifier of the frame's envelope: 2 for a Call,
    /// 3 for a CallResult, 4 for a CallError.
    pub open spec fn envelope_type_id(self) -> usize {
        match self {
            Frame::Call { .. } => 2,
            Frame::CallResult { .. } => 3,
            Frame::CallError { .. } => 4,
        }
    }

    /// The number of elements of the frame's envelope.
    pub open spec fn arity(self) -> nat {
        match self {
            Frame::Call { .. } => 4,
            Frame::CallResult { .. } => 3,
            Frame::CallError { .. } => 5,
        }
    }

    /// The message identifier of the frame.
    pub open spec fn message_id(self) -> Seq<char> {
        match self {
            Frame::Call { message_id, .. } => message_id,
            Frame::CallResult { message_id, .. } => message_id,
            Frame::CallError { message_id, .. } => message_id,
        }
    }

    /// A frame that may stand on the wire: it carries the identifier of its
    /// envelope, and the details of a CallError are an object.
    pub open spec fn valid(self) -> bool {
        &&& self.type_id() == self.envelope_type_id()
        &&& self matches Frame::CallError { details, .. } ==> details is Object
    }

    /// The JSON array of the frame: its elements in the order of the
    /// envelope, the identifier as a number.
    pub open spec fn json(self) -> JsonValue {
        match self {
            Frame::Call { type_id, message_id, action, payload } => JsonValue::Array(
                seq![
                    JsonValue::Unsigned(type_id as u64),
                    JsonValue::Text(message_id),
                    JsonValue::Text(action),
                    payload,
                ],
            ),
            Frame::CallResult { type_id, message_id, payload } => JsonValue::Array(
                seq![JsonValue::Unsigned(type_id as u64), JsonValue::Text(message_id), payload],
            ),
            Frame::CallError { type_id, message_id, code, description, details } => {
                JsonValue::Array(
                    seq![
                        JsonValue::Unsigned(type_id as u64),
                        JsonValue::Text(message_id),
                        JsonValue::Text(code),
                        JsonValue::Text(description),
                        details,
                    ],
                )
            },
        }
    }
}

/// The failure of a value that names no message.
pub open spec fn not_an_envelope() -> DecodeFailure {
    DecodeFailure::ProtocolError(Violation::NotAnEnvelope)
}

/// The failure of a value that names a message but is no envelope.
pub open spec fn malformed(message_id: Seq<char>) -> DecodeFailure {
    DecodeFailure::ProtocolError(Violation::Malformed { message_id })
}

/// The failure of an envelope under another envelope's type identifier.
pub open spec fn wrong_type_id(message_id: Seq<char>, expected: usize, received: usize)
    -> DecodeFailure {
    DecodeFailure::ProtocolError(Violation::WrongTypeId { message_id, expected, received })
}

/// Whether a value names a message: an array with a string in the second
/// place, where the message identifier stands in every envelope.
pub open spec fn names_message(j: JsonValue) -> bool {
    &&& j is Array
    &&& j->Array_0.len() >= 2
    &&& j->Array_0[1] is Text
}

/// Whether a value is a type identifier: a number that is a non-negative
/// integer and fits the machine's word.
pub open spec fn is_type_id(j: JsonValue) -> bool {
    j is Unsigned && j->Unsigned_0 <= usize::MAX
}

/// The frame that a JSON value is, or why it is none.
///
/// A value that names no message is `NotAnEnvelope`. Every other failure
/// keeps the message identifier. The first element must be a type
/// identifier. Four elements make a Call, three a CallResult, five a
/// CallError; an action, an error code and an error description must be
/// strings; whatever does not fit is `Malformed`. Where all fits and the
/// type identifier is not the envelope's, the failure is `WrongTypeId` and
/// names both identifiers.
pub open spec fn decode_json(j: JsonValue) -> Result<Frame, DecodeFailure> {
    if !names_message(j) {
        Err(not_an_envelope())
    } else {
        let items = j->Array_0;
        let message_id = items[1]->Text_0;
        let type_id = items[0]->Unsigned_0 as usize;
        if !is_type_id(items[0]) {
            Err(malformed(message_id))
        } else if items.len() == 4 {
            if !(items[2] is Text) {
                Err(malformed(message_id))
            } else if type_id == 2 {
                Ok(Frame::Call { type_id, message_id, action: items[2]->Text_0, payload: items[3] })
            } else {
                Err(wrong_type_id(message_id, 2, type_id))
            }
        } else if items.len() == 3 {
            if type_id == 3 {
                Ok(Frame::CallResult { type_id, message_id, payload: items[2] })
            } else {
                Err(wrong_type_id(message_id, 3, type_id))
            }
        } else if items.len() == 5 {
            if !(items[2] is Text && items[3] is Text) {
                Err(malformed(message_id))
            } else if type_id == 4 {
                Ok(
                    Frame::CallError {
                        type_id,
                        message_id,
                        code: items[2]->Text_0,
                        description: items[3]->Text_0,
                        details: items[4],
                    },
                )
            } else {
                Err(wrong_type_id(message_id, 4, type_id))
            }
        } else {
            Err(malformed(message_id))
        }
    }
}

/// Whatever JSON value names a message keeps its message identifier when it
/// fails to be a frame, so that the failure can be answered.
pub proof fn lemma_failure_keeps_the_message_id(j: JsonValue)
    requires
        names_message(j),
    ensures
        decode_json(j) matches Err(failure) ==> {
            ||| failure == malformed(j->Array_0[1]->Text_0)
            ||| exists|expected: usize, received: usize|
                failure == #[trigger] wrong_type_id(j->Array_0[1]->Text_0, expected, received)
        },
{
    if decode_json(j) is Err {
        let failure = decode_json(j)->Err_0;
        let id = j->Array_0[1]->Text_0;
        if failure != malformed(id) {
            let received = j->Array_0[0]->Unsigned_0 as usize;
            let expected: usize = if j->Array_0.len() == 4 {
                2
            } else if j->Array_0.len() == 3 {
                3
            } else {
                4
            };
            assert(failure == wrong_type_id(id, expected, received));
        }
    }
}

/// The text that a frame is written as, or why it is not written.
///
/// A frame under a type identifier that is not its envelope's is refused
/// with `WrongTypeId`; past that, a CallError whose details are no object
/// is refused with `DetailsNotObject`. A valid frame is written as the
/// compact text of its JSON array, and is `NotSerializable` where
/// `serde_json` reports an error for that array.
pub open spec fn encoded(frame: Frame) -> Result<Seq<char>, EncodeError> {
    if frame.type_id() != frame.envelope_type_id() {
        Err(EncodeError::WrongTypeId)
    } else if !frame.valid() {
        Err(EncodeError::DetailsNotObject)
    } else {
        match text_of_json(frame.json()) {
            Some(text) => Ok(text),
            None => Err(EncodeError::NotSerializable),
        }
    }
}

/// The frame that a text is, or why it is none: a text that is not JSON is
/// a framing error, any other is read as `decode_json` says.
pub open spec fn decode_text(text: Seq<char>) -> Result<Frame, DecodeFailure> {
    match json_of_text(text) {
        Some(j) => decode_json(j),
        None => Err(DecodeFailure::FramingError),
    }
}

/// The view of a decoding result.
pub open spec fn decoded_view(r: Result<OcppMessageType, DecodeError>) -> Result<
    Frame,
    DecodeFailure,
> {
    match r {
        Ok(m) => Ok(m@),
        Err(e) => Err(e@),
    }
}

/// Reading what was written gives the frame back: every valid frame is the
/// decoding of its own JSON array.
pub proof fn lemma_decode_of_encode(f: Frame)
    requires
        f.valid(),
    ensures
        decode_json(f.json()) == Ok::<Frame, DecodeFailure>(f),
{
    let j = f.json();
    assert(j is Array);
    let items = j->Array_0;
    assert(items.len() == f.arity());
    assert(items[0] == JsonValue::Unsigned(f.type_id() as u64));
    assert(items[1] == JsonValue::Text(f.message_id()));
    assert((f.type_id() as u64) as usize == f.type_id());
}

/// The same of texts, as far as it is the library's to say: where
/// `serde_json` writes the frame's JSON array and reads back the text that
/// it wrote, reading the text of a valid frame gives the frame back.
pub proof fn lemma_decode_of_encode_text(f: Frame, text: Seq<char>)
    requires
        encoded(f) == Ok::<Seq<char>, EncodeError>(text),
        json_of_text(text) == Some(f.json()),
    ensures
        decode_text(text) == Ok::<Frame, DecodeFailure>(f),
{
    lemma_decode_of_encode(f);
}

/// Writing what was read gives the JSON value back: a value that decodes
/// to a frame is that frame's JSON array.
pub proof fn lemma_encode_of_decode(j: JsonValue)
    ensures
        decode_json(j) matches Ok(f) ==> f.json() == j,
{
    if decode_json(j) is Ok {
        let f = decode_json(j)->Ok_0;
        assert(f.json()->Array_0 =~= j->Array_0);
    }
}

/// Every decoded frame carries a type identifier among 2, 3 and 4, the
/// identifier is that of its envelope, and the array it was read from has
/// exactly the envelope's number of elements.
pub proof fn lemma_decoded_frame_is_well_formed(j: JsonValue)
    ensures
        decode_json(j) matches Ok(f) ==> {
            &&& f.type_id() == 2 || f.type_id() == 3 || f.type_id() == 4
            &&& f.type_id() == f.envelope_type_id()
            &&& j is Array
            &&& j->Array_0.len() == f.arity()
        },
{
}

/// The same of texts: whatever text decodes, the frame is well formed.
pub proof fn lemma_decoded_text_is_well_formed(text: Seq<char>)
    ensures
        decode_text(text) matches Ok(f) ==> {
            &&& f.type_id() == 2 || f.type_id() == 3 || f.type_id() == 4
            &&& f.type_id() == f.envelope_type_id()
            &&& json_of_text(text) matches Some(j) && j is Array && j->Array_0.len() == f.arity()
        },
{
    if json_of_text(text) is Some {
        lemma_decoded_frame_is_well_formed(json_of_text(text)->Some_0);
    }
}

/// Read a frame from a JSON value.
pub fn decode_frame(v: &serde_json::Value) -> (r: Result<OcppMessageType, DecodeError>)
    ensures
        decoded_view(r) == decode_json(value_json(*v)),
{
    let items = match v.as_array() {
        Some(items) => items,
        None => {
            return Err(DecodeError::ProtocolError(ProtocolViolation::NotAnEnvelope));
        },
    };
    let len: usize = items.len();
    if len < 2 {
        return Err(DecodeError::ProtocolError(ProtocolViolation::NotAnEnvelope));
    }
    let ghost models = values_json(items@);
    assert(value_json(*v) == JsonValue::Array(models));
    assert(models.len() == len);
    assert(forall|i: int| 0 <= i < len ==> models[i] == value_json(#[trigger] items@[i]));
    let message_id: String = match items[1].as_str() {
        Some(s) => s.to_string(),
        None => {
            return Err(DecodeError::ProtocolError(ProtocolViolation::NotAnEnvelope));
        },
    };
    let number: u64 = match items[0].as_u64() {
        Some(n) => n,
        None => {
            return Err(DecodeError::ProtocolError(ProtocolViolation::Malformed { message_id }));
        },
    };
    if number > usize::MAX as u64 {
        return Err(DecodeError::ProtocolError(ProtocolViolation::Malformed { message_id }));
    }
    let type_id: usize = number as usize;
    if len == 4 {
        let action: String = match items[2].as_str() {
            Some(s) => s.to_string(),
            None => {
                return Err(
                    DecodeError::ProtocolError(ProtocolViolation::Malformed { message_id }),
                );
            },
        };
        if type_id == 2 {
            Ok(OcppMessageType::Call(type_id, message_id, action, items[3].clone()))
        } else {
            Err(
                DecodeError::ProtocolError(
                    ProtocolViolation::WrongTypeId { message_id, expected: 2, received: type_id },
                ),
            )
        }
    } else if len == 3 {
        if type_id == 3 {
            Ok(OcppMessageType::CallResult(type_id, message_id, items[2].clone()))
        } else {
            Err(
                DecodeError::ProtocolError(
                    ProtocolViolation::WrongTypeId { message_id, expected: 3, received: type_id },
                ),
            )
        }
    } else if len == 5 {
        let code: String = match items[2].as_str() {
            Some(s) => s.to_string(),
            None => {
                return Err(
                    DecodeError::ProtocolError(ProtocolViolation::Malformed { message_id }),
                );
            },
        };
        let description: String = match items[3].as_str() {
            Some(s) => s.to_string(),
            None => {
                return Err(
                    DecodeError::ProtocolError(ProtocolViolation::Malformed { message_id }),
                );
            },
        };
        if type_id == 4 {
            Ok(
                OcppMessageType::CallError(
                    type_id,
                    message_id,
                    code,
                    description,
                    items[4].clone(),
                ),
            )
        } else {
            Err(
                DecodeError::ProtocolError(
                    ProtocolViolation::WrongTypeId { message_id, expected: 4, received: type_id },
                ),
            )
        }
    } else {
        Err(DecodeError::ProtocolError(ProtocolViolation::Malformed { message_id }))
    }
}

/// Read a frame from its text.
///
/// A text that is not JSON is a `FramingError`. JSON that is no frame is a
/// `ProtocolError`: `NotAnEnvelope` where it names no message, else
/// `Malformed` or `WrongTypeId` with the message identifier. Anything else
/// is the frame.
pub fn decode_envelope(text: &str) -> (r: Result<OcppMessageType, DecodeError>)
    ensures
        decoded_view(r) == decode_text(text@),
{
    match parse_value(text) {
        Ok(v) => decode_frame(&v),
        Err(_) => Err(DecodeError::FramingError),
    }
}

impl OcppMessageType {
    /// The frame as a JSON value, where the frame is valid.
    ///
    /// A type identifier that is not the envelope's is refused with
    /// `WrongTypeId`; past that, details of a CallError that are no object
    /// are refused with `DetailsNotObject`.
    pub fn to_value(&self) -> (r: Result<serde_json::Value, EncodeError>)
        ensures
            self@.valid() <==> r is Ok,
            r matches Ok(v) ==> value_json(v) == self@.json(),
            r matches Err(e) ==> e == (if self@.type_id() != self@.envelope_type_id() {
                EncodeError::WrongTypeId
            } else {
                EncodeError::DetailsNotObject
            }),
    {
        let mut items: Vec<serde_json::Value> = Vec::new();
        match self {
            OcppMessageType::Call(type_id, message_id, action, payload) => {
                if *type_id != 2 {
                    return Err(EncodeError::WrongTypeId);
                }
                items.push(unsigned_value(*type_id as u64));
                items.push(text_value(message_id.clone()));
                items.push(text_value(action.clone()));
                items.push(payload.clone());
            },
            OcppMessageType::CallResult(type_id, message_id, payload) => {
                if *type_id != 3 {
                    return Err(EncodeError::WrongTypeId);
                }
                items.push(unsigned_value(*type_id as u64));
                items.push(text_value(message_id.clone()));
                items.push(payload.clone());
            },
            OcppMessageType::CallError(type_id, message_id, code, description, details) => {
                if *type_id != 4 {
                    return Err(EncodeError::WrongTypeId);
                }
                if !details.is_object() {
                    return Err(EncodeError::DetailsNotObject);
                }
                items.push(unsigned_value(*type_id as u64));
                items.push(text_value(message_id.clone()));
                items.push(text_value(code.clone()));
                items.push(text_value(description.clone()));
                items.push(details.clone());
            },
        }
        assert(values_json(items@) =~= self@.json()->Array_0);
        Ok(array_value(items))
    }

    /// The frame as compact JSON text, where the frame is valid.
    ///
    /// An invalid frame is refused as `to_value` says. A valid frame is
    /// handed to `serde_json`; what comes back is exactly what `encoded`
    /// names: the text of the frame's JSON array, or `NotSerializable`.
    pub fn encode(&self) -> (r: Result<String, EncodeError>)
        ensures
            r matches Ok(s) ==> encoded(self@) == Ok::<Seq<char>, EncodeError>(s@),
            r matches Err(e) ==> encoded(self@) == Err::<Seq<char>, EncodeError>(e),
    {
        match self.to_value() {
            Ok(v) => match value_text(&v) {
                Ok(s) => Ok(s),
                Err(_) => Err(EncodeError::NotSerializable),
            },
            Err(e) => Err(e),
        }
    }
}

/// The text or the error of a result of writing.
pub open spec fn text_result(r: Result<String, EncodeError>) -> Result<Seq<char>, EncodeError> {
    match r {
        Ok(s) => Ok(s@),
        Err(e) => Err(e),
    }
}

impl OcppCall {
    /// The frame of the Call with a payload of the given JSON value.
    pub open spec fn frame(&self, payload: JsonValue) -> Frame {
        Frame::Call { type_id: self.0, message_id: self.1@, action: self.2.name(), payload }
    }

    /// The Call as a frame: its payload written as JSON, its action by its
    /// wire name.
    ///
    /// The frame comes back wherever the payload is owed a value (see
    /// `OcppPayload::always_written`). For a record whose fields the
    /// library holds itself the payload of the frame is exactly the
    /// record's JSON object. The only error is `NotSerializable`.
    pub fn to_frame(&self) -> (r: Result<OcppMessageType, EncodeError>)
        ensures
            self.3.always_written() ==> r is Ok,
            r matches Ok(m) ==> m@ is Call && self.3.written_as(m@->Call_payload) && m@
                == self.frame(m@->Call_payload),
            r matches Err(e) ==> e == EncodeError::NotSerializable,
    {
        match self.3.to_value() {
            Ok(payload) => Ok(
                OcppMessageType::Call(self.0, self.1.clone(), self.2.to_string(), payload),
            ),
            Err(_) => Err(EncodeError::NotSerializable),
        }
    }

    /// The Call as compact JSON text.
    ///
    /// A type identifier other than 2 is refused with `WrongTypeId`. Past
    /// that, where the payload is owed a value, the result is exactly what
    /// `encoded` names for the frame of the Call with what the payload is
    /// written as: its text, or `NotSerializable`.
    pub fn encode(&self) -> (r: Result<String, EncodeError>)
        ensures
            self.0 != 2 ==> r == Err::<String, EncodeError>(EncodeError::WrongTypeId),
            self.0 == 2 && self.3.always_written() ==> exists|payload: JsonValue| #[trigger]
                self.3.written_as(payload) && text_result(r) == encoded(self.frame(payload)),
            r matches Ok(s) ==> exists|payload: JsonValue| #[trigger]
                self.3.written_as(payload) && encoded(self.frame(payload)) == Ok::<
                    Seq<char>,
                    EncodeError,
                >(s@),
            self.0 == 2 ==> (r matches Err(e) ==> e == EncodeError::NotSerializable),
    {
        if self.0 != 2 {
            return Err(EncodeError::WrongTypeId);
        }
        match self.to_frame() {
            Ok(frame) => {
                let r = frame.encode();
                proof {
                    let payload = frame@->Call_payload;
                    assert(self.3.written_as(payload));
                    assert(text_result(r) == encoded(self.frame(payload)));
                }
                r
            },
            Err(e) => Err(e),
        }
    }
}

impl OcppCallResult {
    /// The frame of the CallResult with a payload of the given JSON value.
    pub open spec fn frame(&self, payload: JsonValue) -> Frame {
        Frame::CallResult { type_id: self.0, message_id: self.1@, payload }
    }

    /// The CallResult as a frame: its payload written as JSON.
    ///
    /// The frame comes back wherever the payload is owed a value (see
    /// `OcppPayload::always_written`). For a record whose fields the
    /// library holds itself the payload of the frame is exactly the
    /// record's JSON object. The only error is `NotSerializable`.
    pub fn to_frame(&self) -> (r: Result<OcppMessageType, EncodeError>)
        ensures
            self.2.always_written() ==> r is Ok,
            r matches Ok(m) ==> m@ is CallResult && self.2.written_as(m@->CallResult_payload)
                && m@ == self.frame(m@->CallResult_payload),
            r matches Err(e) ==> e == EncodeError::NotSerializable,
    {
        match self.2.to_value() {
            Ok(payload) => Ok(OcppMessageType::CallResult(self.0, self.1.clone(), payload)),
            Err(_) => Err(EncodeError::NotSerializable),
        }
    }

    /// The CallResult as compact JSON text.
    ///
    /// A type identifier other than 3 is refused with `WrongTypeId`. Past
    /// that, where the payload is owed a value, the result is exactly what
    /// `encoded` names for the frame of the CallResult with what the
    /// payload is written as: its text, or `NotSerializable`.
    pub fn encode(&self) -> (r: Result<String, EncodeError>)
        ensures
            self.0 != 3 ==> r == Err::<String, EncodeError>(EncodeError::WrongTypeId),
            self.0 == 3 && self.2.always_written() ==> exists|payload: JsonValue| #[trigger]
                self.2.written_as(payload) && text_result(r) == encoded(self.frame(payload)),
            r matches Ok(s) ==> exists|payload: JsonValue| #[trigger]
                self.2.written_as(payload) && encoded(self.frame(payload)) == Ok::<
                    Seq<char>,
                    EncodeError,
                >(s@),
            self.0 == 3 ==> (r matches Err(e) ==> e == EncodeError::NotSerializable),
    {
        if self.0 != 3 {
            return Err(EncodeError::WrongTypeId);
        }
        match self.to_frame() {
            Ok(frame) => {
                let r = frame.encode();
                proof {
                    let payload = frame@->CallResult_payload;
                    assert(self.2.written_as(payload));
                    assert(text_result(r) == encoded(self.frame(payload)));
                }
                r
            },
            Err(e) => Err(e),
        }
    }
}

impl OcppCallError {
    /// The CallError as a frame.
    pub fn to_frame(&self) -> (r: OcppMessageType)
        ensures
            r@ == self@,
    {
        OcppMessageType::CallError(
            self.0,
            self.1.clone(),
            self.2.clone(),
            self.3.clone(),
            self.4.clone(),
        )
    }

    /// The CallError as compact JSON text, where it is valid: its type
    /// identifier is 4 and its details are an object. What comes back is
    /// exactly what `encoded` names.
    pub fn encode(&self) -> (r: Result<String, EncodeError>)
        ensures
            r matches Ok(s) ==> encoded(self@) == Ok::<Seq<char>, EncodeError>(s@),
            r matches Err(e) ==> encoded(self@) == Err::<Seq<char>, EncodeError>(e),
    {
        self.to_frame().encode()
    }
}

} // verus!
