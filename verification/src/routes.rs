//! The health answer of the HTTP surface.

use vstd::prelude::*;

use crate::json::JsonValue;
use crate::json::object2;
use crate::json::text_value;
use crate::json::two_members;
use crate::json::value_json;
use crate::time::rfc3339_text;
use crate::time::Timestamp;

verus! {

/// What `GET /` answers: a status code, the value of the `Cache-Control`
/// header and a JSON body.
#[derive(Debug, PartialEq)]
pub struct HealthResponse {
    pub status: u16,
    pub cache_control: String,
    pub body: serde_json::Value,
}

/// The body of the health answer of a server that has started.
pub open spec fn started_body(started_at: Timestamp) -> JsonValue {
    object2(
        "status"@,
        JsonValue::Text("ok"@),
        "started_at"@,
        JsonValue::Text(rfc3339_text(started_at.spec_secs(), started_at.spec_nanos())),
    )
}

/// The body of the health answer of a server that has not started.
pub open spec fn unavailable_body() -> JsonValue {
    object2(
        "status"@,
        JsonValue::Text("unavailable"@),
        "message"@,
        JsonValue::Text("Server has not started yet"@),
    )
}

/// The health answer, `started_at` being the startup time where it has
/// been captured.
///
/// With a startup time: `200`, cacheable for a minute, and a body that
/// says `ok` and gives the time as RFC 3339 text. Without: `503`, not to
/// be stored, and a body that says `unavailable`.
pub fn healthcheck_route(started_at: Option<&Timestamp>) -> (r: HealthResponse)
    ensures
        started_at matches Some(t) ==> {
            &&& r.status == 200
            &&& r.cache_control@ == "public, max-age=60"@
            &&& value_json(r.body) == started_body(*t)
        },
        started_at is None ==> {
            &&& r.status == 503
            &&& r.cache_control@ == "no-store"@
            &&& value_json(r.body) == unavailable_body()
        },
{
    proof {
        reveal_strlit("status");
        reveal_strlit("started_at");
        reveal_strlit("message");
        assert("status"@.len() != "started_at"@.len());
        assert("status"@.len() != "message"@.len());
    }
    match started_at {
        Some(time) => HealthResponse {
            status: 200,
            cache_control: "public, max-age=60".to_string(),
            body: two_members(
                "status",
                text_value("ok".to_string()),
                "started_at",
                text_value(time.to_rfc3339()),
            ),
        },
        None => HealthResponse {
            status: 503,
            cache_control: "no-store".to_string(),
            body: two_members(
                "status",
                text_value("unavailable".to_string()),
                "message",
                text_value("Server has not started yet".to_string()),
            ),
        },
    }
}

} // verus!
