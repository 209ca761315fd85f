use vstd::prelude::*;

use crate::evaluate::EvalRequest;
use crate::identity::Dependency;
use serde_json::Value;

verus! {

/// A JSON document, carried through the library unread.
#[verifier::external_type_specification]
#[verifier::external_body]
pub struct ExValue(serde_json::Value);

/// Status of a computed answer.
pub const STATUS_OK: u16 = 200;

/// Status under which a dependency's rejection of the input is passed on.
pub const STATUS_UNPROCESSABLE: u16 = 422;

/// Status of a reply when a dependency answered `200` with no number.
pub const STATUS_INTERNAL_ERROR: u16 = 500;

/// Status that stands in for a forwarded status that names no status.
pub const STATUS_BAD_GATEWAY: u16 = 502;

/// Status of a reply when a dependency could not be used.
pub const STATUS_UNAVAILABLE: u16 = 503;

/// Error text of a reply for a dependency that could not be used.
pub const DEPENDENCY_UNAVAILABLE: &'static str = "dependency unavailable";

/// Error text of a reply for a dependency that answered without a number.
pub const DEPENDENCY_MALFORMED: &'static str = "dependency returned a malformed result";

/// Key of the echoed `a` in a computed answer.
pub const KEY_A: &'static str = "a";

/// Key of the echoed `b` in a computed answer.
pub const KEY_B: &'static str = "b";

/// Key of the echoed `value` in a computed answer.
pub const KEY_VALUE: &'static str = "value";

/// Key of the result in a computed answer.
pub const KEY_RESULT: &'static str = "result";

/// Key of the error text in an error reply of the service's own.
pub const KEY_ERROR: &'static str = "error";

/// Key of the blamed dependency in an error reply of the service's own.
pub const KEY_DEPENDENCY: &'static str = "dependency";

/// The value of one field of a reply body.
pub enum BodyValue {
    /// A JSON value, written as it is.
    Json(Value),
    /// A JSON string.
    Text(&'static str),
}

/// The JSON body of a reply: an object with these fields, or a body passed
/// on as it is.
pub enum Body {
    Fields(Vec<(&'static str, BodyValue)>),
    Verbatim(Value),
}

/// What the service answers to `POST /`.
pub enum Reply {
    /// `200`: the request's inputs, echoed, and where `value` lies between `a` and `b`.
    Computed { request: EvalRequest, result: Value },
    /// A dependency's own answer, passed on under `status`.
    Forwarded { status: u16, body: Value },
    /// `503`: `dependency` was unreachable or answered unexpectedly.
    Degraded { dependency: Dependency },
    /// `500`: `dependency` answered `200` without a number under `result`.
    Malformed { dependency: Dependency },
}

/// The status under which `forward` passes on an answer: the given one when it
/// names a status (100 to 999), else `502`.
pub open spec fn forwarded_status(status: u16) -> u16 {
    if 100 <= status <= 999 {
        status
    } else {
        STATUS_BAD_GATEWAY
    }
}

impl Reply {
    pub open spec fn spec_status(&self) -> u16 {
        match self {
            Reply::Computed { .. } => STATUS_OK,
            Reply::Forwarded { status, .. } => *status,
            Reply::Degraded { .. } => STATUS_UNAVAILABLE,
            Reply::Malformed { .. } => STATUS_INTERNAL_ERROR,
        }
    }

    /// The HTTP status of the reply.
    #[verifier::when_used_as_spec(spec_status)]
    pub fn status(&self) -> (status: u16)
        ensures
            status == self.spec_status(),
    {
        match self {
            Reply::Computed { .. } => STATUS_OK,
            Reply::Forwarded { status, .. } => *status,
            Reply::Degraded { .. } => STATUS_UNAVAILABLE,
            Reply::Malformed { .. } => STATUS_INTERNAL_ERROR,
        }
    }

    /// The error text of a reply the service itself writes, if it is one.
    pub fn error(&self) -> (error: Option<&'static str>)
        ensures
            error == (match self {
                Reply::Degraded { .. } => Some(DEPENDENCY_UNAVAILABLE),
                Reply::Malformed { .. } => Some(DEPENDENCY_MALFORMED),
                _ => None::<&'static str>,
            }),
    {
        match self {
            Reply::Degraded { .. } => Some(DEPENDENCY_UNAVAILABLE),
            Reply::Malformed { .. } => Some(DEPENDENCY_MALFORMED),
            _ => None,
        }
    }

    /// The dependency that an error reply of the service's own blames.
    pub fn dependency(&self) -> (dependency: Option<Dependency>)
        ensures
            dependency == (match self {
                Reply::Degraded { dependency } => Some(*dependency),
                Reply::Malformed { dependency } => Some(*dependency),
                _ => None::<Dependency>,
            }),
    {
        match self {
            Reply::Degraded { dependency } => Some(*dependency),
            Reply::Malformed { dependency } => Some(*dependency),
            _ => None,
        }
    }
}

/// The fields of the body of a reply that the service writes itself: the
/// request's inputs and the result, or the error text and the blamed
/// dependency's name. A forwarded reply has none of its own.
pub open spec fn body_fields(reply: Reply) -> Option<Seq<(&'static str, BodyValue)>> {
    match reply {
        Reply::Computed { request, result } => Some(seq![
            (KEY_A, BodyValue::Json(request.a)),
            (KEY_B, BodyValue::Json(request.b)),
            (KEY_VALUE, BodyValue::Json(request.value)),
            (KEY_RESULT, BodyValue::Json(result)),
        ]),
        Reply::Forwarded { .. } => None,
        Reply::Degraded { dependency } => Some(seq![
            (KEY_ERROR, BodyValue::Text(DEPENDENCY_UNAVAILABLE)),
            (KEY_DEPENDENCY, BodyValue::Text(dependency.spec_name())),
        ]),
        Reply::Malformed { dependency } => Some(seq![
            (KEY_ERROR, BodyValue::Text(DEPENDENCY_MALFORMED)),
            (KEY_DEPENDENCY, BodyValue::Text(dependency.spec_name())),
        ]),
    }
}

/// The body that a forwarded reply passes on unchanged.
pub open spec fn verbatim_body(reply: Reply) -> Option<Value> {
    match reply {
        Reply::Forwarded { body, .. } => Some(body),
        _ => None,
    }
}

impl Reply {
    /// The JSON body of the reply: `{"a", "b", "value", "result"}` for a
    /// computed answer, `{"error", "dependency"}` for an error of the
    /// service's own, and a dependency's answer passed on as it is.
    pub fn into_body(self) -> (body: Body)
        ensures
            (match body {
                Body::Fields(fields) => body_fields(self) == Some(fields@),
                Body::Verbatim(passed) => verbatim_body(self) == Some(passed),
            }),
    {
        let ghost reply = self;
        match self {
            Reply::Computed { request, result } => {
                let mut fields: Vec<(&'static str, BodyValue)> = Vec::new();
                fields.push((KEY_A, BodyValue::Json(request.a)));
                fields.push((KEY_B, BodyValue::Json(request.b)));
                fields.push((KEY_VALUE, BodyValue::Json(request.value)));
                fields.push((KEY_RESULT, BodyValue::Json(result)));
                assert(body_fields(reply) == Some(fields@)) by {
                    assert(body_fields(reply)->0 =~= fields@);
                }
                Body::Fields(fields)
            },
            Reply::Forwarded { body, .. } => Body::Verbatim(body),
            Reply::Degraded { dependency } => Body::Fields(error_fields(DEPENDENCY_UNAVAILABLE, dependency)),
            Reply::Malformed { dependency } => Body::Fields(error_fields(DEPENDENCY_MALFORMED, dependency)),
        }
    }
}

/// The fields of an error reply of the service's own.
fn error_fields(error: &'static str, dependency: Dependency) -> (fields: Vec<(&'static str, BodyValue)>)
    ensures
        fields@ == seq![(KEY_ERROR, BodyValue::Text(error)), (KEY_DEPENDENCY, BodyValue::Text(dependency.spec_name()))],
{
    let mut fields: Vec<(&'static str, BodyValue)> = Vec::new();
    fields.push((KEY_ERROR, BodyValue::Text(error)));
    fields.push((KEY_DEPENDENCY, BodyValue::Text(dependency.name())));
    assert(fields@ =~= seq![(KEY_ERROR, BodyValue::Text(error)), (KEY_DEPENDENCY, BodyValue::Text(dependency.spec_name()))]);
    fields
}

/// `http::StatusCode::from_u16`, read back with `as_u16`: the code itself when
/// `from_u16` accepts it, which its source does for exactly 100 to 999.
#[verifier::external_body]
fn status_code(code: u16) -> (res: Option<u16>)
    ensures
        res == (if 100 <= code <= 999 { Some(code) } else { None::<u16> }),
{
    match axum::http::StatusCode::from_u16(code) {
        Ok(status) => Some(status.as_u16()),
        Err(_) => None,
    }
}

/// The computed answer: the request echoed with `result`.
pub fn ok(request: EvalRequest, result: Value) -> (reply: Reply)
    ensures
        reply == (Reply::Computed { request, result }),
        reply.spec_status() == STATUS_OK,
{
    Reply::Computed { request, result }
}

/// The reply for a dependency that could not be used.
pub fn degraded(dependency: Dependency) -> (reply: Reply)
    ensures
        reply == (Reply::Degraded { dependency }),
        reply.spec_status() == STATUS_UNAVAILABLE,
{
    Reply::Degraded { dependency }
}

/// A dependency's answer passed on as it is, under its own status when that
/// names one and under `502` otherwise.
pub fn forward(status: u16, body: Value) -> (reply: Reply)
    ensures
        reply == (Reply::Forwarded { status: forwarded_status(status), body }),
        100 <= reply.spec_status() <= 999,
{
    let code = match status_code(status) {
        Some(code) => code,
        None => STATUS_BAD_GATEWAY,
    };
    Reply::Forwarded { status: code, body }
}

/// The reply for a dependency that answered `200` without a number: a
/// contract violation that is surfaced, not guessed around.
pub fn malformed(dependency: Dependency) -> (reply: Reply)
    ensures
        reply == (Reply::Malformed { dependency }),
        reply.spec_status() == STATUS_INTERNAL_ERROR,
{
    Reply::Malformed { dependency }
}

} // verus!
