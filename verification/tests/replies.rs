use inverselerp::evaluate::EvalRequest;
use inverselerp::identity::Dependency;
use inverselerp::reply::{degraded, forward, malformed, ok, Reply};
use serde_json::Value;

#[test]
fn forward_keeps_a_valid_status() {
    assert_eq!(forward(422, Value::Null).status(), 422);
    assert_eq!(forward(100, Value::Null).status(), 100);
    assert_eq!(forward(999, Value::Null).status(), 999);
}

#[test]
fn forward_replaces_an_invalid_status_with_bad_gateway() {
    assert_eq!(forward(99, Value::Null).status(), 502);
    assert_eq!(forward(0, Value::Null).status(), 502);
    assert_eq!(forward(1000, Value::Null).status(), 502);
    assert_eq!(forward(u16::MAX, Value::Null).status(), 502);
}

#[test]
fn forward_keeps_the_body() {
    let body = Value::from(vec![1, 2, 3]);
    match forward(7, body.clone()) {
        Reply::Forwarded { status, body: b } => {
            assert_eq!(status, 502);
            assert_eq!(b, body);
        }
        _ => panic!("expected forwarded"),
    }
}

#[test]
fn replies_of_the_service_have_their_statuses_and_texts() {
    let computed = ok(
        EvalRequest { a: Value::from(0.0), b: Value::from(1.0), value: Value::from(0.5) },
        Value::from(0.5),
    );
    assert_eq!(computed.status(), 200);
    assert_eq!(computed.error(), None);
    assert_eq!(computed.dependency(), None);
    let down = degraded(Dependency::FloatSubtract);
    assert_eq!(down.status(), 503);
    assert_eq!(down.error(), Some("dependency unavailable"));
    assert_eq!(down.dependency(), Some(Dependency::FloatSubtract));
    let bad = malformed(Dependency::FloatDivide);
    assert_eq!(bad.status(), 500);
    assert_eq!(bad.error(), Some("dependency returned a malformed result"));
    assert_eq!(bad.dependency(), Some(Dependency::FloatDivide));
}

fn field_map(body: inverselerp::reply::Body) -> Vec<(&'static str, Value)> {
    match body {
        inverselerp::reply::Body::Fields(fields) => fields
            .into_iter()
            .map(|(key, value)| match value {
                inverselerp::reply::BodyValue::Json(value) => (key, value),
                inverselerp::reply::BodyValue::Text(text) => (key, Value::from(text)),
            })
            .collect(),
        inverselerp::reply::Body::Verbatim(_) => panic!("expected fields"),
    }
}

#[test]
fn computed_body_echoes_the_request_and_the_result() {
    let reply = ok(
        EvalRequest { a: Value::from(0.0), b: Value::from(10.0), value: Value::from(5.0) },
        Value::from(0.5),
    );
    assert_eq!(
        field_map(reply.into_body()),
        vec![
            ("a", Value::from(0.0)),
            ("b", Value::from(10.0)),
            ("value", Value::from(5.0)),
            ("result", Value::from(0.5)),
        ]
    );
}

#[test]
fn error_bodies_name_the_error_and_the_dependency() {
    assert_eq!(
        field_map(degraded(Dependency::FloatDivide).into_body()),
        vec![
            ("error", Value::from("dependency unavailable")),
            ("dependency", Value::from("srvcs-floatdivide")),
        ]
    );
    assert_eq!(
        field_map(malformed(Dependency::FloatSubtract).into_body()),
        vec![
            ("error", Value::from("dependency returned a malformed result")),
            ("dependency", Value::from("srvcs-floatsubtract")),
        ]
    );
}

#[test]
fn forwarded_body_is_passed_on_verbatim() {
    let body = Value::from(vec!["value is not a number"]);
    match forward(422, body.clone()).into_body() {
        inverselerp::reply::Body::Verbatim(passed) => assert_eq!(passed, body),
        inverselerp::reply::Body::Fields(_) => panic!("expected the body as it is"),
    }
}
