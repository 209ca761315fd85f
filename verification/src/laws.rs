use vstd::prelude::*;

use crate::evaluate::{answered, division, read_number, started, subtraction, DepError, EvalRequest, Field, Leg, Pending, Progress, Reading, Call};
use crate::identity::{declared_dependencies, Dependency};
use crate::evaluate::EvalRequest as Request;
use crate::openapi::{documented_operations, Method};
use crate::reply::{body_fields, verbatim_body, BodyValue, Reply};
use serde_json::Value;

verus! {

/// One exchange with a dependency: the outcome of the call and, when it was a
/// `200`, the number its body holds under `result`.
pub type Exchange = (Result<(u16, Value), DepError>, Option<Value>);

/// The calls made and the reply given when an evaluation that is waiting on
/// `pending` meets `exchanges`, one per call, until it replies or they run out.
pub open spec fn run_from(pending: Pending, exchanges: Seq<Exchange>) -> (Seq<Call>, Option<Reply>)
    decreases exchanges.len(),
{
    if exchanges.len() == 0 {
        (Seq::empty(), None)
    } else {
        match answered(pending, exchanges[0].0) {
            Err(reply) => (Seq::empty(), Some(reply)),
            Ok((reading, _)) => match read_number(reading, exchanges[0].1) {
                Progress::Done(reply) => (Seq::empty(), Some(reply)),
                Progress::Ask(next, call) => {
                    let rest = run_from(next, exchanges.drop_first());
                    (seq![call] + rest.0, rest.1)
                },
            },
        }
    }
}

/// The calls made and the reply given by the evaluation of `request` when the
/// dependencies answer as `exchanges` say: what `POST /` does.
pub open spec fn evaluation(request: EvalRequest, exchanges: Seq<Exchange>) -> (Seq<Call>, Option<Reply>) {
    let (pending, first) = started(request);
    let rest = run_from(pending, exchanges);
    (seq![first] + rest.0, rest.1)
}

/// An exchange in which the dependency answered `200` with a number.
pub open spec fn succeeded(exchange: Exchange) -> bool {
    &&& exchange.0 matches Ok((status, _)) && status == 200
    &&& exchange.1 is Some
}

proof fn run_from_facts(pending: Pending, exchanges: Seq<Exchange>)
    ensures
        run_from(pending, exchanges).0.len() <= 2 - pending.leg.rank(),
        exchanges.len() >= 3 - pending.leg.rank() ==> run_from(pending, exchanges).1 is Some,
        forall|i: int| 0 <= i < run_from(pending, exchanges).0.len()
            ==> declared_dependencies().contains(#[trigger] run_from(pending, exchanges).0[i].dependency),
        run_from(pending, exchanges).1 matches Some(reply) ==> {
            ||| reply.spec_status() == 200
            ||| reply.spec_status() == 422
            ||| reply.spec_status() == 500
            ||| reply.spec_status() == 503
        },
        run_from(pending, exchanges).1 matches Some(Reply::Computed { request, result }) ==> {
            &&& request == pending.request
            &&& exchanges.len() >= 3 - pending.leg.rank()
            &&& forall|i: int| 0 <= i < 3 - pending.leg.rank() ==> succeeded(#[trigger] exchanges[i])
            &&& exchanges[2 - pending.leg.rank()].1 == Some(result)
        },
    decreases exchanges.len(),
{
    reveal_with_fuel(run_from, 2);
    if exchanges.len() > 0 {
        match answered(pending, exchanges[0].0) {
            Err(reply) => {},
            Ok((reading, _)) => {
                match read_number(reading, exchanges[0].1) {
                    Progress::Done(reply) => {},
                    Progress::Ask(next, call) => {
                        let tail = exchanges.drop_first();
                        run_from_facts(next, tail);
                        let rest = run_from(next, tail);
                        assert(run_from(pending, exchanges).0 == seq![call] + rest.0);
                        assert(declared_dependencies().contains(call.dependency)) by {
                            assert(declared_dependencies()[0] == Dependency::FloatSubtract);
                            assert(declared_dependencies()[1] == Dependency::FloatDivide);
                        }
                        assert forall|i: int| 0 <= i < run_from(pending, exchanges).0.len()
                            implies declared_dependencies().contains(#[trigger] run_from(pending, exchanges).0[i].dependency) by {
                            if i > 0 {
                                assert(run_from(pending, exchanges).0[i] == rest.0[i - 1]);
                            }
                        }
                        if rest.1 matches Some(Reply::Computed { request, result }) {
                            assert forall|i: int| 0 <= i < 3 - pending.leg.rank() implies succeeded(#[trigger] exchanges[i]) by {
                                if i > 0 {
                                    assert(exchanges[i] == tail[i - 1]);
                                }
                            }
                            assert(exchanges[2 - pending.leg.rank()] == tail[2 - next.leg.rank()]);
                        }
                    },
                }
            },
        }
    }
}

/// An evaluation makes at most three calls, and has replied once three
/// exchanges have happened.
pub proof fn evaluation_ends_within_three_calls(request: EvalRequest, exchanges: Seq<Exchange>)
    ensures
        evaluation(request, exchanges).0.len() <= 3,
        exchanges.len() >= 3 ==> evaluation(request, exchanges).1 is Some,
{
    run_from_facts(started(request).0, exchanges);
}

/// Every reply of an evaluation has one of the statuses `200`, `422` (a
/// dependency's rejection, passed on), `500` (a malformed dependency answer)
/// or `503` (an unavailable dependency), each a response code that the OpenAPI
/// document gives `POST /`.
pub proof fn evaluation_statuses_are_documented(request: EvalRequest, exchanges: Seq<Exchange>)
    ensures
        evaluation(request, exchanges).1 matches Some(reply) ==> {
            &&& {
                ||| reply.spec_status() == 200
                ||| reply.spec_status() == 422
                ||| reply.spec_status() == 500
                ||| reply.spec_status() == 503
            }
            &&& documented_operations()[("/"@, Method::Post)].responses.dom().contains(reply.spec_status())
        },
{
    run_from_facts(started(request).0, exchanges);
    assert(("/"@, Method::Get) != ("/"@, Method::Post));
}

/// An evaluation only calls the dependencies that the service declares.
pub proof fn evaluation_calls_declared_dependencies(request: EvalRequest, exchanges: Seq<Exchange>)
    ensures
        forall|i: int| 0 <= i < evaluation(request, exchanges).0.len()
            ==> declared_dependencies().contains(#[trigger] evaluation(request, exchanges).0[i].dependency),
{
    let (pending, first) = started(request);
    run_from_facts(pending, exchanges);
    let rest = run_from(pending, exchanges);
    assert(declared_dependencies()[0] == Dependency::FloatSubtract);
    assert forall|i: int| 0 <= i < evaluation(request, exchanges).0.len()
        implies declared_dependencies().contains(#[trigger] evaluation(request, exchanges).0[i].dependency) by {
        if i > 0 {
            assert(evaluation(request, exchanges).0[i] == rest.0[i - 1]);
        }
    }
}

/// A computed answer comes only from three dependency answers that were all
/// `200` with a number; it echoes the request unchanged, and its result is the
/// number that the divider answered.
pub proof fn computed_answer_needs_three_successes(request: EvalRequest, exchanges: Seq<Exchange>)
    ensures
        evaluation(request, exchanges).1 matches Some(Reply::Computed { request: echoed, result }) ==> {
            &&& echoed == request
            &&& exchanges.len() >= 3
            &&& succeeded(exchanges[0])
            &&& succeeded(exchanges[1])
            &&& succeeded(exchanges[2])
            &&& exchanges[2].1 == Some(result)
        },
{
    run_from_facts(started(request).0, exchanges);
}

/// When every dependency answers `200` with a number, the evaluation asks for
/// `value - a`, then `b - a`, then divides the first answer by the second, and
/// answers `200` with the request and the divider's number.
pub proof fn successful_evaluation(
    request: EvalRequest,
    difference_body: Value,
    difference: Value,
    range_body: Value,
    range: Value,
    quotient_body: Value,
    quotient: Value,
)
    ensures
        ({
            let exchanges = seq![
                (Ok((200u16, difference_body)), Some(difference)),
                (Ok((200u16, range_body)), Some(range)),
                (Ok((200u16, quotient_body)), Some(quotient)),
            ];
            evaluation(request, exchanges) == (
                seq![
                    subtraction(Field::Value, Field::A),
                    subtraction(Field::B, Field::A),
                    division(difference, range),
                ],
                Some(Reply::Computed { request, result: quotient }),
            )
        }),
{
    let exchanges: Seq<Exchange> = seq![
        (Ok((200u16, difference_body)), Some(difference)),
        (Ok((200u16, range_body)), Some(range)),
        (Ok((200u16, quotient_body)), Some(quotient)),
    ];
    let p0 = Pending { request, leg: Leg::Difference };
    let p1 = Pending { request, leg: Leg::Range { difference } };
    let p2 = Pending { request, leg: Leg::Quotient };
    let e1 = exchanges.drop_first();
    let e2 = e1.drop_first();
    let e3 = e2.drop_first();
    assert(e1 =~= seq![exchanges[1], exchanges[2]]);
    assert(e2 =~= seq![exchanges[2]]);
    assert(e3.len() == 0);
    assert(run_from(p2, e2) == (Seq::<Call>::empty(), Some(Reply::Computed { request, result: quotient })));
    assert(run_from(p1, e1) == (seq![division(difference, range)], Some(Reply::Computed { request, result: quotient }))) by {
        assert(seq![division(difference, range)] + Seq::<Call>::empty() =~= seq![division(difference, range)]);
    }
    assert(run_from(p0, exchanges) == (
        seq![subtraction(Field::B, Field::A), division(difference, range)],
        Some(Reply::Computed { request, result: quotient }),
    )) by {
        assert(seq![subtraction(Field::B, Field::A)] + seq![division(difference, range)]
            =~= seq![subtraction(Field::B, Field::A), division(difference, range)]);
    }
    assert(seq![subtraction(Field::Value, Field::A)] + seq![subtraction(Field::B, Field::A), division(difference, range)]
        =~= seq![subtraction(Field::Value, Field::A), subtraction(Field::B, Field::A), division(difference, range)]);
}

/// An unreachable dependency ends the evaluation with `503`, naming the
/// dependency of the leg that was asked.
pub proof fn unreachable_dependency_degrades(pending: Pending)
    ensures
        answered(pending, Err(DepError::Unreachable)) == (Err::<(Reading, Value), Reply>(
            Reply::Degraded { dependency: pending.leg.spec_dependency() },
        )),
        (Reply::Degraded { dependency: pending.leg.spec_dependency() }).spec_status() == 503,
{
}

/// A dependency's `422` ends the evaluation with that very answer passed on
/// under `422`.
pub proof fn rejection_is_forwarded(pending: Pending, body: Value)
    ensures
        answered(pending, Ok((422u16, body))) == (Err::<(Reading, Value), Reply>(
            Reply::Forwarded { status: 422, body },
        )),
{
}

/// Any dependency status other than `200` and `422` ends the evaluation with
/// `503`, naming the dependency.
pub proof fn unexpected_status_degrades(pending: Pending, status: u16, body: Value)
    requires
        status != 200,
        status != 422,
    ensures
        answered(pending, Ok((status, body))) == (Err::<(Reading, Value), Reply>(
            Reply::Degraded { dependency: pending.leg.spec_dependency() },
        )),
{
}

/// A `200` body without a number under `result` ends the evaluation with
/// `500`, naming the dependency.
pub proof fn missing_number_is_malformed(reading: Reading)
    ensures
        read_number(reading, None) == (Progress::Done(Reply::Malformed { dependency: reading.leg.spec_dependency() })),
        (Reply::Malformed { dependency: reading.leg.spec_dependency() }).spec_status() == 500,
{
}

/// The name under which each dependency is known, written out.
pub open spec fn dependency_name_text(dependency: Dependency) -> &'static str {
    match dependency {
        Dependency::FloatSubtract => "srvcs-floatsubtract",
        Dependency::FloatDivide => "srvcs-floatdivide",
    }
}

/// A `503` for an unavailable dependency answers
/// `{"error": "dependency unavailable", "dependency": <its name>}`, blaming
/// exactly the dependency that the reply holds: `srvcs-floatsubtract` for the
/// subtractor and `srvcs-floatdivide` for the divider.
pub proof fn degraded_body_blames_its_dependency(dependency: Dependency)
    ensures
        (Reply::Degraded { dependency }).spec_status() == 503,
        body_fields(Reply::Degraded { dependency }) == Some(seq![
            ("error", BodyValue::Text("dependency unavailable")),
            ("dependency", BodyValue::Text(dependency_name_text(dependency))),
        ]),
        verbatim_body(Reply::Degraded { dependency }) is None,
        dependency == Dependency::FloatSubtract ==> body_fields(Reply::Degraded { dependency }) == Some(seq![
            ("error", BodyValue::Text("dependency unavailable")),
            ("dependency", BodyValue::Text("srvcs-floatsubtract")),
        ]),
        dependency == Dependency::FloatDivide ==> body_fields(Reply::Degraded { dependency }) == Some(seq![
            ("error", BodyValue::Text("dependency unavailable")),
            ("dependency", BodyValue::Text("srvcs-floatdivide")),
        ]),
{
}

/// A `500` for a malformed dependency answer answers
/// `{"error": "dependency returned a malformed result", "dependency": <its name>}`,
/// blaming exactly the dependency that the reply holds.
pub proof fn malformed_body_blames_its_dependency(dependency: Dependency)
    ensures
        (Reply::Malformed { dependency }).spec_status() == 500,
        body_fields(Reply::Malformed { dependency }) == Some(seq![
            ("error", BodyValue::Text("dependency returned a malformed result")),
            ("dependency", BodyValue::Text(dependency_name_text(dependency))),
        ]),
        verbatim_body(Reply::Malformed { dependency }) is None,
        dependency == Dependency::FloatSubtract ==> body_fields(Reply::Malformed { dependency }) == Some(seq![
            ("error", BodyValue::Text("dependency returned a malformed result")),
            ("dependency", BodyValue::Text("srvcs-floatsubtract")),
        ]),
        dependency == Dependency::FloatDivide ==> body_fields(Reply::Malformed { dependency }) == Some(seq![
            ("error", BodyValue::Text("dependency returned a malformed result")),
            ("dependency", BodyValue::Text("srvcs-floatdivide")),
        ]),
{
}

/// Two error replies for different dependencies name different dependencies
/// in their bodies.
pub proof fn error_bodies_tell_dependencies_apart(first: Dependency, second: Dependency)
    requires
        first != second,
    ensures
        body_fields(Reply::Degraded { dependency: first }) != body_fields(Reply::Degraded { dependency: second }),
        body_fields(Reply::Malformed { dependency: first }) != body_fields(Reply::Malformed { dependency: second }),
{
    reveal_strlit("srvcs-floatsubtract");
    reveal_strlit("srvcs-floatdivide");
    degraded_body_blames_its_dependency(first);
    degraded_body_blames_its_dependency(second);
    malformed_body_blames_its_dependency(first);
    malformed_body_blames_its_dependency(second);
    let d1 = body_fields(Reply::Degraded { dependency: first })->0;
    let d2 = body_fields(Reply::Degraded { dependency: second })->0;
    assert(d1[1] != d2[1]) by {
        assert(dependency_name_text(first)@ != dependency_name_text(second)@) by {
            assert(dependency_name_text(first)@[11] != dependency_name_text(second)@[11]);
        }
    }
    let m1 = body_fields(Reply::Malformed { dependency: first })->0;
    let m2 = body_fields(Reply::Malformed { dependency: second })->0;
    assert(m1[1] != m2[1]) by {
        assert(dependency_name_text(first)@[11] != dependency_name_text(second)@[11]);
    }
}

/// A computed answer's body echoes the request's `a`, `b` and `value` under
/// those keys and gives the result under `result`; a forwarded reply's body is
/// the dependency's answer itself.
pub proof fn computed_and_forwarded_bodies(request: Request, result: Value, status: u16, body: Value)
    ensures
        body_fields(Reply::Computed { request, result }) == Some(seq![
            ("a", BodyValue::Json(request.a)),
            ("b", BodyValue::Json(request.b)),
            ("value", BodyValue::Json(request.value)),
            ("result", BodyValue::Json(result)),
        ]),
        verbatim_body(Reply::Forwarded { status, body }) == Some(body),
        body_fields(Reply::Forwarded { status, body }) is None,
{
}

} // verus!
