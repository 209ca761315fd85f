use vstd::prelude::*;

use crate::identity::Dependency;
use crate::reply::{forward, degraded, malformed, ok, Reply, STATUS_OK, STATUS_UNPROCESSABLE};
use serde_json::Value;

verus! {

/// The body of `POST /`: the range `a`..`b` and the `value` to place in it.
/// The three are JSON values handed on to the dependencies as they are.
pub struct EvalRequest {
    pub a: Value,
    pub b: Value,
    pub value: Value,
}

/// One of the three inputs of a request.
#[derive(Clone, Copy, Debug, PartialEq, Eq, Structural)]
pub enum Field {
    A,
    B,
    Value,
}

impl EvalRequest {
    pub open spec fn spec_field(&self, field: Field) -> &Value {
        match field {
            Field::A => &self.a,
            Field::B => &self.b,
            Field::Value => &self.value,
        }
    }

    /// The input that `field` names.
    #[verifier::when_used_as_spec(spec_field)]
    pub fn field(&self, field: Field) -> (input: &Value)
        ensures
            input == self.spec_field(field),
    {
        match field {
            Field::A => &self.a,
            Field::B => &self.b,
            Field::Value => &self.value,
        }
    }
}

/// Why a dependency call produced no answer.
#[derive(Clone, Copy, Debug, PartialEq, Eq, Structural)]
pub enum DepError {
    Unreachable,
}

/// How a dependency's answer decides the evaluation: a `200` body goes on to be
/// read, a `422` is passed on, anything else (or no answer) degrades.
pub open spec fn ask_result(outcome: Result<(u16, Value), DepError>, dependency: Dependency) -> Result<Value, Reply> {
    match outcome {
        Err(DepError::Unreachable) => Err(Reply::Degraded { dependency }),
        Ok((status, body)) => if status == STATUS_OK {
            Ok(body)
        } else if status == STATUS_UNPROCESSABLE {
            Err(Reply::Forwarded { status: STATUS_UNPROCESSABLE, body })
        } else {
            Err(Reply::Degraded { dependency })
        },
    }
}

/// Maps the outcome of one call of `dependency` to its body (on `200`) or to
/// the reply the service gives at once: `503` for an unreachable dependency or
/// a status other than `200` and `422`, the dependency's own `422` passed on.
pub fn ask(outcome: Result<(u16, Value), DepError>, dependency: Dependency) -> (res: Result<Value, Reply>)
    ensures
        res == ask_result(outcome, dependency),
{
    match outcome {
        Err(DepError::Unreachable) => Err(degraded(dependency)),
        Ok((status, body)) => {
            if status == STATUS_OK {
                Ok(body)
            } else if status == STATUS_UNPROCESSABLE {
                Err(forward(STATUS_UNPROCESSABLE, body))
            } else {
                Err(degraded(dependency))
            }
        },
    }
}

/// Where an evaluation stands, with what it has read so far and still needs.
pub enum Leg {
    /// Asking for `value - a`.
    Difference,
    /// Asking for `b - a`, with `value - a` in hand.
    Range { difference: Value },
    /// Asking for `(value - a) / (b - a)`.
    Quotient,
}

impl Leg {
    pub open spec fn spec_dependency(&self) -> Dependency {
        match self {
            Leg::Quotient => Dependency::FloatDivide,
            _ => Dependency::FloatSubtract,
        }
    }

    /// The dependency that computes this leg.
    #[verifier::when_used_as_spec(spec_dependency)]
    pub fn dependency(&self) -> (dependency: Dependency)
        ensures
            dependency == self.spec_dependency(),
    {
        match self {
            Leg::Quotient => Dependency::FloatDivide,
            _ => Dependency::FloatSubtract,
        }
    }

    /// How many of the three legs come before this one.
    pub open spec fn rank(&self) -> int {
        match self {
            Leg::Difference => 0,
            Leg::Range { .. } => 1,
            Leg::Quotient => 2,
        }
    }
}

/// An operand of a dependency call: an input of the request, or a number a
/// dependency answered earlier.
pub enum Arg {
    Input(Field),
    Number(Value),
}

/// A call to make: `dependency` on the body `{"a": a, "b": b}`.
pub struct Call {
    pub dependency: Dependency,
    pub a: Arg,
    pub b: Arg,
}

/// An evaluation whose call is out, waiting for its outcome.
pub struct Pending {
    pub request: EvalRequest,
    pub leg: Leg,
}

/// An evaluation whose dependency answered `200`, waiting for the number that
/// the body holds under `result`.
pub struct Reading {
    pub request: EvalRequest,
    pub leg: Leg,
}

/// What follows a number: the next call, or the reply.
pub enum Progress {
    Ask(Pending, Call),
    Done(Reply),
}

/// The subtraction `a - b` of two inputs.
pub open spec fn subtraction(a: Field, b: Field) -> Call {
    Call { dependency: Dependency::FloatSubtract, a: Arg::Input(a), b: Arg::Input(b) }
}

/// The division `a / b` of two numbers answered before.
pub open spec fn division(a: Value, b: Value) -> Call {
    Call { dependency: Dependency::FloatDivide, a: Arg::Number(a), b: Arg::Number(b) }
}

/// An evaluation begins by asking for `value - a`.
pub open spec fn started(request: EvalRequest) -> (Pending, Call) {
    (Pending { request, leg: Leg::Difference }, subtraction(Field::Value, Field::A))
}

/// The outcome of the pending call either yields a body to read or ends the
/// evaluation with the reply of `ask_result`.
pub open spec fn answered(pending: Pending, outcome: Result<(u16, Value), DepError>) -> Result<(Reading, Value), Reply> {
    match ask_result(outcome, pending.leg.spec_dependency()) {
        Ok(body) => Ok((Reading { request: pending.request, leg: pending.leg }, body)),
        Err(reply) => Err(reply),
    }
}

/// The number read from a `200` body: none ends with `500`; otherwise the
/// difference leads to asking for `b - a`, the range to asking for the
/// quotient of the two, and the quotient is the result.
pub open spec fn read_number(reading: Reading, number: Option<Value>) -> Progress {
    match number {
        None => Progress::Done(Reply::Malformed { dependency: reading.leg.spec_dependency() }),
        Some(n) => match reading.leg {
            Leg::Difference => Progress::Ask(
                Pending { request: reading.request, leg: Leg::Range { difference: n } },
                subtraction(Field::B, Field::A),
            ),
            Leg::Range { difference } => Progress::Ask(
                Pending { request: reading.request, leg: Leg::Quotient },
                division(difference, n),
            ),
            Leg::Quotient => Progress::Done(Reply::Computed { request: reading.request, result: n }),
        },
    }
}

impl Pending {
    /// Starts the evaluation of `request`: the first call asks `srvcs-floatsubtract`
    /// for `value - a`.
    pub fn start(request: EvalRequest) -> (res: (Pending, Call))
        ensures
            res == started(request),
    {
        (
            Pending { request, leg: Leg::Difference },
            Call { dependency: Dependency::FloatSubtract, a: Arg::Input(Field::Value), b: Arg::Input(Field::A) },
        )
    }

    /// Takes the outcome of the pending call.
    pub fn answer(self, outcome: Result<(u16, Value), DepError>) -> (res: Result<(Reading, Value), Reply>)
        ensures
            res == answered(self, outcome),
    {
        let dependency = self.leg.dependency();
        match ask(outcome, dependency) {
            Ok(body) => Ok((Reading { request: self.request, leg: self.leg }, body)),
            Err(reply) => Err(reply),
        }
    }
}

impl Reading {
    /// Takes the number that the `200` body holds under `result`, if it holds one.
    pub fn read(self, number: Option<Value>) -> (res: Progress)
        ensures
            res == read_number(self, number),
    {
        match number {
            None => Progress::Done(malformed(self.leg.dependency())),
            Some(n) => match self.leg {
                Leg::Difference => Progress::Ask(
                    Pending { request: self.request, leg: Leg::Range { difference: n } },
                    Call {
                        dependency: Dependency::FloatSubtract,
                        a: Arg::Input(Field::B),
                        b: Arg::Input(Field::A),
                    },
                ),
                Leg::Range { difference } => Progress::Ask(
                    Pending { request: self.request, leg: Leg::Quotient },
                    Call {
                        dependency: Dependency::FloatDivide,
                        a: Arg::Number(difference),
                        b: Arg::Number(n),
                    },
                ),
                Leg::Quotient => Progress::Done(ok(self.request, n)),
            },
        }
    }
}

} // verus!
