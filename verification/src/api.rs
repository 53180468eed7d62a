use vstd::prelude::*;

pub use crate::openapi::ApiDoc;

verus! {

/// The service's name.
pub const SERVICE: &'static str = "srvcs-geometricseriessum";

/// What the service computes.
pub const CONCERN: &'static str = "sequences: sum of first n terms of a geometric sequence";

/// The arithmetic services that the evaluation delegates to.
#[derive(Clone, Copy, Debug, PartialEq, Eq, Structural)]
pub enum Dependency {
    Power,
    Multiply,
    Subtract,
    Divide,
}

impl Dependency {
    /// The service name of this dependency.
    pub open spec fn spec_name(self) -> Seq<char> {
        match self {
            Dependency::Power => "srvcs-power"@,
            Dependency::Multiply => "srvcs-multiply"@,
            Dependency::Subtract => "srvcs-subtract"@,
            Dependency::Divide => "srvcs-divide"@,
        }
    }

    pub fn name(&self) -> (s: &'static str)
        ensures
            s@ == self.spec_name(),
    {
        match self {
            Dependency::Power => "srvcs-power",
            Dependency::Multiply => "srvcs-multiply",
            Dependency::Subtract => "srvcs-subtract",
            Dependency::Divide => "srvcs-divide",
        }
    }
}


/// The dependencies in the order in which the service lists them.
pub open spec fn dependency_order() -> Seq<Dependency> {
    seq![Dependency::Power, Dependency::Multiply, Dependency::Subtract, Dependency::Divide]
}

/// The service names of all dependencies, in `dependency_order`.
pub fn depends_on() -> (names: Vec<&'static str>)
    ensures
        names@.len() == dependency_order().len(),
        forall|i: int| 0 <= i < names@.len() ==> #[trigger] names@[i]@ == dependency_order()[i].spec_name(),
{
    let mut names: Vec<&'static str> = Vec::new();
    names.push(Dependency::Power.name());
    names.push(Dependency::Multiply.name());
    names.push(Dependency::Subtract.name());
    names.push(Dependency::Divide.name());
    names
}

/// The service's identity: its name, what it computes and what it depends on.
pub struct Info {
    pub service: &'static str,
    pub concern: &'static str,
    pub depends_on: Vec<&'static str>,
}

/// The identity reported at `GET /`.
pub fn index() -> (info: Info)
    ensures
        info.service@ == SERVICE@,
        info.concern@ == CONCERN@,
        info.depends_on@.len() == dependency_order().len(),
        forall|i: int|
            0 <= i < info.depends_on@.len() ==> #[trigger] info.depends_on@[i]@
                == dependency_order()[i].spec_name(),
{
    Info { service: SERVICE, concern: CONCERN, depends_on: depends_on() }
}

/// Dependency endpoints: the base URL at which each dependency is reached.
#[derive(Clone)]
pub struct Deps {
    pub power_url: String,
    pub multiply_url: String,
    pub subtract_url: String,
    pub divide_url: String,
}

impl Deps {
    /// The URL of `dependency`.
    pub open spec fn url_of(&self, dependency: Dependency) -> Seq<char> {
        match dependency {
            Dependency::Power => self.power_url@,
            Dependency::Multiply => self.multiply_url@,
            Dependency::Subtract => self.subtract_url@,
            Dependency::Divide => self.divide_url@,
        }
    }

    /// The URL at which `dependency` is called.
    pub fn url(&self, dependency: Dependency) -> (url: &str)
        ensures
            url@ == self.url_of(dependency),
    {
        match dependency {
            Dependency::Power => self.power_url.as_str(),
            Dependency::Multiply => self.multiply_url.as_str(),
            Dependency::Subtract => self.subtract_url.as_str(),
            Dependency::Divide => self.divide_url.as_str(),
        }
    }
}


/// A request to evaluate the sum of the first `n` terms of the geometric
/// sequence that starts at `first` with common ratio `ratio`.
#[derive(Clone, Copy, Debug, PartialEq, Eq, Structural)]
pub struct EvalRequest {
    pub first: i64,
    pub ratio: i64,
    pub n: i64,
}

/// The successful answer: the request's fields and the computed sum.
#[derive(Clone, Copy, Debug, PartialEq, Eq, Structural)]
pub struct GeometricSeriesSumResponse {
    pub first: i64,
    pub ratio: i64,
    pub n: i64,
    pub result: i64,
}

/// One call of a dependency with its two integer operands.
#[derive(Clone, Copy, Debug, PartialEq, Eq, Structural)]
pub struct Call {
    pub dependency: Dependency,
    pub a: i64,
    pub b: i64,
}

impl Call {
    /// The JSON field names under which the two operands are sent:
    /// `base` and `exp` for the power service, `a` and `b` for the others.
    pub open spec fn spec_operand_names(self) -> (Seq<char>, Seq<char>) {
        match self.dependency {
            Dependency::Power => ("base"@, "exp"@),
            _ => ("a"@, "b"@),
        }
    }

    pub fn operand_names(&self) -> (names: (&'static str, &'static str))
        ensures
            names.0@ == self.spec_operand_names().0,
            names.1@ == self.spec_operand_names().1,
    {
        match self.dependency {
            Dependency::Power => ("base", "exp"),
            _ => ("a", "b"),
        }
    }
}

/// What a dependency call came back with. `body` is the reply's body as the
/// transport holds it; `result` is its integer `result` field, if it has one.
pub enum Answer<B> {
    /// The dependency could not be reached.
    Unreachable,
    /// The dependency replied with an HTTP status and a body.
    Replied { status: u16, result: Option<i64>, body: B },
}

/// The service's reply to an evaluation.
pub enum Reply<B> {
    /// `200`: the sum was computed.
    Success(GeometricSeriesSumResponse),
    /// `503`: a dependency was unreachable or answered unexpectedly.
    Degraded(Dependency),
    /// A dependency's reply, passed on with its status and body.
    Forwarded { status: u16, body: B },
    /// `500`: a dependency answered `200` without an integer `result`.
    Malformed(Dependency),
}

pub const STATUS_OK: u16 = 200;
pub const STATUS_UNPROCESSABLE: u16 = 422;
pub const STATUS_INTERNAL_ERROR: u16 = 500;
pub const STATUS_BAD_GATEWAY: u16 = 502;
pub const STATUS_UNAVAILABLE: u16 = 503;

impl<B> Reply<B> {
    /// The HTTP status of the reply.
    pub open spec fn spec_status(&self) -> u16 {
        match self {
            Reply::Success(_) => STATUS_OK,
            Reply::Degraded(_) => STATUS_UNAVAILABLE,
            Reply::Forwarded { status, .. } => *status,
            Reply::Malformed(_) => STATUS_INTERNAL_ERROR,
        }
    }

    pub fn status(&self) -> (status: u16)
        ensures
            status == self.spec_status(),
    {
        match self {
            Reply::Success(_) => STATUS_OK,
            Reply::Degraded(_) => STATUS_UNAVAILABLE,
            Reply::Forwarded { status, .. } => *status,
            Reply::Malformed(_) => STATUS_INTERNAL_ERROR,
        }
    }

    /// The error text of a reply that names a failing dependency.
    pub open spec fn spec_error(&self) -> Option<Seq<char>> {
        match self {
            Reply::Degraded(_) => Some("dependency unavailable"@),
            Reply::Malformed(_) => Some("dependency returned a malformed result"@),
            _ => None,
        }
    }

    pub fn error(&self) -> (error: Option<&'static str>)
        ensures
            error is Some <==> self.spec_error() is Some,
            error matches Some(e) ==> e@ == self.spec_error()->0,
    {
        match self {
            Reply::Degraded(_) => Some("dependency unavailable"),
            Reply::Malformed(_) => Some("dependency returned a malformed result"),
            _ => None,
        }
    }
}

/// `StatusCode::from_u16` of the `http` crate (through axum), read back with
/// `StatusCode::as_u16`: a code is accepted exactly when it lies in
/// `100..=999`, and then it comes back unchanged.
#[verifier::external_body]
fn status_code(code: u16) -> (status: Option<u16>)
    ensures
        status == (if 100 <= code && code <= 999 { Some(code) } else { None::<u16> }),
{
    match axum::http::StatusCode::from_u16(code) {
        Ok(status) => Some(status.as_u16()),
        Err(_) => None,
    }
}

/// The successful reply for a request and its computed sum.
pub fn ok<B>(first: i64, ratio: i64, n: i64, result: i64) -> (reply: Reply<B>)
    ensures
        reply == Reply::<B>::Success(GeometricSeriesSumResponse { first, ratio, n, result }),
{
    Reply::Success(GeometricSeriesSumResponse { first, ratio, n, result })
}

/// The reply when `dependency` is unavailable.
pub fn degraded<B>(dependency: Dependency) -> (reply: Reply<B>)
    ensures
        reply == Reply::<B>::Degraded(dependency),
{
    Reply::Degraded(dependency)
}

/// The reply that passes on a dependency's `status` and `body`; a status that
/// is not a valid HTTP status becomes `502`.
pub fn forward<B>(status: u16, body: B) -> (reply: Reply<B>)
    ensures
        reply == (Reply::Forwarded {
            status: if 100 <= status && status <= 999 { status } else { STATUS_BAD_GATEWAY },
            body,
        }),
{
    let status = match status_code(status) {
        Some(code) => code,
        None => STATUS_BAD_GATEWAY,
    };
    Reply::Forwarded { status, body }
}

/// The reply when `dependency` answered `200` without an integer result.
pub fn malformed<B>(dependency: Dependency) -> (reply: Reply<B>)
    ensures
        reply == Reply::<B>::Malformed(dependency),
{
    Reply::Malformed(dependency)
}


/// How one dependency answer is judged: a `200` gives its (possibly missing)
/// integer result; a `422` (the dependency rejected the input) is passed on;
/// an unreachable dependency or any other status makes the service degraded.
pub open spec fn spec_ask<B>(answer: Answer<B>, dependency: Dependency) -> Result<Option<i64>, Reply<B>> {
    match answer {
        Answer::Unreachable => Err(Reply::Degraded(dependency)),
        Answer::Replied { status, result, body } => {
            if status == STATUS_OK {
                Ok(result)
            } else if status == STATUS_UNPROCESSABLE {
                Err(Reply::Forwarded { status: STATUS_UNPROCESSABLE, body })
            } else {
                Err(Reply::Degraded(dependency))
            }
        },
    }
}

/// Judges the answer of `dependency`: `Ok` with the reply's integer result
/// field on `200`, or the reply the service should give at once.
pub fn ask<B>(answer: Answer<B>, dependency: Dependency) -> (judged: Result<Option<i64>, Reply<B>>)
    ensures
        judged == spec_ask(answer, dependency),
{
    match answer {
        Answer::Unreachable => Err(degraded(dependency)),
        Answer::Replied { status, result, body } => {
            if status == STATUS_OK {
                Ok(result)
            } else if status == STATUS_UNPROCESSABLE {
                Err(forward(STATUS_UNPROCESSABLE, body))
            } else {
                Err(degraded(dependency))
            }
        },
    }
}

/// The value a dependency computed, or the reply the service gives instead:
/// as `spec_ask`, and a `200` without an integer result is malformed.
pub open spec fn spec_value_of<B>(answer: Answer<B>, dependency: Dependency) -> Result<i64, Reply<B>> {
    match spec_ask(answer, dependency) {
        Ok(Some(value)) => Ok(value),
        Ok(None) => Err(Reply::Malformed(dependency)),
        Err(reply) => Err(reply),
    }
}

pub fn value_of<B>(answer: Answer<B>, dependency: Dependency) -> (value: Result<i64, Reply<B>>)
    ensures
        value == spec_value_of(answer, dependency),
{
    match ask(answer, dependency) {
        Ok(Some(value)) => Ok(value),
        Ok(None) => Err(malformed(dependency)),
        Err(reply) => Err(reply),
    }
}

/// The dependency call an evaluation is waiting for, with what it has
/// learned so far.
#[derive(Clone, Copy, Debug, PartialEq, Eq, Structural)]
pub enum Pending {
    /// `ratio == 1`: `first * n` by the multiply service.
    Product,
    /// `rn = ratio^n` by the power service.
    Power,
    /// `num = rn - 1` by the subtract service.
    Numerator { rn: i64 },
    /// `num2 = first * num` by the multiply service.
    ScaledNumerator { num: i64 },
    /// `den = ratio - 1` by the subtract service.
    Denominator { num2: i64 },
    /// `result = num2 / den` by the divide service.
    Quotient { num2: i64, den: i64 },
}

/// An evaluation in progress: the request and the call it waits for.
#[derive(Clone, Copy, Debug, PartialEq, Eq, Structural)]
pub struct Evaluation {
    pub request: EvalRequest,
    pub pending: Pending,
}

/// What follows an answer: another call, or the final reply.
pub enum Next<B> {
    Continue(Evaluation),
    Done(Reply<B>),
}

impl Evaluation {
    /// The call that the evaluation waits for.
    pub open spec fn spec_call(self) -> Call {
        let req = self.request;
        match self.pending {
            Pending::Product => Call { dependency: Dependency::Multiply, a: req.first, b: req.n },
            Pending::Power => Call { dependency: Dependency::Power, a: req.ratio, b: req.n },
            Pending::Numerator { rn } => Call { dependency: Dependency::Subtract, a: rn, b: 1 },
            Pending::ScaledNumerator { num } => Call {
                dependency: Dependency::Multiply,
                a: req.first,
                b: num,
            },
            Pending::Denominator { .. } => Call {
                dependency: Dependency::Subtract,
                a: req.ratio,
                b: 1,
            },
            Pending::Quotient { num2, den } => Call {
                dependency: Dependency::Divide,
                a: num2,
                b: den,
            },
        }
    }

    pub fn call(&self) -> (call: Call)
        ensures
            call == self.spec_call(),
    {
        let req = self.request;
        match self.pending {
            Pending::Product => Call { dependency: Dependency::Multiply, a: req.first, b: req.n },
            Pending::Power => Call { dependency: Dependency::Power, a: req.ratio, b: req.n },
            Pending::Numerator { rn } => Call { dependency: Dependency::Subtract, a: rn, b: 1 },
            Pending::ScaledNumerator { num } => Call {
                dependency: Dependency::Multiply,
                a: req.first,
                b: num,
            },
            Pending::Denominator { .. } => Call {
                dependency: Dependency::Subtract,
                a: req.ratio,
                b: 1,
            },
            Pending::Quotient { num2, den } => Call {
                dependency: Dependency::Divide,
                a: num2,
                b: den,
            },
        }
    }

    /// How many dependency calls the evaluation has made once the pending
    /// one is answered.
    pub open spec fn calls_made(self) -> nat {
        match self.pending {
            Pending::Product => 1,
            Pending::Power => 1,
            Pending::Numerator { .. } => 2,
            Pending::ScaledNumerator { .. } => 3,
            Pending::Denominator { .. } => 4,
            Pending::Quotient { .. } => 5,
        }
    }

    /// Whether the pending call is the last one.
    pub open spec fn is_last_call(self) -> bool {
        self.pending is Product || self.pending is Quotient
    }
}

/// The evaluation's first call: with `ratio == 1` every term equals `first`,
/// so the sum is `first * n`; otherwise the closed form
/// `first * (ratio^n - 1) / (ratio - 1)` starts with `ratio^n`.
pub open spec fn spec_start(request: EvalRequest) -> Evaluation {
    Evaluation {
        request,
        pending: if request.ratio == 1 { Pending::Product } else { Pending::Power },
    }
}

pub fn start(request: EvalRequest) -> (evaluation: Evaluation)
    ensures
        evaluation == spec_start(request),
{
    if request.ratio == 1 {
        Evaluation { request, pending: Pending::Product }
    } else {
        Evaluation { request, pending: Pending::Power }
    }
}

/// Where an evaluation goes once its pending call produced `value`.
pub open spec fn spec_advance<B>(evaluation: Evaluation, value: i64) -> Next<B> {
    let req = evaluation.request;
    match evaluation.pending {
        Pending::Power => Next::Continue(Evaluation { request: req, pending: Pending::Numerator { rn: value } }),
        Pending::Numerator { .. } => Next::Continue(
            Evaluation { request: req, pending: Pending::ScaledNumerator { num: value } },
        ),
        Pending::ScaledNumerator { .. } => Next::Continue(
            Evaluation { request: req, pending: Pending::Denominator { num2: value } },
        ),
        Pending::Denominator { num2 } => Next::Continue(
            Evaluation { request: req, pending: Pending::Quotient { num2, den: value } },
        ),
        _ => Next::Done(
            Reply::Success(
                GeometricSeriesSumResponse {
                    first: req.first,
                    ratio: req.ratio,
                    n: req.n,
                    result: value,
                },
            ),
        ),
    }
}

/// The transition on the answer to the pending call: a failed answer ends the
/// evaluation with the reply that `spec_value_of` gives; a value moves it on.
pub open spec fn spec_step<B>(evaluation: Evaluation, answer: Answer<B>) -> Next<B> {
    match spec_value_of(answer, evaluation.spec_call().dependency) {
        Err(reply) => Next::Done(reply),
        Ok(value) => spec_advance(evaluation, value),
    }
}

/// Feeds the answer to the pending call into the evaluation.
pub fn step<B>(evaluation: Evaluation, answer: Answer<B>) -> (next: Next<B>)
    ensures
        next == spec_step(evaluation, answer),
        next matches Next::Continue(later) ==> {
            &&& !evaluation.is_last_call()
            &&& later.request == evaluation.request
            &&& later.calls_made() == evaluation.calls_made() + 1
        },
        answer is Unreachable ==> next == Next::<B>::Done(
            Reply::Degraded(evaluation.spec_call().dependency),
        ),
        answer matches Answer::Replied { status, body, .. } ==> (status == STATUS_UNPROCESSABLE
            ==> next == Next::<B>::Done(Reply::Forwarded { status: STATUS_UNPROCESSABLE, body })),
        answer matches Answer::Replied { status, .. } ==> (status != STATUS_OK && status
            != STATUS_UNPROCESSABLE ==> next == Next::<B>::Done(
            Reply::Degraded(evaluation.spec_call().dependency),
        )),
        answer matches Answer::Replied { status, result, .. } ==> (status == STATUS_OK && result
            is None ==> next == Next::<B>::Done(Reply::Malformed(evaluation.spec_call().dependency))),
        next matches Next::Done(Reply::Success(response)) ==> {
            &&& evaluation.is_last_call()
            &&& answer matches Answer::Replied { status, result: Some(value), .. }
            &&& status == STATUS_OK
            &&& value == response.result
        },
{
    let call = evaluation.call();
    let value = match value_of(answer, call.dependency) {
        Ok(value) => value,
        Err(reply) => return Next::Done(reply),
    };
    let req = evaluation.request;
    match evaluation.pending {
        Pending::Power => Next::Continue(Evaluation { request: req, pending: Pending::Numerator { rn: value } }),
        Pending::Numerator { .. } => Next::Continue(
            Evaluation { request: req, pending: Pending::ScaledNumerator { num: value } },
        ),
        Pending::ScaledNumerator { .. } => Next::Continue(
            Evaluation { request: req, pending: Pending::Denominator { num2: value } },
        ),
        Pending::Denominator { num2 } => Next::Continue(
            Evaluation { request: req, pending: Pending::Quotient { num2, den: value } },
        ),
        _ => Next::Done(ok(req.first, req.ratio, req.n, value)),
    }
}

} // verus!
