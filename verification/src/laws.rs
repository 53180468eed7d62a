use vstd::prelude::*;
use vstd::arithmetic::power::pow;
use crate::api::{
    Answer, Call, Dependency, EvalRequest, Evaluation, GeometricSeriesSumResponse, Next, Pending,
    Reply, spec_start, spec_step,
};
use crate::series::{
    fits_i64, geometric_sum, lemma_closed_form, lemma_one_more_term, lemma_ratio_one,
    lemma_sum_fits, lemma_trunc_div_exact, trunc_div,
};

verus! {

/// The reply that an evaluation reaches when each of its calls is answered
/// by `services`, if it reaches one within `fuel` answers.
pub open spec fn drive<B>(
    evaluation: Evaluation,
    services: spec_fn(Call) -> Answer<B>,
    fuel: nat,
) -> Option<Reply<B>>
    decreases fuel,
{
    if fuel == 0 {
        None
    } else {
        match spec_step(evaluation, services(evaluation.spec_call())) {
            Next::Done(reply) => Some(reply),
            Next::Continue(later) => drive(later, services, (fuel - 1) as nat),
        }
    }
}

/// How many more calls an evaluation can make, the pending one included.
pub open spec fn calls_left(evaluation: Evaluation) -> nat {
    if evaluation.pending is Product {
        1
    } else {
        (6 - evaluation.calls_made()) as nat
    }
}

/// The value that a correct arithmetic service computes for `call`.
pub open spec fn correct_value(call: Call) -> int {
    match call.dependency {
        Dependency::Power => pow(call.a as int, call.b as nat),
        Dependency::Multiply => call.a * call.b,
        Dependency::Subtract => call.a - call.b,
        Dependency::Divide => trunc_div(call.a as int, call.b as int),
    }
}

/// Services that answer every call `200` with the correct value.
pub open spec fn correct_services<B>(body: B) -> spec_fn(Call) -> Answer<B> {
    |call: Call| Answer::Replied { status: 200, result: Some(correct_value(call) as i64), body }
}

proof fn lemma_drive_within_calls_left<B>(evaluation: Evaluation, services: spec_fn(Call) -> Answer<B>)
    ensures
        drive(evaluation, services, calls_left(evaluation)) is Some,
    decreases calls_left(evaluation),
{
    match spec_step(evaluation, services(evaluation.spec_call())) {
        Next::Done(_) => {},
        Next::Continue(later) => {
            lemma_drive_within_calls_left(later, services);
        },
    }
}

/// More fuel does not change a reply that was already reached.
proof fn lemma_drive_more_fuel<B>(
    evaluation: Evaluation,
    services: spec_fn(Call) -> Answer<B>,
    fuel: nat,
    more: nat,
)
    requires
        drive(evaluation, services, fuel) is Some,
        fuel <= more,
    ensures
        drive(evaluation, services, more) == drive(evaluation, services, fuel),
    decreases fuel,
{
    match spec_step(evaluation, services(evaluation.spec_call())) {
        Next::Done(_) => {},
        Next::Continue(later) => {
            lemma_drive_more_fuel(later, services, (fuel - 1) as nat, (more - 1) as nat);
        },
    }
}

/// Whatever the dependencies answer, an evaluation ends after at most five
/// dependency calls, and after one call when `ratio == 1`.
pub proof fn evaluation_makes_at_most_five_calls<B>(
    request: EvalRequest,
    services: spec_fn(Call) -> Answer<B>,
)
    ensures
        drive(spec_start(request), services, 5) is Some,
        request.ratio == 1 ==> drive(spec_start(request), services, 1) is Some,
{
    let ev = spec_start(request);
    lemma_drive_within_calls_left(ev, services);
    lemma_drive_more_fuel(ev, services, calls_left(ev), 5);
}

proof fn lemma_success_echoes<B>(evaluation: Evaluation, services: spec_fn(Call) -> Answer<B>, fuel: nat)
    ensures
        drive(evaluation, services, fuel) matches Some(Reply::Success(response)) ==> {
            &&& response.first == evaluation.request.first
            &&& response.ratio == evaluation.request.ratio
            &&& response.n == evaluation.request.n
        },
    decreases fuel,
{
    if fuel > 0 {
        match spec_step(evaluation, services(evaluation.spec_call())) {
            Next::Done(_) => {},
            Next::Continue(later) => {
                lemma_success_echoes(later, services, (fuel - 1) as nat);
            },
        }
    }
}

/// With `ratio == 1` the evaluation makes one call, `first * n` by the
/// multiply service, and ends on whatever that call answers.
pub proof fn ratio_one_calls_only_multiply<B>(request: EvalRequest, answer: Answer<B>)
    requires
        request.ratio == 1,
    ensures
        spec_start(request).spec_call() == (Call {
            dependency: Dependency::Multiply,
            a: request.first,
            b: request.n,
        }),
        spec_step(spec_start(request), answer) is Done,
{
}

/// A successful reply repeats the request's `first`, `ratio` and `n`,
/// whatever the dependencies answered.
pub proof fn success_echoes_request<B>(
    request: EvalRequest,
    services: spec_fn(Call) -> Answer<B>,
    fuel: nat,
)
    ensures
        drive(spec_start(request), services, fuel) matches Some(Reply::Success(response)) ==> {
            &&& response.first == request.first
            &&& response.ratio == request.ratio
            &&& response.n == request.n
        },
{
    lemma_success_echoes(spec_start(request), services, fuel);
}

/// Whether every value that correct dependencies compute for `request` is an
/// `i64`: `first * n` when `ratio == 1`; otherwise `ratio^n`, `ratio^n - 1`,
/// `first * (ratio^n - 1)` and `ratio - 1`.
pub open spec fn values_fit(request: EvalRequest) -> bool {
    &&& request.ratio == 1 ==> fits_i64(request.first * request.n)
    &&& request.ratio != 1 ==> {
        let p = pow(request.ratio as int, request.n as nat);
        &&& fits_i64(p)
        &&& fits_i64(p - 1)
        &&& fits_i64(request.first * (p - 1))
        &&& fits_i64(request.ratio - 1)
    }
}

/// When every dependency computes correctly and every value on the way is an
/// `i64`, the evaluation answers `200` with the sum of the first `n` terms of
/// the geometric sequence.
pub proof fn correct_services_give_geometric_sum<B>(request: EvalRequest, body: B)
    requires
        request.n >= 0,
        values_fit(request),
    ensures
        drive(spec_start(request), correct_services(body), 5) == Some(
            Reply::<B>::Success(
                GeometricSeriesSumResponse {
                    first: request.first,
                    ratio: request.ratio,
                    n: request.n,
                    result: geometric_sum(
                        request.first as int,
                        request.ratio as int,
                        request.n as nat,
                    ) as i64,
                },
            ),
        ),
{
    let services = correct_services(body);
    let first = request.first as int;
    let ratio = request.ratio as int;
    let n = request.n as nat;
    let sum = geometric_sum(first, ratio, n);
    let expected = Reply::<B>::Success(
        GeometricSeriesSumResponse {
            first: request.first,
            ratio: request.ratio,
            n: request.n,
            result: sum as i64,
        },
    );
    let ev0 = spec_start(request);
    if request.ratio == 1 {
        lemma_ratio_one(first, n);
        assert(ev0.spec_call() == Call { dependency: Dependency::Multiply, a: request.first, b: request.n });
        assert(spec_step(ev0, services(ev0.spec_call())) == Next::<B>::Done(expected));
        lemma_drive_more_fuel(ev0, services, 1, 5);
    } else {
        let p = pow(ratio, n);
        lemma_closed_form(first, ratio, n);
        lemma_sum_fits(first, ratio, n);
        lemma_trunc_div_exact(ratio - 1, sum);
        let rn = p as i64;
        let num = (p - 1) as i64;
        let num2 = (first * (p - 1)) as i64;
        let den = (ratio - 1) as i64;
        let ev1 = Evaluation { request, pending: Pending::Numerator { rn } };
        let ev2 = Evaluation { request, pending: Pending::ScaledNumerator { num } };
        let ev3 = Evaluation { request, pending: Pending::Denominator { num2 } };
        let ev4 = Evaluation { request, pending: Pending::Quotient { num2, den } };
        assert(spec_step(ev0, services(ev0.spec_call())) == Next::<B>::Continue(ev1));
        assert(spec_step(ev1, services(ev1.spec_call())) == Next::<B>::Continue(ev2));
        assert(spec_step(ev2, services(ev2.spec_call())) == Next::<B>::Continue(ev3));
        assert(spec_step(ev3, services(ev3.spec_call())) == Next::<B>::Continue(ev4));
        assert(num2 == (ratio - 1) * sum);
        assert(correct_value(ev4.spec_call()) == sum);
        assert(spec_step(ev4, services(ev4.spec_call())) == Next::<B>::Done(expected));
        assert(drive(ev4, services, 1) == Some(expected));
        assert(drive(ev3, services, 2) == Some(expected));
        assert(drive(ev2, services, 3) == Some(expected));
        assert(drive(ev1, services, 4) == Some(expected));
    }
}

/// With correct dependencies, no terms sum to `0`, and one more term adds
/// `first` to `ratio` times the sum so far: the result for `n + 1` is
/// `first + ratio * (the result for n)`.
pub proof fn one_more_term_with_correct_services<B>(request: EvalRequest, body: B)
    requires
        0 <= request.n < i64::MAX,
        values_fit(request),
        values_fit(EvalRequest { n: (request.n + 1) as i64, ..request }),
    ensures
        drive(spec_start(EvalRequest { n: 0, ..request }), correct_services(body), 5) == Some(
            Reply::<B>::Success(
                GeometricSeriesSumResponse {
                    first: request.first,
                    ratio: request.ratio,
                    n: 0,
                    result: 0,
                },
            ),
        ),
        drive(spec_start(request), correct_services(body), 5) matches Some(Reply::Success(now))
            && drive(
            spec_start(EvalRequest { n: (request.n + 1) as i64, ..request }),
            correct_services(body),
            5,
        ) matches Some(Reply::Success(next)) && next.result == request.first + request.ratio
            * now.result,
{
    let zero = EvalRequest { n: 0, ..request };
    let later = EvalRequest { n: (request.n + 1) as i64, ..request };
    let first = request.first as int;
    let ratio = request.ratio as int;
    let n = request.n as nat;
    reveal(pow);
    assert(pow(ratio, 0) == 1);
    assert(first * 0 == 0) by (nonlinear_arith);
    assert(first * (1 - 1) == 0) by (nonlinear_arith);
    assert(values_fit(zero));
    correct_services_give_geometric_sum(zero, body);
    correct_services_give_geometric_sum(request, body);
    correct_services_give_geometric_sum(later, body);
    lemma_one_more_term(first, ratio, n);
    assert(later.n as nat == n + 1);
    if ratio != 1 {
        lemma_sum_fits(first, ratio, n);
        lemma_sum_fits(first, ratio, n + 1);
    } else {
        lemma_ratio_one(first, n);
        lemma_ratio_one(first, n + 1);
    }
}

/// The integer that `services` answered `call` with, when it answered `200`
/// with an integer result.
pub open spec fn answered<B>(services: spec_fn(Call) -> Answer<B>, call: Call) -> Option<i64> {
    match services(call) {
        Answer::Replied { status, result, .. } => if status == 200 {
            result
        } else {
            None
        },
        Answer::Unreachable => None,
    }
}

/// Step 5 onwards of the closed form: `den = ratio - 1` by subtract, then
/// `num2 / den` by divide.
pub open spec fn answered_from_denominator<B>(
    services: spec_fn(Call) -> Answer<B>,
    request: EvalRequest,
    num2: i64,
) -> Option<i64> {
    match answered(services, Call { dependency: Dependency::Subtract, a: request.ratio, b: 1 }) {
        Some(den) => answered(services, Call { dependency: Dependency::Divide, a: num2, b: den }),
        None => None,
    }
}

/// Step 3 onwards of the closed form: `num2 = first * num` by multiply.
pub open spec fn answered_from_scaled<B>(
    services: spec_fn(Call) -> Answer<B>,
    request: EvalRequest,
    num: i64,
) -> Option<i64> {
    match answered(services, Call { dependency: Dependency::Multiply, a: request.first, b: num }) {
        Some(num2) => answered_from_denominator(services, request, num2),
        None => None,
    }
}

/// Step 2 onwards of the closed form: `num = rn - 1` by subtract.
pub open spec fn answered_from_numerator<B>(
    services: spec_fn(Call) -> Answer<B>,
    request: EvalRequest,
    rn: i64,
) -> Option<i64> {
    match answered(services, Call { dependency: Dependency::Subtract, a: rn, b: 1 }) {
        Some(num) => answered_from_scaled(services, request, num),
        None => None,
    }
}

/// The sum that the services' answers give, if each of the documented calls
/// is answered `200` with an integer: with `ratio == 1`, multiply's answer
/// for `(first, n)`; otherwise the answers of power `(ratio, n)`, subtract
/// `(rn, 1)`, multiply `(first, num)`, subtract `(ratio, 1)` and divide
/// `(num2, den)`, each fed the earlier answers.
pub open spec fn answered_sum<B>(services: spec_fn(Call) -> Answer<B>, request: EvalRequest) -> Option<i64> {
    if request.ratio == 1 {
        answered(services, Call { dependency: Dependency::Multiply, a: request.first, b: request.n })
    } else {
        match answered(services, Call { dependency: Dependency::Power, a: request.ratio, b: request.n }) {
            Some(rn) => answered_from_numerator(services, request, rn),
            None => None,
        }
    }
}

/// What the answers still owed to `evaluation` give.
spec fn answered_rest<B>(services: spec_fn(Call) -> Answer<B>, evaluation: Evaluation) -> Option<i64> {
    let request = evaluation.request;
    match evaluation.pending {
        Pending::Product => answered_sum(services, request),
        Pending::Power => answered_sum(services, request),
        Pending::Numerator { rn } => answered_from_numerator(services, request, rn),
        Pending::ScaledNumerator { num } => answered_from_scaled(services, request, num),
        Pending::Denominator { num2 } => answered_from_denominator(services, request, num2),
        Pending::Quotient { num2, den } => answered(
            services,
            Call { dependency: Dependency::Divide, a: num2, b: den },
        ),
    }
}

proof fn lemma_success_follows_answers<B>(
    evaluation: Evaluation,
    services: spec_fn(Call) -> Answer<B>,
    fuel: nat,
)
    requires
        evaluation.pending is Product ==> evaluation.request.ratio == 1,
        evaluation.pending is Power ==> evaluation.request.ratio != 1,
    ensures
        drive(evaluation, services, fuel) matches Some(Reply::Success(response)) ==> answered_rest(
            services,
            evaluation,
        ) == Some(response.result),
        fuel >= calls_left(evaluation) && answered_rest(services, evaluation) is Some ==> drive(
            evaluation,
            services,
            fuel,
        ) == Some(
            Reply::<B>::Success(
                GeometricSeriesSumResponse {
                    first: evaluation.request.first,
                    ratio: evaluation.request.ratio,
                    n: evaluation.request.n,
                    result: answered_rest(services, evaluation)->0,
                },
            ),
        ),
    decreases fuel,
{
    if fuel > 0 {
        let call = evaluation.spec_call();
        match answered(services, call) {
            Some(value) => {
                assert(crate::api::spec_value_of(services(call), call.dependency) == Ok::<i64, Reply<B>>(value));
                match spec_step(evaluation, services(call)) {
                    Next::Done(_) => {},
                    Next::Continue(later) => {
                        assert(answered_rest(services, later) == answered_rest(services, evaluation));
                        lemma_success_follows_answers(later, services, (fuel - 1) as nat);
                    },
                }
            },
            None => {
                assert(crate::api::spec_value_of(services(call), call.dependency) is Err);
            },
        }
    }
}

/// A successful evaluation answers exactly the sum that the dependencies'
/// answers give along the documented calls: no step is skipped or replaced,
/// and a call that is not answered `200` with an integer rules a success
/// out. Conversely, when every documented call is so answered, the
/// evaluation succeeds with that sum within five calls.
pub proof fn success_is_the_answered_sum<B>(
    request: EvalRequest,
    services: spec_fn(Call) -> Answer<B>,
    fuel: nat,
)
    ensures
        drive(spec_start(request), services, fuel) matches Some(Reply::Success(response))
            ==> answered_sum(services, request) == Some(response.result),
        answered_sum(services, request) matches Some(sum) ==> drive(
            spec_start(request),
            services,
            5,
        ) == Some(
            Reply::<B>::Success(
                GeometricSeriesSumResponse {
                    first: request.first,
                    ratio: request.ratio,
                    n: request.n,
                    result: sum,
                },
            ),
        ),
{
    lemma_success_follows_answers(spec_start(request), services, fuel);
    lemma_success_follows_answers(spec_start(request), services, 5);
}

/// An answer other than `200` with an integer ends the evaluation at once:
/// an unreachable dependency or an unexpected status with `503` naming the
/// dependency called, a `422` by passing it on with its body, and a `200`
/// without an integer with `500` naming the dependency.
pub proof fn failed_answer_ends_evaluation<B>(evaluation: Evaluation, answer: Answer<B>)
    ensures
        answer is Unreachable ==> spec_step(evaluation, answer) == Next::<B>::Done(
            Reply::Degraded(evaluation.spec_call().dependency),
        ),
        answer matches Answer::Replied { status, body, .. } ==> (status == 422 ==> spec_step(
            evaluation,
            answer,
        ) == Next::<B>::Done(Reply::Forwarded { status: 422, body })),
        answer matches Answer::Replied { status, .. } ==> (status != 200 && status != 422
            ==> spec_step(evaluation, answer) == Next::<B>::Done(
            Reply::Degraded(evaluation.spec_call().dependency),
        )),
        answer matches Answer::Replied { status, result, .. } ==> (status == 200 && result is None
            ==> spec_step(evaluation, answer) == Next::<B>::Done(
            Reply::Malformed(evaluation.spec_call().dependency),
        )),
{
}

/// Each call goes to the documented service with the documented operands,
/// under the names that service reads: power gets `base` and `exp`, the other
/// services `a` and `b`.
pub proof fn calls_send_the_documented_operands(evaluation: Evaluation)
    ensures
        ({
            let call = evaluation.spec_call();
            let names = call.spec_operand_names();
            let request = evaluation.request;
            match evaluation.pending {
                Pending::Product => call == (Call {
                    dependency: Dependency::Multiply,
                    a: request.first,
                    b: request.n,
                }) && names == ("a"@, "b"@),
                Pending::Power => call == (Call {
                    dependency: Dependency::Power,
                    a: request.ratio,
                    b: request.n,
                }) && names == ("base"@, "exp"@),
                Pending::Numerator { rn } => call == (Call {
                    dependency: Dependency::Subtract,
                    a: rn,
                    b: 1,
                }) && names == ("a"@, "b"@),
                Pending::ScaledNumerator { num } => call == (Call {
                    dependency: Dependency::Multiply,
                    a: request.first,
                    b: num,
                }) && names == ("a"@, "b"@),
                Pending::Denominator { .. } => call == (Call {
                    dependency: Dependency::Subtract,
                    a: request.ratio,
                    b: 1,
                }) && names == ("a"@, "b"@),
                Pending::Quotient { num2, den } => call == (Call {
                    dependency: Dependency::Divide,
                    a: num2,
                    b: den,
                }) && names == ("a"@, "b"@),
            }
        }),
{
}

/// Only the power service reads its operands as `base` and `exp`; every other
/// service reads `a` and `b`.
pub proof fn operand_names_by_service(call: Call)
    ensures
        call.dependency == Dependency::Power ==> call.spec_operand_names() == ("base"@, "exp"@),
        call.dependency != Dependency::Power ==> call.spec_operand_names() == ("a"@, "b"@),
{
}

} // verus!
