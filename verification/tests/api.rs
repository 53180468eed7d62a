use srvcs_geometricseriessum::api::{
    depends_on, degraded, forward, index, malformed, ok, start, step, value_of, ask, Answer, Call,
    Dependency, Deps, EvalRequest, Evaluation, GeometricSeriesSumResponse, Next, Pending, Reply,
    ApiDoc, CONCERN, SERVICE,
};

/// A computing stand-in for the four arithmetic services.
fn computing(call: &Call) -> Answer<String> {
    let value = match call.dependency {
        Dependency::Power => {
            let mut acc: i64 = 1;
            for _ in 0..call.b.max(0) {
                acc *= call.a;
            }
            acc
        }
        Dependency::Multiply => call.a * call.b,
        Dependency::Subtract => call.a - call.b,
        Dependency::Divide => {
            if call.b == 0 {
                return Answer::Replied {
                    status: 422,
                    result: None,
                    body: "divide by zero".to_string(),
                };
            }
            call.a / call.b
        }
    };
    Answer::Replied { status: 200, result: Some(value), body: format!("{value}") }
}

/// Runs an evaluation to its reply, recording which dependencies were called.
fn run(
    first: i64,
    ratio: i64,
    n: i64,
    services: impl Fn(&Call) -> Answer<String>,
) -> (Reply<String>, Vec<Dependency>) {
    let mut evaluation = start(EvalRequest { first, ratio, n });
    let mut called = Vec::new();
    loop {
        let call = evaluation.call();
        called.push(call.dependency);
        match step(evaluation, services(&call)) {
            Next::Continue(later) => evaluation = later,
            Next::Done(reply) => return (reply, called),
        }
    }
}

/// `services`, but `dead` cannot be reached.
fn unreachable(dead: Dependency) -> impl Fn(&Call) -> Answer<String> {
    move |call: &Call| {
        if call.dependency == dead {
            Answer::Unreachable
        } else {
            computing(call)
        }
    }
}

/// `services`, but `fixed` always answers `status` with `body`.
fn answering(
    fixed: Dependency,
    status: u16,
    result: Option<i64>,
    body: &'static str,
) -> impl Fn(&Call) -> Answer<String> {
    move |call: &Call| {
        if call.dependency == fixed {
            Answer::Replied { status, result, body: body.to_string() }
        } else {
            computing(call)
        }
    }
}

fn success(reply: &Reply<String>) -> GeometricSeriesSumResponse {
    match reply {
        Reply::Success(response) => *response,
        _ => panic!("expected a successful reply"),
    }
}

fn failing_dependency(reply: &Reply<String>) -> &'static str {
    match reply {
        Reply::Degraded(dependency) | Reply::Malformed(dependency) => dependency.name(),
        _ => panic!("expected a reply naming a dependency"),
    }
}

#[test]
fn index_reports_all_dependencies() {
    let info = index();
    assert_eq!(info.service, "srvcs-geometricseriessum");
    assert_eq!(
        info.concern,
        "sequences: sum of first n terms of a geometric sequence"
    );
    assert_eq!(
        info.depends_on,
        vec![
            "srvcs-power",
            "srvcs-multiply",
            "srvcs-subtract",
            "srvcs-divide"
        ]
    );
}

#[test]
fn index_reports_identity() {
    let info = index();
    assert_eq!(SERVICE, "srvcs-geometricseriessum");
    assert_eq!(CONCERN, "sequences: sum of first n terms of a geometric sequence");
    assert_eq!(info.service, "srvcs-geometricseriessum");
    assert_eq!(
        info.concern,
        "sequences: sum of first n terms of a geometric sequence"
    );
    assert_eq!(
        depends_on(),
        vec!["srvcs-power", "srvcs-multiply", "srvcs-subtract", "srvcs-divide"]
    );
    assert_eq!(info.depends_on, depends_on());
}

#[test]
fn gss_1_2_4_is_15() {
    let (reply, _) = run(1, 2, 4, computing);
    assert_eq!(reply.status(), 200);
    let body = success(&reply);
    assert_eq!(body.first, 1);
    assert_eq!(body.ratio, 2);
    assert_eq!(body.n, 4);
    // rn=16; num=15; num2=15; den=1; 15/1=15  (1+2+4+8)
    assert_eq!(body.result, 15);
}

#[test]
fn gss_3_2_3_is_21() {
    let (reply, _) = run(3, 2, 3, computing);
    assert_eq!(reply.status(), 200);
    assert_eq!(success(&reply).result, 21);
}

#[test]
fn gss_2_3_4_is_80() {
    let (reply, _) = run(2, 3, 4, computing);
    assert_eq!(reply.status(), 200);
    assert_eq!(success(&reply).result, 80);
}

#[test]
fn gss_ratio_one_is_first_times_n() {
    // Only multiply is reachable: power, subtract and divide are never called.
    let services = |call: &Call| {
        if call.dependency == Dependency::Multiply {
            computing(call)
        } else {
            Answer::Unreachable
        }
    };
    let (reply, called) = run(5, 1, 4, services);
    assert_eq!(reply.status(), 200);
    assert_eq!(success(&reply).result, 20);
    assert_eq!(called, vec![Dependency::Multiply]);
}

#[test]
fn gss_n_one_is_first() {
    let (reply, _) = run(7, 5, 1, computing);
    assert_eq!(reply.status(), 200);
    assert_eq!(success(&reply).result, 7);
}

#[test]
fn degrades_when_power_unreachable() {
    let (reply, _) = run(1, 2, 4, unreachable(Dependency::Power));
    assert_eq!(reply.status(), 503);
    assert_eq!(failing_dependency(&reply), "srvcs-power");
}

#[test]
fn degrades_when_subtract_unreachable() {
    let (reply, _) = run(1, 2, 4, unreachable(Dependency::Subtract));
    assert_eq!(reply.status(), 503);
    assert_eq!(failing_dependency(&reply), "srvcs-subtract");
}

#[test]
fn degrades_when_multiply_unreachable() {
    let (reply, _) = run(1, 2, 4, unreachable(Dependency::Multiply));
    assert_eq!(reply.status(), 503);
    assert_eq!(failing_dependency(&reply), "srvcs-multiply");
}

#[test]
fn degrades_when_divide_unreachable() {
    let (reply, _) = run(1, 2, 4, unreachable(Dependency::Divide));
    assert_eq!(reply.status(), 503);
    assert_eq!(failing_dependency(&reply), "srvcs-divide");
}

#[test]
fn forwards_422_from_power() {
    let services = answering(Dependency::Power, 422, None, "value is not an integer");
    let (reply, _) = run(1, 2, 4, services);
    assert_eq!(reply.status(), 422);
    assert!(matches!(reply, Reply::Forwarded { body, .. } if body == "value is not an integer"));
}

#[test]
fn forwards_422_from_multiply_on_ratio_one() {
    let services = |call: &Call| {
        if call.dependency == Dependency::Multiply {
            Answer::Replied { status: 422, result: None, body: "bad operand".to_string() }
        } else {
            Answer::Unreachable
        }
    };
    let (reply, _) = run(1, 1, 4, services);
    assert_eq!(reply.status(), 422);
}

#[test]
fn forwards_422_from_divide() {
    let services = answering(Dependency::Divide, 422, None, "divide by zero");
    let (reply, _) = run(1, 2, 4, services);
    assert_eq!(reply.status(), 422);
}

#[test]
fn malformed_power_result_is_500() {
    let services = answering(Dependency::Power, 200, None, "not-a-number");
    let (reply, _) = run(1, 2, 4, services);
    assert_eq!(reply.status(), 500);
    assert_eq!(failing_dependency(&reply), "srvcs-power");
    assert_eq!(reply.error(), Some("dependency returned a malformed result"));
}

#[test]
fn unexpected_status_degrades() {
    let services = answering(Dependency::Subtract, 404, Some(3), "not found");
    let (reply, _) = run(1, 2, 4, services);
    assert_eq!(reply.status(), 503);
    assert_eq!(failing_dependency(&reply), "srvcs-subtract");
    assert_eq!(reply.error(), Some("dependency unavailable"));
}

#[test]
fn calls_follow_the_closed_form() {
    let mut evaluation = start(EvalRequest { first: 2, ratio: 3, n: 4 });
    let mut calls = Vec::new();
    loop {
        let call = evaluation.call();
        calls.push((call.dependency, call.a, call.b));
        match step::<String>(evaluation, computing(&call)) {
            Next::Continue(later) => evaluation = later,
            Next::Done(_) => break,
        }
    }
    assert_eq!(
        calls,
        vec![
            (Dependency::Power, 3, 4),
            (Dependency::Subtract, 81, 1),
            (Dependency::Multiply, 2, 80),
            (Dependency::Subtract, 3, 1),
            (Dependency::Divide, 160, 2),
        ]
    );
}

#[test]
fn evaluation_states_are_as_documented() {
    let request = EvalRequest { first: 2, ratio: 3, n: 4 };
    assert_eq!(start(request), Evaluation { request, pending: Pending::Power });
    let one = EvalRequest { first: 2, ratio: 1, n: 4 };
    assert_eq!(start(one), Evaluation { request: one, pending: Pending::Product });
    let next = step::<String>(
        Evaluation { request, pending: Pending::Denominator { num2: 160 } },
        Answer::Replied { status: 200, result: Some(2), body: String::new() },
    );
    assert!(matches!(
        next,
        Next::Continue(Evaluation { pending: Pending::Quotient { num2: 160, den: 2 }, .. })
    ));
}

#[test]
fn negative_and_zero_ratios() {
    // 3 - 6 + 12 - 24 = -15
    assert_eq!(success(&run(3, -2, 4, computing).0).result, -15);
    // 5 + 0 + 0 = 5
    assert_eq!(success(&run(5, 0, 3, computing).0).result, 5);
    // no terms
    assert_eq!(success(&run(5, 3, 0, computing).0).result, 0);
}

#[test]
fn forward_keeps_valid_statuses_only() {
    assert_eq!(forward::<()>(422, ()).status(), 422);
    assert_eq!(forward::<()>(100, ()).status(), 100);
    assert_eq!(forward::<()>(999, ()).status(), 999);
    assert_eq!(forward::<()>(99, ()).status(), 502);
    assert_eq!(forward::<()>(1000, ()).status(), 502);
}

#[test]
fn replies_carry_their_statuses() {
    assert_eq!(ok::<()>(1, 2, 3, 4).status(), 200);
    assert_eq!(degraded::<()>(Dependency::Divide).status(), 503);
    assert_eq!(malformed::<()>(Dependency::Divide).status(), 500);
    assert_eq!(degraded::<()>(Dependency::Divide).error(), Some("dependency unavailable"));
    assert_eq!(ok::<()>(1, 2, 3, 4).error(), None);
}

#[test]
fn ask_judges_answers() {
    assert!(matches!(ask::<()>(Answer::Replied { status: 200, result: Some(9), body: () }, Dependency::Power), Ok(Some(9))));
    assert!(matches!(ask::<()>(Answer::Replied { status: 200, result: None, body: () }, Dependency::Power), Ok(None)));
    assert!(matches!(ask::<()>(Answer::Unreachable, Dependency::Power), Err(Reply::Degraded(Dependency::Power))));
    assert!(matches!(value_of::<()>(Answer::Replied { status: 200, result: None, body: () }, Dependency::Divide), Err(Reply::Malformed(Dependency::Divide))));
    assert!(matches!(value_of::<()>(Answer::Replied { status: 500, result: Some(1), body: () }, Dependency::Divide), Err(Reply::Degraded(Dependency::Divide))));
}

#[test]
fn deps_route_each_dependency() {
    let deps = Deps {
        power_url: "http://p".to_string(),
        multiply_url: "http://m".to_string(),
        subtract_url: "http://s".to_string(),
        divide_url: "http://d".to_string(),
    };
    assert_eq!(deps.url(Dependency::Power), "http://p");
    assert_eq!(deps.url(Dependency::Multiply), "http://m");
    assert_eq!(deps.url(Dependency::Subtract), "http://s");
    assert_eq!(deps.url(Dependency::Divide), "http://d");
}

#[test]
fn operand_names_per_service() {
    let power = Call { dependency: Dependency::Power, a: 2, b: 3 };
    let divide = Call { dependency: Dependency::Divide, a: 2, b: 3 };
    assert_eq!(power.operand_names(), ("base", "exp"));
    assert_eq!(divide.operand_names(), ("a", "b"));
}

#[test]
fn openapi_documents_routes() {
    let doc = ApiDoc::openapi();
    let root = doc.paths.paths.get("/").expect("path / present");
    assert!(root.get.is_some());
    assert!(root.post.is_some());
}

#[test]
fn openapi_documents_schemas_and_responses() {
    let doc = ApiDoc::openapi();
    assert_eq!(doc.info.title, "srvcs-geometricseriessum");
    let root = doc.paths.paths.get("/").expect("path / present");
    let get = root.get.as_ref().expect("GET /");
    assert_eq!(get.operation_id.as_deref(), Some("index"));
    assert_eq!(
        get.summary.as_deref(),
        Some("`GET /` — service identity (srvcs service standard).")
    );
    assert_eq!(get.description, None);
    let post = root.post.as_ref().expect("POST /");
    assert_eq!(post.operation_id.as_deref(), Some("evaluate"));
    assert_eq!(
        post.summary.as_deref(),
        Some(
            "`POST /` — compute the sum of the first `n` terms of the geometric sequence\n\
             with starting term `first` and common `ratio`, delegating every arithmetic\n\
             step to the dependency primitives:"
        )
    );
    let description = post.description.as_deref().expect("description");
    assert!(description.starts_with("- if `ratio == 1`, every term equals `first`"));
    assert!(description.contains("via `srvcs-divide`.\n\nIf a dependency is unreachable"));
    assert!(description.ends_with("it forwards the `422`."));
    assert!(post.request_body.is_some());
    let statuses: Vec<&String> = post.responses.responses.keys().collect();
    assert_eq!(statuses, vec!["200", "422", "500", "503"]);
    let components = doc.components.expect("components");
    for name in ["Info", "EvalRequest", "GeometricSeriesSumResponse"] {
        assert!(components.schemas.contains_key(name), "schema {name}");
    }
}

#[test]
fn one_more_term_adds_ratio_times_the_sum() {
    for (first, ratio) in [(3, 2), (2, 3), (-4, -3), (7, 0), (5, 1)] {
        assert_eq!(success(&run(first, ratio, 0, computing).0).result, 0);
        for n in 0..6 {
            let now = success(&run(first, ratio, n, computing).0).result;
            let next = success(&run(first, ratio, n + 1, computing).0).result;
            assert_eq!(next, first + ratio * now);
        }
    }
}
