//! Evaluations driven end to end against simulated dependencies: each
//! dependency computes its real answer from the request it receives, or
//! stands for an unreachable or misbehaving service.

use serde_json::Value;
use srvcs_harmonicmean::api::{
    index, ApiDoc, Call, Deps, HarmonicMean, Operand, Outcome, Reply, Step,
};

const DEAD_URL: &str = "http://127.0.0.1:1";
const RECIPROCAL_URL: &str = "http://127.0.0.1:8090";
const FLOATADD_URL: &str = "http://127.0.0.1:8091";
const FLOATDIVIDE_URL: &str = "http://127.0.0.1:8092";

fn approx(got: f64, expected: f64) -> bool {
    (got - expected).abs() < 1e-9
}

fn object(fields: Vec<(&str, Value)>) -> Value {
    let mut map = serde_json::Map::new();
    for (key, value) in fields {
        map.insert(key.to_string(), value);
    }
    Value::Object(map)
}

fn number(x: f64) -> Value {
    serde_json::Number::from_f64(x).map(Value::Number).unwrap_or(Value::Null)
}

fn json_bytes(value: &Value) -> Vec<u8> {
    serde_json::to_vec(value).unwrap()
}

fn text_number(text: &[u8]) -> f64 {
    std::str::from_utf8(text).unwrap().parse::<f64>().unwrap()
}

/// A simulated dependency: what it answers to a request body.
#[derive(Clone)]
enum Mock {
    Reciprocal,
    FloatAdd,
    FloatDivide,
    Fixed(u16, Value),
}

impl Mock {
    fn answer(&self, body: &Value) -> Outcome {
        let f = |key: &str, default: f64| body.get(key).and_then(Value::as_f64).unwrap_or(default);
        let result = match self {
            Mock::Reciprocal => 1.0 / f("value", 0.0),
            Mock::FloatAdd => f("a", 0.0) + f("b", 0.0),
            Mock::FloatDivide => f("a", 0.0) / f("b", 1.0),
            Mock::Fixed(status, body) => {
                return Outcome::Answered { status: *status, body: json_bytes(body) };
            },
        };
        Outcome::Answered { status: 200, body: json_bytes(&object(vec![("result", number(result))])) }
    }
}

/// The services listening, by URL; any other URL is unreachable.
struct Network {
    services: Vec<(String, Mock)>,
    calls: Vec<(String, Value)>,
}

impl Network {
    fn new(services: Vec<(&str, Mock)>) -> Network {
        Network {
            services: services.into_iter().map(|(url, mock)| (url.to_string(), mock)).collect(),
            calls: Vec::new(),
        }
    }

    fn call(&mut self, url: &str, body: Value) -> Outcome {
        self.calls.push((url.to_string(), body.clone()));
        match self.services.iter().find(|(u, _)| u == url) {
            Some((_, mock)) => mock.answer(&body),
            None => Outcome::Unreachable,
        }
    }
}

fn request_body(call: &Call, values: &[Value]) -> Value {
    let fields = call
        .request()
        .into_iter()
        .map(|field| {
            let value = match field.operand {
                Operand::Input { index } => values[index].clone(),
                Operand::Number { text } => number(text_number(&text)),
                Operand::Count { count } => number(count as f64),
            };
            (field.name, value)
        })
        .collect();
    object(fields)
}

fn render(reply: Reply, values: Vec<Value>) -> (u16, Value) {
    let status = reply.status();
    let body = match &reply {
        Reply::Computed { result } => object(vec![
            ("values", Value::Array(values)),
            ("result", number(text_number(result))),
        ]),
        Reply::Forward { body, .. } => serde_json::from_slice(body).unwrap_or(Value::Null),
        _ => {
            let mut fields = vec![("error", Value::from(reply.error_message().unwrap()))];
            if let Some(dependency) = reply.dependency() {
                fields.push(("dependency", Value::from(dependency.name())));
            }
            object(fields)
        },
    };
    (status, body)
}

/// Runs one evaluation of `values` against `network`, as `POST /` does.
fn evaluate(deps: &Deps, values: Vec<Value>, network: &mut Network) -> (u16, Value) {
    let mut step = HarmonicMean::start(values.len());
    loop {
        match step {
            Step::Finish(reply) => return render(reply, values),
            Step::Ask { machine, call } => {
                let url = deps.url(call.dependency()).to_string();
                let outcome = network.call(&url, request_body(&call, &values));
                step = machine.on_outcome(outcome);
            },
        }
    }
}

fn deps(reciprocal_url: &str, floatadd_url: &str, floatdivide_url: &str) -> Deps {
    Deps {
        reciprocal_url: reciprocal_url.to_string(),
        floatadd_url: floatadd_url.to_string(),
        floatdivide_url: floatdivide_url.to_string(),
    }
}

fn computing_network() -> Network {
    Network::new(vec![
        (RECIPROCAL_URL, Mock::Reciprocal),
        (FLOATADD_URL, Mock::FloatAdd),
        (FLOATDIVIDE_URL, Mock::FloatDivide),
    ])
}

fn ints(values: &[i64]) -> Vec<Value> {
    values.iter().map(|v| Value::from(*v)).collect()
}

fn harmonicmean(r: &str, a: &str, d: &str, values: Vec<Value>, network: &mut Network) -> (u16, Value) {
    evaluate(&deps(r, a, d), values, network)
}

#[test]
fn openapi_documents_routes() {
    let doc = ApiDoc::openapi();
    let root = doc.path("/").expect("path / present");
    assert!(root.get.is_some());
    assert!(root.post.is_some());
}

#[test]
fn index_reports_all_dependencies() {
    let info = index();
    assert_eq!(info.service, "srvcs-harmonicmean");
    assert_eq!(info.concern, "arithmetic: harmonic mean");
    assert_eq!(info.depends_on, vec!["srvcs-reciprocal", "srvcs-floatadd", "srvcs-floatdivide"]);
}

#[test]
fn index_reports_identity() {
    let info = index();
    assert_eq!(info.service, "srvcs-harmonicmean");
    assert_eq!(info.concern, "arithmetic: harmonic mean");
    assert_eq!(info.depends_on, vec!["srvcs-reciprocal", "srvcs-floatadd", "srvcs-floatdivide"]);
}

#[test]
fn empty_list_is_unprocessable_without_calling_deps() {
    let deps = deps(DEAD_URL, DEAD_URL, DEAD_URL);
    let mut network = Network::new(vec![]);
    let (status, _) = evaluate(&deps, vec![], &mut network);
    assert_eq!(status, 422);
    assert!(network.calls.is_empty());
}

#[test]
fn harmonicmean_1_2_4() {
    let mut network = computing_network();
    let (status, body) =
        harmonicmean(RECIPROCAL_URL, FLOATADD_URL, FLOATDIVIDE_URL, ints(&[1, 2, 4]), &mut network);
    assert_eq!(status, 200);
    assert_eq!(body["values"], Value::Array(ints(&[1, 2, 4])));
    // sum(1/1 + 1/2 + 1/4) = 1.75; 3 / 1.75 = 1.7142857142857142
    let got = body["result"].as_f64().expect("float result");
    assert!(approx(got, 1.7142857142857142), "got {got}");
}

#[test]
fn harmonicmean_single_element_is_itself() {
    let mut network = computing_network();
    let (status, body) =
        harmonicmean(RECIPROCAL_URL, FLOATADD_URL, FLOATDIVIDE_URL, ints(&[5]), &mut network);
    assert_eq!(status, 200);
    // 1 / (1/5) = 5
    let got = body["result"].as_f64().expect("float result");
    assert!(approx(got, 5.0), "got {got}");
}

#[test]
fn harmonicmean_equal_elements_is_that_value() {
    let mut network = computing_network();
    let (status, body) =
        harmonicmean(RECIPROCAL_URL, FLOATADD_URL, FLOATDIVIDE_URL, ints(&[2, 2, 2, 2]), &mut network);
    assert_eq!(status, 200);
    // sum(4 * 1/2) = 2; 4 / 2 = 2
    let got = body["result"].as_f64().expect("float result");
    assert!(approx(got, 2.0), "got {got}");
}

#[test]
fn harmonicmean_fractions() {
    let mut network = computing_network();
    let values = vec![number(0.5), number(0.25)];
    let (status, body) =
        harmonicmean(RECIPROCAL_URL, FLOATADD_URL, FLOATDIVIDE_URL, values, &mut network);
    assert_eq!(status, 200);
    // sum(2 + 4) = 6; 2 / 6 = 0.3333333333333333
    let got = body["result"].as_f64().expect("float result");
    assert!(approx(got, 2.0 / 6.0), "got {got}");
}

#[test]
fn harmonicmean_empty_is_422_without_calling_deps() {
    let mut network = computing_network();
    let (status, _) = harmonicmean(DEAD_URL, DEAD_URL, DEAD_URL, vec![], &mut network);
    assert_eq!(status, 422);
    assert!(network.calls.is_empty());
}

#[test]
fn degrades_when_reciprocal_unreachable() {
    let mut network = computing_network();
    let (status, body) =
        harmonicmean(DEAD_URL, FLOATADD_URL, FLOATDIVIDE_URL, ints(&[1, 2, 4]), &mut network);
    assert_eq!(status, 503);
    assert_eq!(body["dependency"], "srvcs-reciprocal");
}

#[test]
fn degrades_when_floatadd_unreachable() {
    let mut network = computing_network();
    let (status, body) =
        harmonicmean(RECIPROCAL_URL, DEAD_URL, FLOATDIVIDE_URL, ints(&[1, 2, 4]), &mut network);
    assert_eq!(status, 503);
    assert_eq!(body["dependency"], "srvcs-floatadd");
}

#[test]
fn degrades_when_floatdivide_unreachable() {
    // reciprocal + floatadd reachable, so the pipeline reaches the floatdivide call.
    let mut network = computing_network();
    let (status, body) =
        harmonicmean(RECIPROCAL_URL, FLOATADD_URL, DEAD_URL, ints(&[1, 2, 4]), &mut network);
    assert_eq!(status, 503);
    assert_eq!(body["dependency"], "srvcs-floatdivide");
}

#[test]
fn forwards_422_from_reciprocal() {
    // reciprocal rejects (e.g. reciprocal of zero) -> forward 422.
    let rejecting = Mock::Fixed(422, object(vec![("error", Value::from("reciprocal of zero"))]));
    let mut network = Network::new(vec![
        (RECIPROCAL_URL, rejecting),
        (FLOATADD_URL, Mock::FloatAdd),
        (FLOATDIVIDE_URL, Mock::FloatDivide),
    ]);
    let (status, _) =
        harmonicmean(RECIPROCAL_URL, FLOATADD_URL, FLOATDIVIDE_URL, ints(&[0, 1]), &mut network);
    assert_eq!(status, 422);
}

#[test]
fn forwards_422_from_floatdivide() {
    let rejecting = Mock::Fixed(422, object(vec![("error", Value::from("divide by zero"))]));
    let mut network = Network::new(vec![
        (RECIPROCAL_URL, Mock::Reciprocal),
        (FLOATADD_URL, Mock::FloatAdd),
        (FLOATDIVIDE_URL, rejecting),
    ]);
    let (status, _) =
        harmonicmean(RECIPROCAL_URL, FLOATADD_URL, FLOATDIVIDE_URL, ints(&[1, 2, 4]), &mut network);
    assert_eq!(status, 422);
}

#[test]
fn malformed_reciprocal_result_is_500() {
    // reciprocal answers 200 but with no float result -> contract violation -> 500.
    let malformed = Mock::Fixed(200, object(vec![("result", Value::from("not-a-number"))]));
    let mut network = Network::new(vec![
        (RECIPROCAL_URL, malformed),
        (FLOATADD_URL, Mock::FloatAdd),
        (FLOATDIVIDE_URL, Mock::FloatDivide),
    ]);
    let (status, body) =
        harmonicmean(RECIPROCAL_URL, FLOATADD_URL, FLOATDIVIDE_URL, ints(&[1, 2, 4]), &mut network);
    assert_eq!(status, 500);
    assert_eq!(body["dependency"], "srvcs-reciprocal");
}

// --- The shape of a whole evaluation. ---

#[test]
fn successful_evaluation_makes_two_calls_per_value_and_one_division() {
    let mut network = computing_network();
    let (status, _) =
        harmonicmean(RECIPROCAL_URL, FLOATADD_URL, FLOATDIVIDE_URL, ints(&[1, 2, 4]), &mut network);
    assert_eq!(status, 200);
    let urls: Vec<&str> = network.calls.iter().map(|(url, _)| url.as_str()).collect();
    assert_eq!(
        urls,
        vec![
            RECIPROCAL_URL, FLOATADD_URL, RECIPROCAL_URL, FLOATADD_URL, RECIPROCAL_URL, FLOATADD_URL,
            FLOATDIVIDE_URL,
        ]
    );
    let bodies: Vec<&Value> = network.calls.iter().map(|(_, body)| body).collect();
    assert_eq!(bodies[0]["value"], 1);
    assert_eq!(bodies[1]["a"].as_f64(), Some(0.0));
    assert_eq!(bodies[1]["b"].as_f64(), Some(1.0));
    assert_eq!(bodies[2]["value"], 2);
    assert_eq!(bodies[3]["a"].as_f64(), Some(1.0));
    assert_eq!(bodies[3]["b"].as_f64(), Some(0.5));
    assert_eq!(bodies[4]["value"], 4);
    assert_eq!(bodies[5]["a"].as_f64(), Some(1.5));
    assert_eq!(bodies[5]["b"].as_f64(), Some(0.25));
    assert_eq!(bodies[6]["a"].as_f64(), Some(3.0));
    assert_eq!(bodies[6]["b"].as_f64(), Some(1.75));
}

#[test]
fn the_first_failure_ends_the_evaluation() {
    let mut network = computing_network();
    let (status, body) =
        harmonicmean(RECIPROCAL_URL, DEAD_URL, FLOATDIVIDE_URL, ints(&[1, 2, 4]), &mut network);
    assert_eq!(status, 503);
    assert_eq!(body["error"], "dependency unavailable");
    // The reciprocal of the first value, then the failed sum: nothing after.
    assert_eq!(network.calls.len(), 2);
}

#[test]
fn every_reply_has_a_documented_status() {
    let doc = ApiDoc::openapi();
    let post = doc.path("/").unwrap().post.as_ref().unwrap();
    let documented: Vec<u16> = post.responses.iter().map(|response| response.status).collect();
    assert_eq!(documented, vec![200, 422, 500, 503]);
    let scenarios: Vec<(&str, &str, &str, Vec<Value>)> = vec![
        (RECIPROCAL_URL, FLOATADD_URL, FLOATDIVIDE_URL, ints(&[1, 2])),
        (RECIPROCAL_URL, FLOATADD_URL, FLOATDIVIDE_URL, vec![]),
        (DEAD_URL, FLOATADD_URL, FLOATDIVIDE_URL, ints(&[3])),
        (RECIPROCAL_URL, FLOATADD_URL, FLOATDIVIDE_URL, ints(&[0])),
    ];
    for (r, a, d, values) in scenarios {
        let mut network = computing_network();
        let (status, _) = harmonicmean(r, a, d, values, &mut network);
        assert!(documented.contains(&status), "status {status}");
    }
}

#[test]
fn reciprocal_of_zero_is_a_malformed_result() {
    // 1 / 0 is infinite, which JSON cannot carry: the mock answers `null`.
    let mut network = computing_network();
    let (status, body) =
        harmonicmean(RECIPROCAL_URL, FLOATADD_URL, FLOATDIVIDE_URL, ints(&[0]), &mut network);
    assert_eq!(status, 500);
    assert_eq!(body["error"], "dependency returned a malformed result");
    assert_eq!(body["dependency"], "srvcs-reciprocal");
}

#[test]
fn unexpected_status_degrades() {
    let teapot = Mock::Fixed(418, object(vec![]));
    let mut network = Network::new(vec![
        (RECIPROCAL_URL, Mock::Reciprocal),
        (FLOATADD_URL, teapot),
        (FLOATDIVIDE_URL, Mock::FloatDivide),
    ]);
    let (status, body) =
        harmonicmean(RECIPROCAL_URL, FLOATADD_URL, FLOATDIVIDE_URL, ints(&[1]), &mut network);
    assert_eq!(status, 503);
    assert_eq!(body["dependency"], "srvcs-floatadd");
}

#[test]
fn forwarded_body_is_passed_on() {
    let body = object(vec![("error", Value::from("divide by zero"))]);
    let mut network = Network::new(vec![
        (RECIPROCAL_URL, Mock::Reciprocal),
        (FLOATADD_URL, Mock::FloatAdd),
        (FLOATDIVIDE_URL, Mock::Fixed(422, body.clone())),
    ]);
    let (status, got) =
        harmonicmean(RECIPROCAL_URL, FLOATADD_URL, FLOATDIVIDE_URL, ints(&[2]), &mut network);
    assert_eq!(status, 422);
    assert_eq!(got, body);
}
