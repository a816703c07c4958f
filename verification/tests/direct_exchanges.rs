//! Exchanges with workers of known URLs.

use serde_json::Value;
use vllm_pd_router::direct::{DirectExchange, DirectTarget};
use vllm_pd_router::exchange::{
    Call, CallBody, Effect, Event, ExchangeError, Metric, Next, Reply, ReplyBody, ResponseHead,
    Stage, Step,
};
use vllm_pd_router::router::VllmPDRouter;
use vllm_pd_router::routing::{Route, RouteKind, Selected};

fn json(text: &str) -> Value {
    serde_json::from_str(text).expect("the text is JSON")
}

fn target(name: &str, dp_rank: Option<usize>) -> DirectTarget {
    DirectTarget {
        base_url: format!("http://{}:8000", name),
        endpoint_url: format!("http://{}:8000/v1/completions", name),
        dp_rank,
    }
}

fn begin(request: &str) -> (DirectExchange, Step) {
    DirectExchange::begin_with_id(
        json(request),
        "/v1/completions".to_string(),
        target("p", None),
        target("d", Some(3)),
        "key".to_string(),
        "the-id".to_string(),
    )
}

fn head(status: u16) -> ResponseHead {
    ResponseHead {
        status,
        headers: vec![
            ("content-type".to_string(), b"application/json".to_vec()),
            ("content-length".to_string(), b"17".to_vec()),
            ("x-a".to_string(), vec![200, 1]),
            ("transfer-encoding".to_string(), b"chunked".to_vec()),
            ("x-a".to_string(), b"again".to_vec()),
        ],
    }
}

fn answered(status: u16) -> Event {
    Event::Response(Ok(head(status)))
}

fn body(text: &str) -> Event {
    Event::Body(Ok(text.as_bytes().to_vec()))
}

fn sent(step: Step) -> Call {
    match step.next {
        Next::Send(call) => call,
        _ => panic!("no call is sent"),
    }
}

fn replied(step: Step) -> Reply {
    match step.next {
        Next::Respond(reply) => reply,
        _ => panic!("there is no reply"),
    }
}

fn failed(step: Step) -> (Vec<Effect<String>>, String) {
    match step.next {
        Next::Fail(ExchangeError::NetworkError { message }) => (step.effects, message),
        _ => panic!("the exchange has not failed"),
    }
}

fn text(value: &str) -> String {
    value.to_string()
}

fn prefill_failure() -> Vec<Effect<String>> {
    vec![
        Effect::DecrementLoad(Stage::Prefill),
        Effect::Record(Metric::PrefillError(text("http://p:8000"))),
        Effect::Record(Metric::Request(text("/v1/completions"))),
        Effect::Record(Metric::RequestDuration(text("/v1/completions"))),
    ]
}

/// The loads of the two workers after some effects.
fn loads(effects: &[Effect<String>]) -> (i32, i32) {
    let mut prefill: i32 = 0;
    let mut decode: i32 = 0;
    for effect in effects {
        match effect {
            Effect::IncrementLoad(Stage::Prefill) => prefill += 1,
            Effect::DecrementLoad(Stage::Prefill) => prefill -= 1,
            Effect::IncrementLoad(Stage::Decode) => decode += 1,
            Effect::DecrementLoad(Stage::Decode) => decode -= 1,
            _ => {}
        }
    }
    (prefill, decode)
}

#[test]
fn first_step_calls_the_prefill_worker() {
    let (_, step) = begin(r#"{"max_tokens": 9}"#);
    assert_eq!(
        step.effects,
        vec![
            Effect::IncrementLoad(Stage::Prefill),
            Effect::StartProfiling(text("http://p:8000")),
        ]
    );
    let call = sent(step);
    assert_eq!(call.stage, Stage::Prefill);
    assert_eq!(call.url, "http://p:8000/v1/completions");
    assert_eq!(
        call.headers,
        vec![
            (text("Content-Type"), text("application/json")),
            (text("Authorization"), text("Bearer key")),
            (text("X-Request-Id"), text("the-id")),
        ]
    );
    assert_eq!(call.dp_rank, None);
    match call.body {
        CallBody::Json(value) => {
            assert_eq!(value["max_tokens"], 1);
            assert_eq!(value["kv_transfer_params"]["do_remote_decode"], true);
        }
        CallBody::Text(_) => panic!("the body is a document"),
    }
}

#[test]
fn decode_worker_gets_the_clients_request_and_the_same_id() {
    let (exchange, first) = begin(r#"{"max_tokens": 9, "stream": true}"#);
    let (exchange, step) = exchange.step(answered(200));
    assert!(step.effects.is_empty());
    assert!(matches!(step.next, Next::ReadBody));
    let (_, step) =
        exchange.step(body(r#"{"kv_transfer_params": {"x": 1}, "prompt_token_ids": [4], "y": 2}"#));
    assert_eq!(
        step.effects,
        vec![
            Effect::StopProfiling(text("http://p:8000")),
            Effect::DecrementLoad(Stage::Prefill),
            Effect::IncrementLoad(Stage::Decode),
            Effect::StartProfiling(text("http://d:8000")),
        ]
    );
    let call = sent(step);
    assert_eq!(call.stage, Stage::Decode);
    assert_eq!(call.url, "http://d:8000/v1/completions");
    assert_eq!(call.headers, sent(first).headers);
    assert_eq!(call.dp_rank, Some(3));
    match call.body {
        CallBody::Json(value) => assert_eq!(
            value,
            json(
                r#"{"max_tokens": 9, "stream": true, "kv_transfer_params": {"x": 1},
                    "prompt_token_ids": [4]}"#
            )
        ),
        CallBody::Text(_) => panic!("the body is a document"),
    }
}

#[test]
fn status_of_the_prefill_worker_does_not_matter() {
    let (exchange, _) = begin("{}");
    let (exchange, step) = exchange.step(answered(500));
    assert!(matches!(step.next, Next::ReadBody));
    let (_, step) = exchange.step(body("{}"));
    assert_eq!(sent(step).stage, Stage::Decode);
}

#[test]
fn reply_streams_without_the_framing_headers() {
    let (exchange, _) = begin(r#"{"logprobs": 1, "stream": true}"#);
    let (exchange, _) = exchange.step(answered(200));
    let (exchange, _) = exchange.step(body("{}"));
    let (_, step) = exchange.step(answered(206));
    assert_eq!(
        step.effects,
        vec![
            Effect::StopProfiling(text("http://d:8000")),
            Effect::DecrementLoad(Stage::Decode),
            Effect::Record(Metric::Request(text("/v1/completions"))),
            Effect::Record(Metric::RequestDuration(text("/v1/completions"))),
            Effect::Record(Metric::PrefillRequest(text("http://p:8000"))),
            Effect::Record(Metric::DecodeRequest(text("http://d:8000"))),
        ]
    );
    let reply = replied(step);
    assert_eq!(reply.status, 206);
    assert_eq!(
        reply.headers,
        vec![
            (text("content-type"), b"application/json".to_vec()),
            (text("x-a"), vec![200, 1]),
            (text("x-a"), b"again".to_vec()),
        ]
    );
    assert!(matches!(reply.body, ReplyBody::Stream));
}

#[test]
fn refusal_by_the_decode_worker_is_recorded_and_handed_on() {
    let (exchange, _) = begin("{}");
    let (exchange, _) = exchange.step(answered(200));
    let (exchange, _) = exchange.step(body("{}"));
    let (_, step) = exchange.step(answered(429));
    assert_eq!(
        step.effects.last(),
        Some(&Effect::Record(Metric::DecodeError(text("http://d:8000"))))
    );
    assert_eq!(replied(step).status, 429);
}

#[test]
fn log_probabilities_are_merged_into_the_reply() {
    let (exchange, _) = begin(r#"{"logprobs": 1}"#);
    let (exchange, _) = exchange.step(answered(200));
    let (exchange, _) = exchange.step(body(r#"{"p": 1}"#));
    let (exchange, step) = exchange.step(answered(200));
    assert!(matches!(step.next, Next::ReadBody));
    let (exchange, step) = exchange.step(body(r#"{"d": 2}"#));
    match step.next {
        Next::MergeLogprobs { prefill, decode } => {
            assert_eq!(prefill, json(r#"{"p": 1}"#));
            assert_eq!(decode, json(r#"{"d": 2}"#));
        }
        _ => panic!("nothing is merged"),
    }
    let (_, step) = exchange.step(Event::Merged(json(r#"{ "m" : [1, 2.5, "x"] }"#)));
    let reply = replied(step);
    assert_eq!(reply.status, 200);
    assert_eq!(reply.headers.len(), 3);
    match reply.body {
        ReplyBody::Bytes(bytes) => assert_eq!(bytes, br#"{"m":[1,2.5,"x"]}"#.to_vec()),
        ReplyBody::Stream => panic!("the body is merged"),
    }
}

#[test]
fn failures_of_the_prefill_stage() {
    let (exchange, _) = begin("{}");
    let (_, step) = exchange.step(Event::Response(Err(text("refused"))));
    let (effects, message) = failed(step);
    assert_eq!(effects, prefill_failure());
    assert_eq!(message, "Prefill request failed to http://p:8000/v1/completions: refused");

    let (exchange, _) = begin("{}");
    let (exchange, _) = exchange.step(answered(200));
    let (_, step) = exchange.step(Event::Body(Err(text("cut off"))));
    let (effects, message) = failed(step);
    assert_eq!(effects, prefill_failure());
    assert_eq!(
        message,
        "Failed to read prefill response from http://p:8000/v1/completions: cut off"
    );

    let (exchange, _) = begin("{}");
    let (exchange, _) = exchange.step(answered(200));
    let (_, step) = exchange.step(body("oops"));
    let (effects, message) = failed(step);
    assert_eq!(effects, prefill_failure());
    assert_eq!(
        message,
        "Failed to parse prefill response as JSON: expected value at line 1 column 1"
    );
}

#[test]
fn failures_of_the_decode_stage() {
    let (exchange, _) = begin("{}");
    let (exchange, _) = exchange.step(answered(200));
    let (exchange, _) = exchange.step(body("{}"));
    let (_, step) = exchange.step(Event::Response(Err(text("refused"))));
    let (effects, message) = failed(step);
    assert_eq!(
        effects,
        vec![
            Effect::DecrementLoad(Stage::Decode),
            Effect::Record(Metric::DecodeError(text("http://d:8000"))),
            Effect::Record(Metric::Request(text("/v1/completions"))),
            Effect::Record(Metric::RequestDuration(text("/v1/completions"))),
            Effect::Record(Metric::PrefillRequest(text("http://p:8000"))),
        ]
    );
    assert_eq!(message, "Decode request failed to http://d:8000/v1/completions: refused");

    let (exchange, _) = begin(r#"{"echo": true}"#);
    let (exchange, _) = exchange.step(answered(200));
    let (exchange, _) = exchange.step(body("{}"));
    let (exchange, _) = exchange.step(answered(200));
    let (_, step) = exchange.step(Event::Body(Err(text("cut off"))));
    let (effects, message) = failed(step);
    assert!(effects.is_empty());
    assert_eq!(
        message,
        "Failed to read decode response from http://d:8000/v1/completions: cut off"
    );

    let (exchange, _) = begin(r#"{"echo": true}"#);
    let (exchange, _) = exchange.step(answered(200));
    let (exchange, _) = exchange.step(body("{}"));
    let (exchange, _) = exchange.step(answered(200));
    let (_, step) = exchange.step(body("{"));
    let (effects, message) = failed(step);
    assert!(effects.is_empty());
    assert_eq!(
        message,
        "Failed to parse decode response as JSON: EOF while parsing an object at line 1 column 1"
    );

    let (exchange, _) = begin("{}");
    let (exchange, _) = exchange.step(answered(200));
    let (exchange, _) = exchange.step(body("{}"));
    let (exchange, _) = exchange.step(answered(200));
    let (_, step) = exchange.step(Event::BuildFailed(text("bad header")));
    let (effects, message) = failed(step);
    assert!(effects.is_empty());
    assert_eq!(message, "Failed to build response from http://d:8000/v1/completions: bad header");
}

#[test]
fn every_way_through_leaves_the_loads_as_they_were() {
    let ways: Vec<Vec<Event>> = vec![
        vec![Event::Response(Err(text("e")))],
        vec![answered(200), Event::Body(Err(text("e")))],
        vec![answered(200), body("x")],
        vec![answered(200), body("{}"), Event::Response(Err(text("e")))],
        vec![answered(200), body("{}"), answered(500), Event::Body(Err(text("e")))],
        vec![answered(200), body("{}"), answered(200), body("x")],
        vec![answered(200), body("{}"), answered(200), body("{}"), Event::Merged(json("{}"))],
    ];
    for way in ways {
        let (mut exchange, first) = begin(r#"{"logprobs": 1}"#);
        let mut effects = first.effects;
        assert_eq!(loads(&effects), (1, 0));
        for event in way {
            let (next, step) = exchange.step(event);
            exchange = next;
            effects.extend(step.effects);
        }
        assert_eq!(loads(&effects), (0, 0));
        let requests = effects
            .iter()
            .filter(|effect| matches!(effect, Effect::Record(Metric::Request(_))))
            .count();
        assert_eq!(requests, 1);
    }
}

/// What is left of the profiling of a worker after some effects.
fn profiled(effects: &[Effect<String>], url: &str) -> i32 {
    let mut left: i32 = 0;
    for effect in effects {
        match effect {
            Effect::StartProfiling(worker) if worker == url => left += 1,
            Effect::StopProfiling(worker) if worker == url => left -= 1,
            _ => {}
        }
    }
    left
}

#[test]
fn a_worker_is_profiled_on_only_where_the_exchange_fails_at_it() {
    let ways: Vec<(Vec<Event>, i32, i32)> = vec![
        (vec![answered(200)], 1, 0),
        (vec![Event::Response(Err(text("e")))], 1, 0),
        (vec![answered(200), body("x")], 1, 0),
        (vec![answered(200), body("{}")], 0, 1),
        (vec![answered(200), body("{}"), Event::Response(Err(text("e")))], 0, 1),
        (vec![answered(200), body("{}"), answered(200)], 0, 0),
        (vec![answered(200), body("{}"), answered(200), body("x")], 0, 0),
    ];
    for (way, at_prefill, at_decode) in ways {
        let (mut exchange, first) = begin(r#"{"logprobs": 1}"#);
        let mut effects = first.effects;
        for event in way {
            let (next, step) = exchange.step(event);
            exchange = next;
            effects.extend(step.effects);
        }
        assert_eq!(profiled(&effects, "http://p:8000"), at_prefill);
        assert_eq!(profiled(&effects, "http://d:8000"), at_decode);
    }
}

#[test]
fn request_id_names_both_workers() {
    let (_, step) = DirectExchange::begin(
        json("{}"),
        "/v1/completions".to_string(),
        target("p", None),
        target("d", None),
        Some(text("p:5555")),
        None,
        String::new(),
    );
    let call = sent(step);
    assert_eq!(call.headers[1], (text("Authorization"), text("Bearer ")));
    let id = &call.headers[2].1;
    let prefix = "___prefill_addr_p:5555___decode_addr_d:8000_";
    assert!(id.starts_with(prefix));
    let digits = &id[prefix.len()..];
    assert_eq!(digits.len(), 32);
    assert!(digits.chars().all(|c| c.is_ascii_hexdigit() && !c.is_ascii_uppercase()));
}

#[test]
fn any_body_goes_through_both_stages() {
    let (exchange, step) = begin("[1, 2]");
    let call = sent(step);
    assert_eq!(call.stage, Stage::Prefill);
    assert_eq!(document(&call), json("[1, 2]"));
    let (exchange, _) = exchange.step(answered(200));
    let (exchange, step) = exchange.step(body(r#"{"kv_transfer_params": 1}"#));
    let call = sent(step);
    assert_eq!(call.stage, Stage::Decode);
    assert_eq!(document(&call), json("[1, 2]"));
    let (_, step) = exchange.step(answered(200));
    let reply = replied(step);
    assert_eq!(reply.status, 200);
    assert!(matches!(reply.body, ReplyBody::Stream));
}

fn document(call: &Call) -> Value {
    match &call.body {
        CallBody::Json(value) => value.clone(),
        CallBody::Text(_) => panic!("the body is a document"),
    }
}

#[test]
fn selected_workers_get_the_request_of_the_route() {
    let selected = Selected {
        route: Route {
            kind: RouteKind::TransparentProxy,
            path: text("/any"),
            request: json(r#"{"a": 1}"#),
        },
        prefill: target("p", Some(1)),
        decode: target("d", None),
    };
    let (exchange, step) = VllmPDRouter::process_vllm_two_stage_request(
        selected,
        None,
        Some(text("tcp-d")),
        text("key"),
    );
    let call = sent(step);
    assert_eq!(call.url, "http://p:8000/v1/completions");
    assert_eq!(call.dp_rank, Some(1));
    assert!(call.headers[2].1.starts_with("___prefill_addr_p:8000___decode_addr_tcp-d_"));
    let (exchange, _) = exchange.step(answered(200));
    let (_, step) = exchange.step(body("{}"));
    let call = sent(step);
    assert_eq!(call.url, "http://d:8000/v1/completions");
    assert_eq!(document(&call), json(r#"{"a": 1}"#));
}

#[test]
fn results_of_reading_and_writing_are_taken_as_they_come() {
    let (exchange, _) = begin(r#"{"logprobs": 1}"#);
    let (exchange, _) = exchange.step(answered(200));
    let (_, step) = exchange.prefill_read(Err(text("why")));
    assert_eq!(
        failed(step),
        (prefill_failure(), text("Failed to parse prefill response as JSON: why"))
    );

    let decoded = || {
        let (exchange, _) = begin(r#"{"logprobs": 1}"#);
        let (exchange, _) = exchange.step(answered(200));
        let (exchange, step) = exchange.prefill_read(Ok(json(r#"{"prompt_token_ids": [5]}"#)));
        assert_eq!(document(&sent(step))["prompt_token_ids"], json("[5]"));
        let (exchange, _) = exchange.step(answered(201));
        exchange
    };
    let (_, step) = decoded().decode_read(Err(text("why")));
    assert_eq!(
        failed(step),
        (Vec::new(), text("Failed to parse decode response as JSON: why"))
    );

    let (exchange, step) = decoded().decode_read(Ok(json("3")));
    match step.next {
        Next::MergeLogprobs { prefill, decode } => {
            assert_eq!(prefill, json(r#"{"prompt_token_ids": [5]}"#));
            assert_eq!(decode, json("3"));
        }
        _ => panic!("nothing is merged"),
    }
    let (_, step) = exchange.merge_written(Ok(vec![7, 8]));
    let reply = replied(step);
    assert_eq!(reply.status, 201);
    match reply.body {
        ReplyBody::Bytes(bytes) => assert_eq!(bytes, vec![7, 8]),
        ReplyBody::Stream => panic!("the body is merged"),
    }

    let (exchange, _) = decoded().decode_read(Ok(json("3")));
    let (_, step) = exchange.merge_written(Err(text("why")));
    assert_eq!(failed(step), (Vec::new(), text("Failed to serialize merged response: why")));
}

#[test]
fn workers_are_recorded_by_how_they_did() {
    let lost = || Event::Response(Err(text("e")));
    let ways: Vec<(Vec<Event>, [usize; 4])> = vec![
        (vec![lost()], [1, 0, 0, 0]),
        (vec![answered(500)], [0, 0, 0, 0]),
        (vec![answered(200), body("x")], [1, 0, 0, 0]),
        (vec![answered(200), body("{}")], [0, 0, 0, 0]),
        (vec![answered(200), body("{}"), lost()], [0, 1, 1, 0]),
        (vec![answered(200), body("{}"), answered(500)], [0, 1, 1, 1]),
        (vec![answered(200), body("{}"), answered(204)], [0, 0, 1, 1]),
        (vec![answered(200), body("{}"), answered(200), body("x")], [0, 0, 1, 1]),
    ];
    for (way, expected) in ways {
        let (mut exchange, first) = begin(r#"{"logprobs": 1}"#);
        let mut effects = first.effects;
        for event in way {
            let (next, step) = exchange.step(event);
            exchange = next;
            effects.extend(step.effects);
        }
        let (p, d) = (text("http://p:8000"), text("http://d:8000"));
        let metrics = [
            Metric::PrefillError(p.clone()),
            Metric::DecodeError(d.clone()),
            Metric::PrefillRequest(p),
            Metric::DecodeRequest(d),
        ];
        for (metric, times) in metrics.into_iter().zip(expected) {
            let wanted = Effect::Record(metric);
            assert_eq!(effects.iter().filter(|effect| **effect == wanted).count(), times);
        }
    }
}
