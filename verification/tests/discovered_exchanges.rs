//! Exchanges with workers that service discovery announced.

use serde_json::Value;
use vllm_pd_router::discovered::{refusal_text, DiscoveredExchange, DiscoveredTarget};
use vllm_pd_router::exchange::{
    Call, CallBody, Effect, Event, ExchangeError, Metric, Next, Reply, ReplyBody, ResponseHead,
    Stage, Step,
};
use vllm_pd_router::router::VllmPDRouter;
use vllm_pd_router::routing::{Route, RouteKind, Selected};
use vllm_pd_router::startup::Settings;

fn json(text: &str) -> Value {
    serde_json::from_str(text).expect("the text is JSON")
}

fn text(value: &str) -> String {
    value.to_string()
}

fn begin(request: &str) -> (DiscoveredExchange, Step) {
    DiscoveredExchange::begin_with_id(
        json(request),
        "/v1/completions".to_string(),
        DiscoveredTarget { http: text("p:1@0"), address: text("p:1"), dp_rank: Some(0) },
        DiscoveredTarget { http: text("d:2"), address: text("d:2"), dp_rank: None },
        "the-id".to_string(),
    )
}

fn answered(status: u16) -> Event {
    Event::Response(Ok(ResponseHead {
        status,
        headers: vec![(text("content-length"), b"2".to_vec()), (text("x-a"), b"b".to_vec())],
    }))
}

fn read(value: &str) -> Event {
    Event::Text(Ok(value.to_string()))
}

fn body(value: &str) -> Event {
    Event::Body(Ok(value.as_bytes().to_vec()))
}

fn sent(step: Step) -> Call {
    match step.next {
        Next::Send(call) => call,
        _ => panic!("no call is sent"),
    }
}

fn sent_text(call: &Call) -> String {
    match &call.body {
        CallBody::Text(text) => text.clone(),
        CallBody::Json(_) => panic!("the body is a text"),
    }
}

fn replied(step: Step) -> Reply {
    match step.next {
        Next::Respond(reply) => reply,
        _ => panic!("there is no reply"),
    }
}

fn failed(step: Step) -> (Vec<Effect<String>>, String) {
    match step.next {
        Next::Fail(ExchangeError::Message(message)) => (step.effects, message),
        _ => panic!("the exchange has not failed"),
    }
}

fn prefill_failure() -> Vec<Effect<String>> {
    vec![
        Effect::Record(Metric::PrefillError(text("p:1@0"))),
        Effect::Record(Metric::Request(text("/v1/completions"))),
        Effect::Record(Metric::RequestDuration(text("/v1/completions"))),
    ]
}

#[test]
fn announced_prefill_worker_is_called_first() {
    let (_, step) = begin(r#"{"model": "m"}"#);
    assert_eq!(step.effects, vec![Effect::StartProfiling(text("http://p:1"))]);
    let call = sent(step);
    assert_eq!(call.stage, Stage::Prefill);
    assert_eq!(call.url, "http://p:1/v1/completions");
    assert_eq!(
        call.headers,
        vec![
            (text("Content-Type"), text("application/json")),
            (text("X-Request-Id"), text("the-id")),
        ]
    );
    assert_eq!(call.dp_rank, Some(0));
    assert_eq!(
        sent_text(&call),
        concat_lines(&[
            r#"{"kv_transfer_params":{"do_remote_decode":true,"do_remote_prefill":false,"#,
            r#""remote_block_ids":null,"remote_engine_id":null,"remote_host":null,"#,
            r#""remote_port":null},"max_tokens":1,"model":"m","return_token_ids":true,"#,
            r#""stream":false}"#,
        ])
    );
}

fn concat_lines(lines: &[&str]) -> String {
    let mut all = String::new();
    for line in lines {
        all.push_str(line);
    }
    all
}

#[test]
fn announced_decode_worker_is_called_with_the_same_id() {
    let (exchange, first) = begin(r#"{"model": "m"}"#);
    let (exchange, step) = exchange.step(answered(200));
    assert!(step.effects.is_empty());
    assert!(matches!(step.next, Next::ReadText));
    let (_, step) = exchange.step(read(r#" {"prompt_token_ids": [4], "y": 2}"#));
    assert_eq!(
        step.effects,
        vec![
            Effect::StopProfiling(text("http://p:1")),
            Effect::StartProfiling(text("http://d:2")),
        ]
    );
    let call = sent(step);
    assert_eq!(call.stage, Stage::Decode);
    assert_eq!(call.url, "http://d:2/v1/completions");
    assert_eq!(call.headers, sent(first).headers);
    assert_eq!(call.dp_rank, None);
    assert_eq!(sent_text(&call), r#"{"model":"m","prompt_token_ids":[4]}"#);
}

#[test]
fn reply_of_an_announced_worker_is_whole() {
    let (exchange, _) = begin(r#"{"logprobs": 1, "stream": true}"#);
    let (exchange, _) = exchange.step(answered(200));
    let (exchange, _) = exchange.step(read("{}"));
    let (exchange, step) = exchange.step(answered(404));
    assert_eq!(
        step.effects,
        vec![
            Effect::StopProfiling(text("http://d:2")),
            Effect::Record(Metric::Request(text("/v1/completions"))),
            Effect::Record(Metric::RequestDuration(text("/v1/completions"))),
            Effect::Record(Metric::PrefillRequest(text("p:1@0"))),
            Effect::Record(Metric::DecodeRequest(text("d:2"))),
            Effect::Record(Metric::DecodeError(text("d:2"))),
        ]
    );
    assert!(matches!(step.next, Next::ReadBody));
    let (_, step) = exchange.step(body("no JSON"));
    let reply = replied(step);
    assert_eq!(reply.status, 404);
    assert_eq!(
        reply.headers,
        vec![(text("content-length"), b"2".to_vec()), (text("x-a"), b"b".to_vec())]
    );
    match reply.body {
        ReplyBody::Bytes(bytes) => assert_eq!(bytes, b"no JSON".to_vec()),
        ReplyBody::Stream => panic!("the body has been read"),
    }
}

#[test]
fn log_probabilities_of_announced_workers_are_merged() {
    let (exchange, _) = begin(r#"{"echo": true}"#);
    let (exchange, _) = exchange.step(answered(200));
    let (exchange, _) = exchange.step(read(r#"{"p": 1}"#));
    let (exchange, _) = exchange.step(answered(200));
    let (exchange, step) = exchange.step(body(r#"{"d": 2}"#));
    match step.next {
        Next::MergeLogprobs { prefill, decode } => {
            assert_eq!(prefill, json(r#"{"p": 1}"#));
            assert_eq!(decode, json(r#"{"d": 2}"#));
        }
        _ => panic!("nothing is merged"),
    }
    let (_, step) = exchange.step(Event::Merged(json(r#"{"m": null}"#)));
    match replied(step).body {
        ReplyBody::Bytes(bytes) => assert_eq!(bytes, br#"{"m":null}"#.to_vec()),
        ReplyBody::Stream => panic!("the body is merged"),
    }
}

#[test]
fn refusal_by_the_prefill_worker_is_told() {
    let (exchange, _) = begin("{}");
    let (exchange, step) = exchange.step(answered(503));
    assert_eq!(step.effects, prefill_failure());
    assert!(matches!(step.next, Next::ReadText));
    let (_, step) = exchange.step(read("too busy"));
    let (effects, message) = failed(step);
    assert!(effects.is_empty());
    assert_eq!(message, "Prefill server error 503 Service Unavailable: too busy");

    let (exchange, _) = begin("{}");
    let (exchange, _) = exchange.step(answered(599));
    let (_, step) = exchange.step(Event::Text(Err(text("cut off"))));
    assert_eq!(failed(step).1, "Prefill server error 599 <unknown status code>: ");
}

#[test]
fn failures_of_the_announced_prefill_worker() {
    let (exchange, _) = begin("{}");
    let (_, step) = exchange.step(Event::Response(Err(text("refused"))));
    let (effects, message) = failed(step);
    assert_eq!(effects, prefill_failure());
    assert_eq!(message, "Prefill request failed to p:1@0: refused");

    let (exchange, _) = begin("{}");
    let (exchange, _) = exchange.step(answered(200));
    let (_, step) = exchange.step(Event::Text(Err(text("cut off"))));
    let (effects, message) = failed(step);
    assert!(effects.is_empty());
    assert_eq!(message, "Failed to read prefill response from p:1@0: cut off");

    let (exchange, _) = begin("{}");
    let (exchange, _) = exchange.step(answered(200));
    let (_, step) = exchange.step(read(""));
    let (effects, message) = failed(step);
    assert!(effects.is_empty());
    assert_eq!(
        message,
        "Failed to parse prefill response as JSON: EOF while parsing a value at line 1 column 0"
    );
}

#[test]
fn failures_of_the_announced_decode_worker() {
    let (exchange, _) = begin("{}");
    let (exchange, _) = exchange.step(answered(200));
    let (exchange, _) = exchange.step(read("{}"));
    let (_, step) = exchange.step(Event::Response(Err(text("refused"))));
    let (effects, message) = failed(step);
    assert_eq!(
        effects,
        vec![
            Effect::Record(Metric::DecodeError(text("d:2"))),
            Effect::Record(Metric::Request(text("/v1/completions"))),
            Effect::Record(Metric::RequestDuration(text("/v1/completions"))),
            Effect::Record(Metric::PrefillRequest(text("p:1@0"))),
        ]
    );
    assert_eq!(message, "Decode request failed to d:2: refused");

    let (exchange, _) = begin("{}");
    let (exchange, _) = exchange.step(answered(200));
    let (exchange, _) = exchange.step(read("{}"));
    let (exchange, _) = exchange.step(answered(200));
    let (_, step) = exchange.step(Event::Body(Err(text("cut off"))));
    assert_eq!(failed(step).1, "Failed to read decode response: cut off");

    let (exchange, _) = begin(r#"{"logprobs": 1}"#);
    let (exchange, _) = exchange.step(answered(200));
    let (exchange, _) = exchange.step(read("{}"));
    let (exchange, _) = exchange.step(answered(200));
    let (_, step) = exchange.step(body("x"));
    assert_eq!(
        failed(step).1,
        "Failed to parse decode response as JSON: expected value at line 1 column 1"
    );

    let (exchange, _) = begin("{}");
    let (exchange, _) = exchange.step(answered(200));
    let (exchange, _) = exchange.step(read("{}"));
    let (exchange, _) = exchange.step(answered(200));
    let (exchange, _) = exchange.step(body("{}"));
    let (_, step) = exchange.step(Event::BuildFailed(text("bad header")));
    assert_eq!(failed(step).1, "Failed to build response: bad header");
}

#[test]
fn announced_workers_are_measured_and_profiled() {
    let lost = || Event::Response(Err(text("e")));
    let ways: Vec<(Vec<Event>, usize, i32, i32)> = vec![
        (vec![lost()], 1, 1, 0),
        (vec![answered(500)], 1, 1, 0),
        (vec![answered(500), read("no")], 1, 1, 0),
        (vec![answered(200), Event::Text(Err(text("e")))], 0, 1, 0),
        (vec![answered(200), read("x")], 0, 1, 0),
        (vec![answered(200), read("{}")], 0, 0, 1),
        (vec![answered(200), read("{}"), lost()], 1, 0, 1),
        (vec![answered(200), read("{}"), answered(500)], 1, 0, 0),
        (vec![answered(200), read("{}"), answered(200), body("x")], 1, 0, 0),
        (vec![answered(200), read("{}"), answered(200), body("{}")], 1, 0, 0),
    ];
    for (way, requests, at_prefill, at_decode) in ways {
        let (mut exchange, first) = begin(r#"{"logprobs": 1}"#);
        let mut effects = first.effects;
        for event in way {
            let (next, step) = exchange.step(event);
            exchange = next;
            effects.extend(step.effects);
        }
        let count = |wanted: &Effect<String>| {
            effects.iter().filter(|effect| *effect == wanted).count()
        };
        assert_eq!(count(&Effect::Record(Metric::Request(text("/v1/completions")))), requests);
        assert_eq!(
            count(&Effect::Record(Metric::RequestDuration(text("/v1/completions")))),
            requests
        );
        for (url, expected) in [("http://p:1", at_prefill), ("http://d:2", at_decode)] {
            let starts = count(&Effect::StartProfiling(text(url))) as i32;
            let stops = count(&Effect::StopProfiling(text(url))) as i32;
            assert_eq!(starts - stops, expected);
        }
        assert!(!effects
            .iter()
            .any(|e| matches!(e, Effect::IncrementLoad(_) | Effect::DecrementLoad(_))));
    }
}

#[test]
fn selected_instances_keep_their_halves_together() {
    let selected = Selected {
        route: Route {
            kind: RouteKind::Discovery,
            path: text("/v1/completions"),
            request: json(r#"{"a": 1}"#),
        },
        prefill: (text("p:1@4"), text("tcp-p")),
        decode: (text("d:2"), text("tcp-d")),
    };
    let (exchange, step) = VllmPDRouter::process_vllm_two_stage_request_discovered(
        selected,
        Some((text("http://p:1"), Some(4))),
        None,
    );
    let call = sent(step);
    assert_eq!(call.url, "http://p:1/v1/completions");
    assert_eq!(call.dp_rank, Some(4));
    let id = call.headers[1].1.clone();
    assert!(id.starts_with("___prefill_addr_tcp-p___decode_addr_tcp-d_"));
    assert_eq!(id.matches('-').count(), 2);
    let (exchange, _) = exchange.step(answered(200));
    let (_, step) = exchange.step(read("{}"));
    let call = sent(step);
    assert_eq!(call.url, "http://d:2/v1/completions");
    assert_eq!(call.dp_rank, None);
    assert_eq!(call.headers[1].1, id);
    assert_eq!(sent_text(&call), r#"{"a":1}"#);
}

#[test]
fn any_body_goes_to_announced_workers() {
    let (exchange, step) = begin("[1, 2]");
    assert_eq!(sent_text(&sent(step)), "[1,2]");
    let (exchange, _) = exchange.step(answered(200));
    let (exchange, step) = exchange.step(read(r#"{"prompt_token_ids": 1}"#));
    assert_eq!(sent_text(&sent(step)), "[1,2]");
    let (exchange, _) = exchange.step(answered(200));
    let (_, step) = exchange.step(body("ok"));
    assert_eq!(replied(step).status, 200);
}

#[test]
fn refusals_are_told_with_their_status() {
    assert_eq!(
        refusal_text("418 I'm a teapot", Ok(text("no coffee"))),
        "Prefill server error 418 I'm a teapot: no coffee"
    );
    assert_eq!(refusal_text("500 x", Err(text("cut off"))), "Prefill server error 500 x: ");
}

#[test]
fn announced_workers_answers_are_taken_as_they_come() {
    let target = |address: &str| DiscoveredTarget {
        http: text(address),
        address: text(address),
        dp_rank: None,
    };
    let begin_with = |written: Result<String, String>| {
        DiscoveredExchange::begin_with_body(
            json(r#"{"logprobs": 1}"#),
            text("/x"),
            target("p:1"),
            target("d:2"),
            text("id"),
            written,
        )
    };
    let (_, step) = begin_with(Err(text("why")));
    assert_eq!(failed(step), (Vec::new(), text("Failed to serialize prefill request: why")));

    let answered_exchange = || {
        let (exchange, step) = begin_with(Ok(text("body")));
        assert_eq!(step.effects, vec![Effect::StartProfiling(text("http://p:1"))]);
        assert_eq!(sent_text(&sent(step)), "body");
        exchange.step(answered(200)).0
    };
    let (_, step) = answered_exchange().prefill_read(Err(text("why")));
    assert_eq!(
        failed(step),
        (Vec::new(), text("Failed to parse prefill response as JSON: why"))
    );
    let (_, step) = answered_exchange().prefill_read(Ok(json("{}")));
    assert_eq!(sent_text(&sent(step)), r#"{"logprobs":1}"#);
    let (_, step) = answered_exchange().decode_written(json("{}"), Err(text("why")));
    assert_eq!(failed(step), (Vec::new(), text("Failed to serialize decode request: why")));

    let decoded = || {
        let (exchange, step) =
            answered_exchange().decode_written(json("5"), Ok(text("decode body")));
        assert_eq!(sent_text(&sent(step)), "decode body");
        exchange.step(answered(202)).0
    };
    let (_, step) = decoded().decode_read(Err(text("why")));
    assert_eq!(
        failed(step),
        (Vec::new(), text("Failed to parse decode response as JSON: why"))
    );
    let (exchange, step) = decoded().decode_read(Ok(json("6")));
    match step.next {
        Next::MergeLogprobs { prefill, decode } => {
            assert_eq!((prefill, decode), (json("5"), json("6")))
        }
        _ => panic!("nothing is merged"),
    }
    let (_, step) = exchange.merge_written(Ok(vec![7]));
    let reply = replied(step);
    assert_eq!(reply.status, 202);
    match reply.body {
        ReplyBody::Bytes(bytes) => assert_eq!(bytes, vec![7]),
        ReplyBody::Stream => panic!("the body is merged"),
    }
    let (exchange, _) = decoded().decode_read(Ok(json("6")));
    let (_, step) = exchange.merge_written(Err(text("why")));
    assert_eq!(failed(step), (Vec::new(), text("Failed to serialize merged response: why")));
}

#[test]
fn announced_workers_are_recorded_by_how_they_did() {
    let lost = || Event::Response(Err(text("e")));
    let ways: Vec<(Vec<Event>, [usize; 4])> = vec![
        (vec![lost()], [1, 0, 0, 0]),
        (vec![answered(500), read("no")], [1, 0, 0, 0]),
        (vec![answered(200), read("x")], [0, 0, 0, 0]),
        (vec![answered(200), read("{}"), lost()], [0, 1, 1, 0]),
        (vec![answered(200), read("{}"), answered(500)], [0, 1, 1, 1]),
        (vec![answered(200), read("{}"), answered(200)], [0, 0, 1, 1]),
    ];
    for (way, expected) in ways {
        let (mut exchange, first) = begin("{}");
        let mut effects = first.effects;
        for event in way {
            let (next, step) = exchange.step(event);
            exchange = next;
            effects.extend(step.effects);
        }
        let metrics = [
            Metric::PrefillError(text("p:1@0")),
            Metric::DecodeError(text("d:2")),
            Metric::PrefillRequest(text("p:1@0")),
            Metric::DecodeRequest(text("d:2")),
        ];
        for (metric, times) in metrics.into_iter().zip(expected) {
            let wanted = Effect::Record(metric);
            assert_eq!(effects.iter().filter(|effect| **effect == wanted).count(), times);
        }
    }
}

#[test]
fn ranks_are_split_off_where_addresses_have_them() {
    let router = |size: usize| {
        let settings = Settings {
            enable_profiling: false,
            profile_timeout_secs: 0,
            intra_node_data_parallel_size: size,
        };
        match VllmPDRouter::new(true, settings, Ok(()), Ok(())) {
            Ok(router) => router,
            Err(message) => panic!("{}", message),
        }
    };
    assert_eq!(router(0).rank_query("p:1@0"), None);
    assert_eq!(router(1).rank_query("p:1@0"), None);
    assert_eq!(router(2).rank_query("p:1@0"), Some(text("http://p:1@0")));

    let target = VllmPDRouter::discovered_target(text("p:1"), None);
    assert_eq!((target.http.as_str(), target.address.as_str()), ("p:1", "p:1"));
    assert_eq!(target.dp_rank, None);

    let split = Some((text("https://p:1"), Some(4)));
    let target = VllmPDRouter::discovered_target(text("p:1@4"), split);
    assert_eq!((target.http.as_str(), target.address.as_str()), ("p:1@4", "p:1"));
    assert_eq!(target.dp_rank, Some(4));
}
