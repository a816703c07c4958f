//! The ways of client requests, and the refusals on them.

use serde_json::Value;
use vllm_pd_router::discovery::{http_address, http_url, WorkerType};
use vllm_pd_router::exchange::{Metric, Stage};
use vllm_pd_router::headers::{
    add_policy_header, forwarded_headers, policy_headers, value_to_str,
};
use vllm_pd_router::profiling::ProfilingAction;
use vllm_pd_router::router::VllmPDRouter;
use vllm_pd_router::routing::{serialization_refusal, Refusal, Route, RouteKind};
use vllm_pd_router::startup::{plan_startup, Settings};
use vllm_pd_router::table::Table;
use vllm_pd_router::text::{contains, erase, numeral, same, starts_with};

fn text(value: &str) -> String {
    value.to_string()
}

fn settings(enable_profiling: bool) -> Settings {
    Settings { enable_profiling, profile_timeout_secs: 30, intra_node_data_parallel_size: 1 }
}

fn router(use_discovery: bool, enable_profiling: bool) -> VllmPDRouter {
    match VllmPDRouter::new(use_discovery, settings(enable_profiling), Ok(()), Ok(())) {
        Ok(router) => router,
        Err(message) => panic!("{}", message),
    }
}

fn route(kind: RouteKind) -> Route {
    Route {
        kind,
        path: text("/x"),
        request: serde_json::from_str(r#"{"b": 1, "a": [true]}"#).expect("the text is JSON"),
    }
}

fn refused<T>(result: Result<T, Refusal>) -> Refusal {
    match result {
        Ok(_) => panic!("not refused"),
        Err(refusal) => refusal,
    }
}

fn went<T>(result: Result<T, Refusal>) -> T {
    match result {
        Ok(value) => value,
        Err(refusal) => panic!("{}", refusal.message),
    }
}

fn unavailable(refusal: &Refusal, message: &str) {
    assert_eq!(refusal.status, 503);
    assert_eq!(refusal.message, message);
    assert_eq!(refusal.metric, Some(Metric::Error(text("server_selection"))));
}

#[test]
fn endpoints_have_their_paths() {
    for (use_discovery, endpoint, proxy) in [
        (true, RouteKind::Discovery, RouteKind::Discovery),
        (false, RouteKind::Direct, RouteKind::TransparentProxy),
    ] {
        let router = router(use_discovery, false);
        assert_eq!(router.uses_discovery(), use_discovery);
        let chat = router.route_chat(Value::from(1));
        assert_eq!((chat.kind, chat.path.as_str()), (endpoint, "/v1/chat/completions"));
        assert_eq!(chat.request, Value::from(1));
        let completion = router.route_completion(Value::from(2));
        assert_eq!((completion.kind, completion.path.as_str()), (endpoint, "/v1/completions"));
        assert_eq!(completion.request, Value::from(2));
        let responses = went(router.route_responses(Value::from(3)));
        assert_eq!((responses.kind, responses.path.as_str()), (proxy, "/v1/responses"));
        assert_eq!(responses.request, Value::from(3));
        let any = went(router.route_transparent("/any", "POST", Value::from(4)));
        assert_eq!((any.kind, any.path.as_str()), (proxy, "/any"));
        assert_eq!(any.request, Value::from(4));
    }
}

#[test]
fn only_what_is_posted_is_proxied() {
    for method in ["GET", "PUT", "post", "POST ", ""] {
        let refusal = refused(router(false, false).route_transparent("/x", method, Value::Null));
        assert_eq!(refusal.status, 405);
        assert_eq!(
            refusal.message,
            "Only POST requests are supported for transparent proxy"
        );
        assert_eq!(refusal.metric, None);
    }
}

#[test]
fn lack_of_workers_is_told() {
    let none: Vec<u8> = Vec::new();
    unavailable(
        &refused(route(RouteKind::Discovery).select(none.clone(), vec![1; 12])),
        "No workers available via service discovery: 0 prefill, 12 decode",
    );
    unavailable(
        &refused(route(RouteKind::Direct).select(vec![1, 2], none.clone())),
        "No workers available: 2 prefill, 0 decode",
    );
    unavailable(
        &refused(route(RouteKind::TransparentProxy).select(none.clone(), none.clone())),
        "No available workers: 0 prefill, 0 decode",
    );
}

#[test]
fn policies_choose_the_workers() {
    let selection = went(route(RouteKind::Direct).select(vec!["a", "b"], vec!["c", "d", "e"]));
    assert_eq!(selection.request_text.as_deref(), Some(r#"{"a":[true],"b":1}"#));
    assert_eq!(selection.prefill, vec!["a", "b"]);
    let selection = went(selection.choose_prefill(Some(1)));
    assert_eq!(selection.decode, vec!["c", "d", "e"]);
    let selected = went(selection.choose_decode(Some(0)));
    assert_eq!((selected.prefill, selected.decode), ("b", "c"));
    assert_eq!(selected.route.path, "/x");
}

#[test]
fn policies_that_choose_none() {
    let selection = went(route(RouteKind::Discovery).select(vec![1], vec![2]));
    unavailable(
        &refused(selection.choose_prefill(None)),
        "Prefill policy failed to select a worker",
    );
    let selection = went(route(RouteKind::Discovery).select(vec![1], vec![2]));
    let selection = went(selection.choose_prefill(Some(0)));
    unavailable(
        &refused(selection.choose_decode(None)),
        "Decode policy failed to select a worker",
    );
}

#[test]
fn failures_are_told() {
    for (kind, message) in [
        (RouteKind::Discovery, "Request processing failed: why"),
        (RouteKind::Direct, "Request processing failed: why"),
        (RouteKind::TransparentProxy, "Transparent proxy request failed: why"),
    ] {
        let refusal = kind.failure("why");
        assert_eq!(refusal.status, 500);
        assert_eq!(refusal.message, message);
        assert_eq!(refusal.metric, None);
    }
    let refusal = serialization_refusal("why");
    assert_eq!(refusal.status, 500);
    assert_eq!(refusal.message, "Serialization error: why");
    assert_eq!(refusal.metric, None);
}

#[test]
fn transparent_proxy_goes_to_available_workers() {
    let available = vec![false, true, true, false, true];
    assert_eq!(route(RouteKind::TransparentProxy).candidates(&available), vec![1, 2, 4]);
    assert_eq!(route(RouteKind::Direct).candidates(&available), vec![0, 1, 2, 3, 4]);
    assert!(route(RouteKind::TransparentProxy).candidates(&vec![false]).is_empty());
}

#[test]
fn policies_see_announced_workers_by_url() {
    let instances = vec![
        (text("a:1"), text("z")),
        (text("http://b:2"), text("z")),
        (text("https://c:3"), text("z")),
        (text("HTTP://d:4"), text("z")),
        (text(""), text("z")),
    ];
    let (stage, workers) = VllmPDRouter::policy_query(&instances, true).expect("workers");
    assert_eq!(stage, Stage::Prefill);
    let urls: Vec<&str> = workers.iter().map(|worker| worker.url.as_str()).collect();
    assert_eq!(
        urls,
        vec!["http://a:1", "http://b:2", "https://c:3", "http://HTTP://d:4", "http://"]
    );
    assert!(workers.iter().all(|worker| worker.worker_type == WorkerType::Regular));
    let (stage, _) = VllmPDRouter::policy_query(&instances, false).expect("workers");
    assert_eq!(stage, Stage::Decode);
    assert!(VllmPDRouter::policy_query(&Vec::new(), true).is_none());
}

#[test]
fn zmq_address_falls_back_to_the_http_address() {
    let announced = Some(text("h:5555"));
    assert_eq!(VllmPDRouter::get_zmq_address("http://h:80", announced), "h:5555");
    assert_eq!(VllmPDRouter::get_zmq_address("http://h:80", None), "h:80");
    assert_eq!(VllmPDRouter::get_zmq_address("https://h:80", None), "h:80");
    assert_eq!(http_address("http://a/http://b/https://c"), "a/b/c");
    assert_eq!(http_address("h:80"), "h:80");
    // What the first scheme leaves behind is looked through for the second.
    assert_eq!(http_address("hhttp://ttps://x"), "x");
    assert_eq!(http_address("hthttp://tp://x"), "http://x");
    assert_eq!(http_url("h:80"), "http://h:80");
}

#[test]
fn request_id_is_exactly_this() {
    assert_eq!(
        VllmPDRouter::format_vllm_request_id(
            "p:1",
            "d:2",
            "01234567-89ab-4cde-8f01-23456789abcd"
        ),
        "___prefill_addr_p:1___decode_addr_d:2_0123456789ab4cde8f0123456789abcd"
    );
}

#[test]
fn request_ids_are_new_each_time() {
    let one = VllmPDRouter::generate_vllm_request_id("p:1", "d:2");
    let other = VllmPDRouter::generate_vllm_request_id("p:1", "d:2");
    assert_ne!(one, other);
    let prefix = "___prefill_addr_p:1___decode_addr_d:2_";
    for id in [one, other] {
        assert_eq!(id.len(), prefix.len() + 32);
        assert!(id.starts_with(prefix));
        assert_eq!(&id[prefix.len() + 12..prefix.len() + 13], "4");
        assert!(id[prefix.len()..].bytes().all(|b| b.is_ascii_hexdigit()));
    }
}

#[test]
fn policies_see_headers_in_lower_case() {
    let headers = vec![
        (text("X-User"), b"first".to_vec()),
        (text("accept"), b"a\tb c~".to_vec()),
        (text("x-user"), b"second".to_vec()),
        (text("x-user"), vec![0xc3, 0xa9]),
        (text("x-del"), vec![127]),
        (text("x-empty"), Vec::new()),
    ];
    let mut entries = policy_headers(&headers).into_entries();
    entries.sort();
    assert_eq!(
        entries,
        vec![
            (text("accept"), text("a\tb c~")),
            (text("x-empty"), text("")),
            (text("x-user"), text("second")),
        ]
    );
}

#[test]
fn header_values_that_are_text() {
    assert_eq!(value_to_str(&b" ~\t".to_vec()), Some(text(" ~\t")));
    assert_eq!(value_to_str(&vec![31]), None);
    assert_eq!(value_to_str(&vec![65, 128]), None);
}

#[test]
fn framing_headers_are_not_forwarded() {
    let headers = vec![
        (text("transfer-encoding"), Vec::new()),
        (text("te"), vec![1]),
        (text("content-length"), Vec::new()),
        (text("content-length2"), vec![2]),
    ];
    assert_eq!(
        forwarded_headers(&headers),
        vec![(text("te"), vec![1]), (text("content-length2"), vec![2])]
    );
}

#[test]
fn start_with_known_workers() {
    let plan = plan_startup(vec![(text("p"), Some(7))], vec![text("d")], None);
    assert_eq!(plan.prefill_urls, vec![(text("p"), Some(7))]);
    assert_eq!(plan.decode_urls, vec![text("d")]);
    assert_eq!(plan.listen_on, None);
    let router = router(false, false);
    assert_eq!(
        router.policies_to_initialize(true, true),
        vec![Stage::Prefill, Stage::Decode]
    );
    assert_eq!(router.policies_to_initialize(true, false), vec![Stage::Prefill]);
    assert_eq!(router.policies_to_initialize(false, true), vec![Stage::Decode]);
    assert!(router.policies_to_initialize(false, false).is_empty());
    assert_eq!(router.router_type(), "vllm_pd");
}

#[test]
fn start_with_service_discovery() {
    let plan = plan_startup(vec![(text("p"), None)], vec![text("d")], Some(text("0.0.0.0:1")));
    assert!(plan.prefill_urls.is_empty());
    assert!(plan.decode_urls.is_empty());
    assert_eq!(plan.listen_on, Some(text("0.0.0.0:1")));
    assert!(router(true, false).policies_to_initialize(true, true).is_empty());
}

#[test]
fn starts_that_fail() {
    let start = |use_discovery: bool, workers: Result<(), String>, listener: Result<(), String>| {
        VllmPDRouter::new(use_discovery, settings(false), workers, listener).err()
    };
    assert_eq!(start(true, Err(text("w")), Err(text("l"))), Some(text("w")));
    assert_eq!(
        start(true, Ok(()), Err(text("l"))),
        Some(text("Failed to start service discovery: l"))
    );
    assert_eq!(start(false, Err(text("w")), Ok(())), Some(text("w")));
    assert_eq!(start(false, Ok(()), Err(text("l"))), None);
}

fn starts(url: &str, task: u64) -> Vec<ProfilingAction<String>> {
    vec![
        ProfilingAction::StartWorker(text(url)),
        ProfilingAction::SetTimer { url: text(url), seconds: 30, task },
    ]
}

#[test]
fn a_worker_has_one_profiling_task() {
    let mut router = router(false, true);
    assert_eq!(router.start_profiling("a", 1), starts("a", 1));
    assert_eq!(router.start_profiling("b", 2), starts("b", 2));
    let mut restarts = starts("a", 3);
    restarts.push(ProfilingAction::AbortTimer { url: text("a"), task: 1 });
    assert_eq!(router.start_profiling("a", 3), restarts);
    assert_eq!(
        router.stop_profiling("a"),
        vec![
            ProfilingAction::AbortTimer { url: text("a"), task: 3 },
            ProfilingAction::StopWorker(text("a")),
        ]
    );
    assert_eq!(router.stop_profiling("a"), vec![ProfilingAction::StopWorker(text("a"))]);
    assert_eq!(
        router.stop_profiling("b"),
        vec![
            ProfilingAction::AbortTimer { url: text("b"), task: 2 },
            ProfilingAction::StopWorker(text("b")),
        ]
    );
}

#[test]
fn profiling_that_timed_out_is_stopped_and_has_no_task() {
    let mut router = router(false, true);
    assert_eq!(router.start_profiling("a", 1), starts("a", 1));
    assert_eq!(router.start_profiling("b", 2), starts("b", 2));
    assert_eq!(router.profiling_timed_out("a"), vec![ProfilingAction::StopWorker(text("a"))]);
    assert_eq!(router.start_profiling("a", 3), starts("a", 3));
    assert_eq!(router.stop_profiling("b").len(), 2);
}

#[test]
fn profiling_can_be_off() {
    let mut router = router(false, false);
    assert!(router.start_profiling("a", 1).is_empty());
    assert!(router.start_profiling("a", 2).is_empty());
    assert!(router.stop_profiling("a").is_empty());
}

#[test]
fn policies_see_the_last_text_under_a_name() {
    let mut table: Table<String> = Table::new();
    add_policy_header(&mut table, text("a"), &b"1".to_vec());
    add_policy_header(&mut table, text("a"), &b"2".to_vec());
    add_policy_header(&mut table, text("a"), &vec![200]);
    add_policy_header(&mut table, text("A"), &b"3".to_vec());
    let mut entries = table.into_entries();
    entries.sort();
    assert_eq!(entries, vec![(text("A"), text("3")), (text("a"), text("2"))]);
}

#[test]
fn policies_get_no_text_where_none_could_be_written() {
    let selection = route(RouteKind::Direct).with_text(vec![1], vec![2], Err(text("why")));
    assert_eq!(selection.request_text, None);
    let selection = route(RouteKind::Direct).with_text(vec![1], vec![2], Ok(text("t")));
    assert_eq!(selection.request_text, Some(text("t")));
    assert_eq!((selection.prefill, selection.decode), (vec![1], vec![2]));
}

#[test]
fn tables_hold_one_value_for_a_text() {
    let mut table: Table<u64> = Table::new();
    assert_eq!(table.insert(text("a"), 1), None);
    assert_eq!(table.insert(text("b"), 2), None);
    assert_eq!(table.insert(text("a"), 3), Some(1));
    assert_eq!(table.remove("c"), None);
    let mut entries = table.into_entries();
    entries.sort();
    assert_eq!(entries, vec![(text("a"), 3), (text("b"), 2)]);
}

#[test]
fn texts_are_searched_by_character() {
    assert!(contains("a/\u{e9}/b", "\u{e9}/"));
    assert!(contains("abc", ""));
    assert!(contains("", ""));
    assert!(!contains("ab", "abc"));
    assert!(starts_with("https://x", "https://"));
    assert!(!starts_with("xhttps://", "https://"));
    assert_eq!(erase("aaa", "aa"), "a");
    assert_eq!(erase("\u{e9}-\u{e9}-", "-"), "\u{e9}\u{e9}");
    assert!(same("POST", "POST"));
    assert!(!same("POST", "Post"));
    for n in [0, 9, 10, 405, 1000, usize::MAX] {
        assert_eq!(numeral(n), n.to_string());
    }
}
