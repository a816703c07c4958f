//! How client requests become prefill and decode requests.

use serde_json::Value;
use vllm_pd_router::request::{needs_merged_logprobs, prepare_decode_body, prepare_prefill_body};
use vllm_pd_router::router::VllmPDRouter;

fn json(text: &str) -> Value {
    serde_json::from_str(text).expect("the text is JSON")
}

// --- Chat and completions ---

#[test]
fn test_prefill_chat_completion_sets_max_tokens_1() {
    let request = json(
        r#"{
            "model": "test",
            "messages": [{"role": "user", "content": "hi"}],
            "max_tokens": 512,
            "stream": true
        }"#,
    );
    let result = VllmPDRouter::prepare_prefill_request(request, "/v1/chat/completions");
    assert_eq!(result["max_tokens"], 1);
    assert_eq!(result["stream"], false);
}

#[test]
fn test_prefill_chat_completion_sets_max_completion_tokens_1() {
    let request = json(
        r#"{
            "model": "test",
            "messages": [{"role": "user", "content": "hi"}],
            "max_tokens": 512,
            "max_completion_tokens": 256
        }"#,
    );
    let result = VllmPDRouter::prepare_prefill_request(request, "/v1/chat/completions");
    assert_eq!(result["max_tokens"], 1);
    assert_eq!(result["max_completion_tokens"], 1);
}

#[test]
fn test_prefill_chat_completion_clamps_min_tokens() {
    let request = json(r#"{"model": "test", "max_tokens": 512, "min_tokens": 100}"#);
    let result = VllmPDRouter::prepare_prefill_request(request, "/v1/completions");
    assert_eq!(result["max_tokens"], 1);
    assert_eq!(result["min_tokens"], 1);
}

#[test]
fn test_prefill_chat_completion_leaves_small_min_tokens() {
    let request = json(r#"{"model": "test", "max_tokens": 512, "min_tokens": 0}"#);
    let result = VllmPDRouter::prepare_prefill_request(request, "/v1/completions");
    assert_eq!(result["max_tokens"], 1);
    // min_tokens <= 1, so it should be left as-is
    assert_eq!(result["min_tokens"], 0);
}

#[test]
fn test_prefill_chat_completion_removes_stream_options() {
    let request = json(
        r#"{
            "model": "test",
            "max_tokens": 512,
            "stream": true,
            "stream_options": {"include_usage": true}
        }"#,
    );
    let result = VllmPDRouter::prepare_prefill_request(request, "/v1/chat/completions");
    assert_eq!(result["stream"], false);
    assert!(result.get("stream_options").is_none());
}

// --- Responses API ---

#[test]
fn test_prefill_responses_patches_max_output_tokens() {
    let request = json(
        r#"{
            "model": "test",
            "input": "What is the capital of France?",
            "max_output_tokens": 1024,
            "stream": true
        }"#,
    );
    let result = VllmPDRouter::prepare_prefill_request(request, "/v1/responses");
    assert_eq!(result["max_output_tokens"], 1);
    // The Responses API doesn't use max_tokens, so it should not be injected
    assert!(result.get("max_tokens").is_none());
    assert_eq!(result["stream"], false);
}

#[test]
fn test_prefill_responses_without_max_output_tokens() {
    let request = json(r#"{"model": "test", "input": "Hello", "stream": false}"#);
    let result = VllmPDRouter::prepare_prefill_request(request, "/v1/responses");
    // For /v1/responses, max_output_tokens should always be forced to 1
    assert_eq!(result["max_output_tokens"], 1);
    // The Responses API doesn't use max_tokens, so it should not be injected
    assert!(result.get("max_tokens").is_none());
    assert_eq!(result["stream"], false);
}

// --- Generate API ---

#[test]
fn test_prefill_generate_patches_sampling_params() {
    let request = json(
        r#"{
            "token_ids": [123, 456],
            "sampling_params": {"max_tokens": 512, "temperature": 0.7}
        }"#,
    );
    let result = VllmPDRouter::prepare_prefill_request(request, "/inference/v1/generate");
    // sampling_params.max_tokens should be capped
    assert_eq!(result["sampling_params"]["max_tokens"], 1);
    // temperature should be preserved
    assert_eq!(result["sampling_params"]["temperature"], 0.7);
    // top-level max_tokens should NOT be set
    assert!(result.get("max_tokens").is_none());
}

#[test]
fn test_prefill_generate_clamps_sampling_params_min_tokens() {
    let request = json(
        r#"{
            "token_ids": [123, 456],
            "sampling_params": {"max_tokens": 512, "min_tokens": 50}
        }"#,
    );
    let result = VllmPDRouter::prepare_prefill_request(request, "/inference/v1/generate");
    assert_eq!(result["sampling_params"]["max_tokens"], 1);
    assert_eq!(result["sampling_params"]["min_tokens"], 1);
}

#[test]
fn test_prefill_generate_without_sampling_params() {
    // If sampling_params is missing, should not panic
    let request = json(r#"{"token_ids": [123, 456]}"#);
    let result = VllmPDRouter::prepare_prefill_request(request, "/inference/v1/generate");
    // stream should still be forced to false
    assert_eq!(result["stream"], false);
    // top-level max_tokens should NOT be set (generate path)
    assert!(result.get("max_tokens").is_none());
    // create sampling_params and set min max
    assert_eq!(result["sampling_params"]["max_tokens"], 1);
    assert_eq!(result["sampling_params"]["min_tokens"], 1);
}

#[test]
fn test_prefill_generate_forces_stream_false() {
    let request = json(
        r#"{
            "token_ids": [123, 456],
            "sampling_params": {"max_tokens": 512},
            "stream": true,
            "stream_options": {"include_usage": true}
        }"#,
    );
    let result = VllmPDRouter::prepare_prefill_request(request, "/inference/v1/generate");
    assert_eq!(result["stream"], false);
    assert!(result.get("stream_options").is_none());
}

// --- What the decode worker need not compute again ---

#[test]
fn test_prefill_request_sets_return_token_ids() {
    let request = json(
        r#"{
            "model": "test",
            "messages": [{"role": "user", "content": "hello"}],
            "max_tokens": 512
        }"#,
    );
    let result = VllmPDRouter::prepare_prefill_request(request, "/v1/chat/completions");
    assert_eq!(result["return_token_ids"], true);
}

#[test]
fn test_prefill_response_prompt_token_ids_forwarded_to_decode() {
    let prefill_response = json(
        r#"{
            "id": "chatcmpl-123",
            "choices": [{"message": {"content": "hi"}, "finish_reason": "length"}],
            "usage": {"prompt_tokens": 5, "completion_tokens": 1, "total_tokens": 6},
            "kv_transfer_params": {
                "do_remote_prefill": true,
                "remote_block_ids": [[1, 2, 3]],
                "remote_engine_id": "engine-1"
            },
            "prompt_token_ids": [100, 200, 300, 400, 500]
        }"#,
    );
    let kv_transfer_params = prefill_response.get("kv_transfer_params").cloned();
    let prompt_token_ids = prefill_response.get("prompt_token_ids").cloned();
    assert!(kv_transfer_params.is_some());
    assert!(prompt_token_ids.is_some());
    assert_eq!(prompt_token_ids.as_ref().unwrap().as_array().unwrap().len(), 5);

    let original_request = json(
        r#"{
            "model": "test",
            "messages": [{"role": "user", "content": "hello"}],
            "max_tokens": 512,
            "stream": true
        }"#,
    );
    let decode_request = prepare_decode_body(&original_request, &prefill_response);

    assert!(decode_request.get("kv_transfer_params").is_some());
    assert_eq!(decode_request["kv_transfer_params"]["do_remote_prefill"], true);
    assert!(decode_request.get("prompt_token_ids").is_some());
    assert_eq!(decode_request["prompt_token_ids"].as_array().unwrap().len(), 5);
    // Original fields preserved
    assert_eq!(decode_request["model"], "test");
    assert_eq!(decode_request["stream"], true);

    assert_eq!(decode_request.get("kv_transfer_params"), kv_transfer_params.as_ref());
    assert_eq!(decode_request.get("prompt_token_ids"), prompt_token_ids.as_ref());
}

#[test]
fn test_prefill_response_without_prompt_token_ids() {
    // When the prefill response lacks prompt_token_ids, the decode request should not have it
    let prefill_response = json(
        r#"{
            "id": "chatcmpl-123",
            "choices": [],
            "usage": {"prompt_tokens": 5, "completion_tokens": 1, "total_tokens": 6},
            "kv_transfer_params": {"do_remote_prefill": true}
        }"#,
    );
    assert!(prefill_response.get("prompt_token_ids").is_none());

    let request = json(r#"{"model": "test", "messages": []}"#);
    let decode_request = prepare_decode_body(&request, &prefill_response);
    assert!(decode_request.get("prompt_token_ids").is_none());
}

// --- Whole documents ---

#[test]
fn chat_prefill_request_is_exactly_this() {
    let request = json(
        r#"{"model": "m", "n": -3, "max_tokens": 9, "max_completion_tokens": null,
            "min_tokens": 2, "stream": true, "stream_options": {}, "return_token_ids": 0}"#,
    );
    let expected = json(
        r#"{"model": "m", "n": -3, "max_tokens": 1, "max_completion_tokens": 1,
            "min_tokens": 1, "stream": false, "return_token_ids": true}"#,
    );
    assert_eq!(VllmPDRouter::prepare_prefill_request(request, "/v1/completions"), expected);
}

#[test]
fn max_completion_tokens_is_not_injected() {
    let request = json(r#"{"max_tokens": 9}"#);
    let result = VllmPDRouter::prepare_prefill_request(request, "/v1/completions");
    assert!(result.get("max_completion_tokens").is_none());
    assert!(result.get("min_tokens").is_none());
}

#[test]
fn minimum_of_one_and_no_number_are_kept() {
    for min in ["1", "-5", "2.5", "\"7\"", "null"] {
        let request = json(&format!("{{\"min_tokens\": {}}}", min));
        let result = VllmPDRouter::prepare_prefill_request(request, "/v1/completions");
        assert_eq!(result["min_tokens"], json(min));
    }
}

#[test]
fn responses_request_keeps_the_limits_of_other_apis() {
    let request = json(
        r#"{"max_tokens": 5, "max_completion_tokens": 6, "min_tokens": 7, "sampling_params": 8}"#,
    );
    let expected = json(
        r#"{"max_tokens": 5, "max_completion_tokens": 6, "min_tokens": 7, "sampling_params": 8,
            "max_output_tokens": 1, "stream": false, "return_token_ids": true}"#,
    );
    assert_eq!(VllmPDRouter::prepare_prefill_request(request, "/x/v1/responses/y"), expected);
}

#[test]
fn generate_path_goes_before_responses_path() {
    let request = json(r#"{"max_output_tokens": 5, "sampling_params": {"min_tokens": 0}}"#);
    let expected = json(
        r#"{"max_output_tokens": 5, "sampling_params": {"max_tokens": 1, "min_tokens": 0},
            "stream": false, "return_token_ids": true}"#,
    );
    let path = "/v1/responses/inference/v1/generate";
    assert_eq!(VllmPDRouter::prepare_prefill_request(request, path), expected);
}

#[test]
fn null_becomes_an_object() {
    let result = VllmPDRouter::prepare_prefill_request(Value::Null, "/v1/completions");
    assert_eq!(result, json(r#"{"max_tokens": 1, "stream": false, "return_token_ids": true}"#));

    let request = json(r#"{"sampling_params": null}"#);
    let result = VllmPDRouter::prepare_prefill_request(request, "/inference/v1/generate");
    assert_eq!(result["sampling_params"], json(r#"{"max_tokens": 1}"#));
}

#[test]
fn making_a_prefill_request_twice_changes_nothing_more() {
    for path in ["/v1/completions", "/v1/responses", "/inference/v1/generate"] {
        let request = json(
            r#"{"max_tokens": 9, "max_completion_tokens": 8, "min_tokens": 7, "stream": true,
                "sampling_params": {"min_tokens": 6}}"#,
        );
        assert_eq!(VllmPDRouter::prepare_prefill_request(json("[1]"), path), json("[1]"));
        let once = VllmPDRouter::prepare_prefill_request(request, path);
        assert_eq!(VllmPDRouter::prepare_prefill_request(once.clone(), path), once);
    }
}

#[test]
fn what_no_member_can_be_written_into_stays_as_it_is() {
    let response = json(r#"{"kv_transfer_params": 1, "prompt_token_ids": [2]}"#);
    for text in ["[1, 2]", "1", "\"x\"", "true"] {
        for path in ["/v1/completions", "/v1/responses", "/inference/v1/generate"] {
            let request = json(text);
            assert_eq!(VllmPDRouter::prepare_prefill_request(json(text), path), request);
            assert_eq!(prepare_prefill_body(&request, path), request);
            assert_eq!(prepare_decode_body(&request, &response), request);
        }
    }
}

#[test]
fn sampling_params_that_take_no_members_are_kept() {
    let request = json(r#"{"sampling_params": [1], "stream": true, "stream_options": 2}"#);
    let expected = json(
        r#"{"sampling_params": [1], "stream": false, "return_token_ids": true}"#,
    );
    assert_eq!(
        VllmPDRouter::prepare_prefill_request(request, "/inference/v1/generate"),
        expected
    );
}

#[test]
fn prefill_body_announces_a_remote_decode() {
    let request = json(r#"{"model": "m", "kv_transfer_params": 5}"#);
    let expected = json(
        r#"{"model": "m", "max_tokens": 1, "stream": false, "return_token_ids": true,
            "kv_transfer_params": {
                "do_remote_decode": true,
                "do_remote_prefill": false,
                "remote_engine_id": null,
                "remote_block_ids": null,
                "remote_host": null,
                "remote_port": null
            }}"#,
    );
    assert_eq!(prepare_prefill_body(&request, "/v1/completions"), expected);
}

#[test]
fn decode_body_is_the_clients_but_for_two_members() {
    let request = json(r#"{"a": 1, "kv_transfer_params": 2, "prompt_token_ids": 3}"#);
    let response = json(r#"{"a": 9, "b": 9, "prompt_token_ids": null}"#);
    let expected = json(r#"{"a": 1, "kv_transfer_params": 2, "prompt_token_ids": null}"#);
    assert_eq!(prepare_decode_body(&request, &response), expected);
}

#[test]
fn decode_body_of_null_is_an_object() {
    let response = json(r#"{"kv_transfer_params": 1}"#);
    assert_eq!(prepare_decode_body(&Value::Null, &response), response);
    assert_eq!(prepare_decode_body(&Value::Null, &json("7")), Value::Null);
}

#[test]
fn log_probabilities_are_merged_where_asked_for_and_not_streamed() {
    let cases = [
        (r#"{}"#, false),
        (r#"{"logprobs": 5}"#, true),
        (r#"{"logprobs": null}"#, true),
        (r#"{"echo": true}"#, true),
        (r#"{"echo": false}"#, false),
        (r#"{"echo": 1}"#, false),
        (r#"{"logprobs": 5, "stream": true}"#, false),
        (r#"{"logprobs": 5, "stream": false}"#, true),
        (r#"{"logprobs": 5, "stream": "yes"}"#, true),
        (r#"["logprobs"]"#, false),
    ];
    for (text, expected) in cases {
        assert_eq!(needs_merged_logprobs(&json(text)), expected, "{}", text);
    }
}
