//! Laws on the making of requests out of a client's request.
use crate::json::{json_view, JsonView};
use crate::laws::words::{
    asks_for_one_token, decodes, number_one, prefills, samples_one_token, says_true, stands_at,
    stands_in, under, wants_merged,
};
use crate::request::{
    decode_body, is_generate, is_limit, is_set, lemma_members_are_distinct, merges_logprobs,
    min_clamped, needs_merged_logprobs, prefill_body, prefill_request, prepare_decode_body,
    prepare_prefill_body, remote_decode_params, single_token_params,
};
use crate::router::VllmPDRouter;
use crate::text::{occurs, occurs_at};
use serde_json::Value;
use vstd::prelude::*;

verus! {

/// A text stands at a place where its characters do.
pub proof fn lemma_stands_at(text: Seq<char>, part: Seq<char>, at: int)
    ensures
        occurs_at(text, part, at) == stands_at(text, part, at),
{
    if 0 <= at && at + part.len() <= text.len() {
        let found = text.subrange(at, at + part.len());
        if occurs_at(text, part, at) {
            assert forall|i: int| 0 <= i < part.len() implies #[trigger] text[at + i] == part[i] by {
                assert(found[i] == text[at + i]);
            }
        }
        if stands_at(text, part, at) {
            assert forall|i: int| 0 <= i < part.len() implies found[i] == part[i] by {
                assert(text[at + i] == part[i]);
            }
            assert(found =~= part);
        }
    }
}

/// A text stands somewhere where its characters do.
pub proof fn lemma_stands_in(text: Seq<char>, part: Seq<char>)
    ensures
        occurs(text, part) == stands_in(text, part),
{
    if occurs(text, part) {
        let at = choose|at: int| occurs_at(text, part, at);
        lemma_stands_at(text, part, at);
    }
    if stands_in(text, part) {
        let at = choose|at: int| stands_at(text, part, at);
        lemma_stands_at(text, part, at);
    }
}

/// The names that speak of the cache transfer are names of their own.
proof fn lemma_transfer_names()
    ensures
        "do_remote_decode"@ != "do_remote_prefill"@,
        "do_remote_decode"@ != "remote_engine_id"@,
        "do_remote_decode"@ != "remote_block_ids"@,
        "do_remote_decode"@ != "remote_host"@,
        "do_remote_decode"@ != "remote_port"@,
        "do_remote_prefill"@ != "remote_engine_id"@,
        "do_remote_prefill"@ != "remote_block_ids"@,
        "do_remote_prefill"@ != "remote_host"@,
        "do_remote_prefill"@ != "remote_port"@,
        "kv_transfer_params"@ != "stream"@,
        "kv_transfer_params"@ != "stream_options"@,
        "kv_transfer_params"@ != "return_token_ids"@,
        "kv_transfer_params"@ != "sampling_params"@,
        "kv_transfer_params"@ != "max_output_tokens"@,
        "kv_transfer_params"@ != "max_tokens"@,
        "kv_transfer_params"@ != "max_completion_tokens"@,
        "kv_transfer_params"@ != "min_tokens"@,
{
    reveal_strlit("do_remote_decode");
    reveal_strlit("do_remote_prefill");
    reveal_strlit("remote_engine_id");
    reveal_strlit("remote_block_ids");
    reveal_strlit("remote_host");
    reveal_strlit("remote_port");
    reveal_strlit("kv_transfer_params");
    reveal_strlit("stream");
    reveal_strlit("stream_options");
    reveal_strlit("return_token_ids");
    reveal_strlit("sampling_params");
    reveal_strlit("max_output_tokens");
    reveal_strlit("max_tokens");
    reveal_strlit("max_completion_tokens");
    reveal_strlit("min_tokens");
    assert("do_remote_decode"@[0] != "remote_engine_id"@[0]);
    assert("do_remote_decode"@[0] != "remote_block_ids"@[0]);
    assert("do_remote_decode"@.len() == 16);
    assert("do_remote_prefill"@.len() == 17);
    assert("remote_engine_id"@.len() == 16);
    assert("remote_block_ids"@.len() == 16);
    assert("remote_host"@.len() == 11);
    assert("remote_port"@.len() == 11);
    assert("kv_transfer_params"@.len() == 18);
    assert("stream"@.len() == 6);
    assert("stream_options"@.len() == 14);
    assert("return_token_ids"@.len() == 16);
    assert("sampling_params"@.len() == 15);
    assert("max_output_tokens"@.len() == 17);
    assert("max_tokens"@.len() == 10);
    assert("max_completion_tokens"@.len() == 21);
    assert("min_tokens"@.len() == 10);
}

/// The sampling parameters of a prefill request sample one token.
proof fn lemma_sampling_params(request: JsonView)
    ensures
        samples_one_token(
            under(request, "sampling_params"@),
            match request.member("sampling_params"@) {
                Some(params) => min_clamped(params.written("max_tokens"@, number_one())),
                None => single_token_params(),
            },
        ),
{
    lemma_members_are_distinct();
}

/// A prefill request limits the client's to one token.
proof fn lemma_prefill_request(request: JsonView, path: Seq<char>)
    requires
        request.writable(),
    ensures
        asks_for_one_token(request, path, prefill_request(request, path)),
        under(prefill_request(request, path), "kv_transfer_params"@) == under(
            request,
            "kv_transfer_params"@,
        ),
{
    lemma_members_are_distinct();
    lemma_transfer_names();
    lemma_stands_in(path, "inference/v1/generate"@);
    lemma_stands_in(path, "/v1/responses"@);
    lemma_sampling_params(request);
    assert(is_limit("sampling_params"@));
    assert(is_limit("max_output_tokens"@));
    assert(is_limit("max_tokens"@));
    assert(is_limit("max_completion_tokens"@));
    assert(is_limit("min_tokens"@));
    let sent = prefill_request(request, path);
    if is_generate(path) {
        assert(under(sent, "sampling_params"@) == Some(
            match request.member("sampling_params"@) {
                Some(params) => min_clamped(params.written("max_tokens"@, number_one())),
                None => single_token_params(),
            },
        ));
    }
}

/// The body for a prefill worker is what it is to be sent.
pub proof fn lemma_prefill_body(request: JsonView, path: Seq<char>)
    ensures
        prefills(request, path, prefill_body(request, path)),
        request.writable() ==> asks_for_one_token(request, path, prefill_request(request, path)),
        request.writable() ==> under(prefill_request(request, path), "kv_transfer_params"@)
            == under(request, "kv_transfer_params"@),
        !request.writable() ==> prefill_request(request, path) == request,
{
    if request.writable() {
        lemma_prefill_request(request, path);
        lemma_transfer_names();
        let prepared = prefill_request(request, path);
        let sent = prefill_body(request, path);
        assert(forall|key: Seq<char>|
            key != "kv_transfer_params"@ ==> #[trigger] under(sent, key) == under(prepared, key));
        assert(under(sent, "kv_transfer_params"@) == Some(remote_decode_params()));
    }
}

/// The body for a decode worker is what it is to be sent.
pub proof fn lemma_decode_body(request: JsonView, handed: JsonView)
    ensures
        decodes(request, handed, decode_body(request, handed)),
{
    lemma_members_are_distinct();
}

/// What is to be merged is what the client asked to have merged.
pub proof fn lemma_merges(request: JsonView)
    ensures
        merges_logprobs(request) == wants_merged(request),
{
}

/// A prefill request is the client's request, limited to one token in the members that the API of
/// the path reads and in no other, without a stream, and with the token ids of the prompt asked
/// for. A request that has no members stays as it is.
pub proof fn law_prefill_request_asks_for_one_token(request: Value, path: &str, prepared: Value)
    requires
        call_ensures(VllmPDRouter::prepare_prefill_request, (request, path), prepared),
    ensures
        ({
            let asked = json_view(request);
            let sent = json_view(prepared);
            if asked is Object || asked is Null {
                &&& asks_for_one_token(asked, path@, sent)
                &&& under(sent, "kv_transfer_params"@) == under(asked, "kv_transfer_params"@)
            } else {
                sent == asked
            }
        }),
{
    lemma_prefill_body(json_view(request), path@);
}

/// The body for the prefill worker is the client's request, limited to one token in the members
/// that the API of the path reads and in no other, without a stream, and with the decoding left to
/// another worker.
pub proof fn law_prefill_body_prefills(request: &Value, path: &str, body: Value)
    requires
        call_ensures(prepare_prefill_body, (request, path), body),
    ensures
        prefills(json_view(*request), path@, json_view(body)),
{
    lemma_prefill_body(json_view(*request), path@);
}

/// The body for the decode worker is the client's request, with nothing lost, and with those two
/// members that the prefill worker's answer has to hand on.
pub proof fn law_decode_body_decodes(request: &Value, prefill_response: &Value, body: Value)
    requires
        call_ensures(prepare_decode_body, (request, prefill_response), body),
    ensures
        decodes(json_view(*request), json_view(*prefill_response), json_view(body)),
{
    lemma_decode_body(json_view(*request), json_view(*prefill_response));
}

/// Where the client asked for a stream, nothing is merged, whatever else it asked for. Otherwise
/// log probabilities are merged where the request has a member for them, whatever its value, or
/// its echo is true, and only there.
pub proof fn law_streams_are_never_merged(request: &Value, answer: bool)
    requires
        call_ensures(needs_merged_logprobs, (request,), answer),
    ensures
        json_view(*request) matches JsonView::Object(members) ==> {
            let streams = members.contains_key("stream"@) && members["stream"@] == JsonView::Bool(
                true,
            );
            let echoes = members.contains_key("echo"@) && members["echo"@] == JsonView::Bool(true);
            &&& streams ==> !answer
            &&& !streams ==> (answer <==> members.contains_key("logprobs"@) || echoes)
        },
        !(json_view(*request) is Object) ==> !answer,
{
    lemma_merges(json_view(*request));
    assert(says_true(json_view(*request), "stream"@) == is_set(json_view(*request), "stream"@));
}

} // verus!
