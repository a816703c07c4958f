//! The two requests that one client request becomes: the prefill request, which computes the
//! prompt and one token, and the decode request, which carries on from there.
use crate::json::{
    get_member, get_member_mut, json_bool, json_null, json_u64, json_view, remove_entry,
    write_member, JsonView,
};
use crate::router::VllmPDRouter;
use crate::text::{contains, occurs};
use serde_json::Value;
use vstd::prelude::*;

verus! {

/// A path of the Generate API.
pub open spec fn is_generate(path: Seq<char>) -> bool {
    occurs(path, "inference/v1/generate"@)
}

/// A path of the Responses API.
pub open spec fn is_responses(path: Seq<char>) -> bool {
    !is_generate(path) && occurs(path, "/v1/responses"@)
}

/// The number one, the limit on the tokens that a prefill produces.
pub open spec fn one() -> JsonView {
    JsonView::unsigned(1)
}

/// `params` with a minimum of tokens above one brought down to one.
pub open spec fn min_clamped(params: JsonView) -> JsonView {
    match params.member("min_tokens"@) {
        Some(min) => match min.as_u64() {
            Some(n) => if n > 1 {
                params.with("min_tokens"@, one())
            } else {
                params
            },
            None => params,
        },
        None => params,
    }
}

/// Whether a minimum of tokens, if there is one and it is a number, is at most one.
pub open spec fn at_most_one(min: Option<JsonView>) -> bool {
    match min {
        Some(value) => match value.as_u64() {
            Some(n) => n <= 1,
            None => true,
        },
        None => true,
    }
}

/// The sampling parameters of a request that has none: exactly one token.
pub open spec fn single_token_params() -> JsonView {
    JsonView::Object(map!["max_tokens"@ => one(), "min_tokens"@ => one()])
}

/// `request` with its output limited to one token, in the members that its API reads, as far as
/// those can be written.
pub open spec fn limited(request: JsonView, path: Seq<char>) -> JsonView {
    if is_generate(path) {
        request.written(
            "sampling_params"@,
            match request.member("sampling_params"@) {
                Some(params) => min_clamped(params.written("max_tokens"@, one())),
                None => single_token_params(),
            },
        )
    } else if is_responses(path) {
        request.written("max_output_tokens"@, one())
    } else {
        let capped = request.written("max_tokens"@, one());
        min_clamped(
            if request.member("max_completion_tokens"@) is Some {
                capped.written("max_completion_tokens"@, one())
            } else {
                capped
            },
        )
    }
}

/// The prefill request made from `request`: one token, no streaming, and the token ids of the
/// prompt asked for. A request into which no member can be written stays as it is.
pub open spec fn prefill_request(request: JsonView, path: Seq<char>) -> JsonView {
    limited(request, path).written("stream"@, JsonView::Bool(false)).without(
        "stream_options"@,
    ).written("return_token_ids"@, JsonView::Bool(true))
}

/// The members in which an API reads how many tokens to produce.
pub open spec fn is_limit(key: Seq<char>) -> bool {
    ||| key == "sampling_params"@
    ||| key == "max_output_tokens"@
    ||| key == "max_tokens"@
    ||| key == "max_completion_tokens"@
    ||| key == "min_tokens"@
}

/// What a prefill request says of the transfer of its cache: a remote worker decodes.
pub open spec fn remote_decode_params() -> JsonView {
    JsonView::Object(
        map![
            "do_remote_decode"@ => JsonView::Bool(true),
            "do_remote_prefill"@ => JsonView::Bool(false),
            "remote_engine_id"@ => JsonView::Null,
            "remote_block_ids"@ => JsonView::Null,
            "remote_host"@ => JsonView::Null,
            "remote_port"@ => JsonView::Null,
        ],
    )
}

/// The body that is sent to the prefill worker.
pub open spec fn prefill_body(request: JsonView, path: Seq<char>) -> JsonView {
    prefill_request(request, path).written("kv_transfer_params"@, remote_decode_params())
}

/// `request` with the member `key` of `source` in place of its own, where `source` has one and
/// `request` can take it.
pub open spec fn carried_over(request: JsonView, source: JsonView, key: Seq<char>) -> JsonView {
    match source.member(key) {
        Some(value) => request.written(key, value),
        None => request,
    }
}

/// The body that is sent to the decode worker: the client's request, with what the prefill
/// worker said of its cache and of the prompt.
pub open spec fn decode_body(request: JsonView, prefill_response: JsonView) -> JsonView {
    carried_over(
        carried_over(request, prefill_response, "kv_transfer_params"@),
        prefill_response,
        "prompt_token_ids"@,
    )
}

/// Whether the member `key` is there and true.
pub open spec fn is_set(request: JsonView, key: Seq<char>) -> bool {
    match request.member(key) {
        Some(value) => value.as_bool() == Some(true),
        None => false,
    }
}

/// Whether the reply to `request` needs the log probabilities of both workers in one body: they
/// were asked for, and the reply is not a stream.
pub open spec fn merges_logprobs(request: JsonView) -> bool {
    (request.member("logprobs"@) is Some || is_set(request, "echo"@)) && !is_set(
        request,
        "stream"@,
    )
}

/// The members that the two requests speak of have names of their own.
pub proof fn lemma_members_are_distinct()
    ensures
        "max_tokens"@ != "min_tokens"@,
        "max_tokens"@ != "max_completion_tokens"@,
        "min_tokens"@ != "max_completion_tokens"@,
        "min_tokens"@ != "max_output_tokens"@,
        "stream"@ != "stream_options"@,
        "stream"@ != "return_token_ids"@,
        "stream_options"@ != "return_token_ids"@,
        "kv_transfer_params"@ != "prompt_token_ids"@,
        "sampling_params"@ != "max_output_tokens"@,
        "sampling_params"@ != "max_tokens"@,
        "sampling_params"@ != "max_completion_tokens"@,
        "sampling_params"@ != "min_tokens"@,
        forall|limit: Seq<char>|
            #![trigger is_limit(limit)]
            is_limit(limit) ==> limit != "stream"@ && limit != "stream_options"@ && limit
                != "return_token_ids"@,
{
    reveal_strlit("sampling_params");
    reveal_strlit("max_output_tokens");
    reveal_strlit("max_tokens");
    reveal_strlit("max_completion_tokens");
    reveal_strlit("min_tokens");
    reveal_strlit("stream");
    reveal_strlit("stream_options");
    reveal_strlit("return_token_ids");
    reveal_strlit("kv_transfer_params");
    reveal_strlit("prompt_token_ids");
    assert("sampling_params"@.len() == 15);
    assert("max_output_tokens"@.len() == 17);
    assert("max_tokens"@.len() == 10);
    assert("max_completion_tokens"@.len() == 21);
    assert("min_tokens"@.len() == 10);
    assert("stream"@.len() == 6);
    assert("stream_options"@.len() == 14);
    assert("return_token_ids"@.len() == 16);
    assert("kv_transfer_params"@.len() == 18);
    assert("prompt_token_ids"@.len() == 16);
    assert("max_tokens"@[1] != "min_tokens"@[1]);
}

/// Brings a minimum of tokens above one down to one.
fn clamp_min_tokens(params: &mut Value)
    ensures
        json_view(*final(params)) == min_clamped(json_view(*old(params))),
{
    let min_tokens: Option<u64> = match get_member(params, "min_tokens") {
        Some(value) => value.as_u64(),
        None => None,
    };
    if let Some(min_tokens) = min_tokens {
        if min_tokens > 1 {
            write_member(params, "min_tokens", json_u64(1));
        }
    }
}

impl VllmPDRouter {
    /// Turns a client request into a prefill request: the output is limited to one token, in
    /// the members that the API of `path` reads, the reply is not a stream, and the token ids
    /// of the prompt are asked for.
    ///
    /// - Generate API: `sampling_params.max_tokens` and `sampling_params.min_tokens`.
    /// - Responses API: `max_output_tokens`.
    /// - Chat and completions: `max_tokens`, `max_completion_tokens` and `min_tokens`.
    ///
    /// Any request is taken. Members are written where they can be: one that is neither an object
    /// nor null stays as it is, and so do sampling parameters that are neither.
    pub fn prepare_prefill_request(request: Value, path: &str) -> (prepared: Value)
        ensures
            json_view(prepared) == prefill_request(json_view(request), path@),
    {
        let mut request = request;
        proof {
            lemma_members_are_distinct();
        }
        if contains(path, "inference/v1/generate") {
            if let Some(sampling_params) = get_member_mut(&mut request, "sampling_params") {
                write_member(sampling_params, "max_tokens", json_u64(1));
                clamp_min_tokens(sampling_params);
            } else {
                let mut sampling_params = json_null();
                write_member(&mut sampling_params, "max_tokens", json_u64(1));
                write_member(&mut sampling_params, "min_tokens", json_u64(1));
                write_member(&mut request, "sampling_params", sampling_params);
            }
        } else if contains(path, "/v1/responses") {
            write_member(&mut request, "max_output_tokens", json_u64(1));
        } else {
            write_member(&mut request, "max_tokens", json_u64(1));
            if get_member(&request, "max_completion_tokens").is_some() {
                write_member(&mut request, "max_completion_tokens", json_u64(1));
            }
            clamp_min_tokens(&mut request);
        }
        write_member(&mut request, "stream", json_bool(false));
        if let Some(members) = request.as_object_mut() {
            remove_entry(members, "stream_options");
        }
        write_member(&mut request, "return_token_ids", json_bool(true));
        request
    }
}

/// The body that is sent to the prefill worker: the prefill request, and that a remote worker
/// decodes.
pub fn prepare_prefill_body(request: &Value, path: &str) -> (body: Value)
    ensures
        json_view(body) == prefill_body(json_view(*request), path@),
{
    let mut body = VllmPDRouter::prepare_prefill_request(request.clone(), path);
    let mut params = json_null();
    write_member(&mut params, "do_remote_decode", json_bool(true));
    write_member(&mut params, "do_remote_prefill", json_bool(false));
    write_member(&mut params, "remote_engine_id", json_null());
    write_member(&mut params, "remote_block_ids", json_null());
    write_member(&mut params, "remote_host", json_null());
    write_member(&mut params, "remote_port", json_null());
    write_member(&mut body, "kv_transfer_params", params);
    body
}

/// Writes the member `key` of `source`, where it has one, into `request`, if that can take it.
fn carry_over(request: &mut Value, source: &Value, key: &str)
    ensures
        json_view(*final(request)) == carried_over(json_view(*old(request)), json_view(*source), key@),
{
    if let Some(value) = get_member(source, key) {
        write_member(request, key, value.clone());
    }
}

/// The body that is sent to the decode worker: the client's request, with what the prefill
/// worker said of its cache and of the prompt, so that neither is computed again.
pub fn prepare_decode_body(request: &Value, prefill_response: &Value) -> (body: Value)
    ensures
        json_view(body) == decode_body(json_view(*request), json_view(*prefill_response)),
{
    let mut body = request.clone();
    carry_over(&mut body, prefill_response, "kv_transfer_params");
    carry_over(&mut body, prefill_response, "prompt_token_ids");
    body
}

/// Whether the member `key` is there and true.
fn flag(request: &Value, key: &str) -> (set: bool)
    ensures
        set == is_set(json_view(*request), key@),
{
    match get_member(request, key) {
        Some(value) => match value.as_bool() {
            Some(truth) => truth,
            None => false,
        },
        None => false,
    }
}

/// Whether the reply to `request` needs the log probabilities of both workers in one body.
pub fn needs_merged_logprobs(request: &Value) -> (answer: bool)
    ensures
        answer == merges_logprobs(json_view(*request)),
{
    let needs_logprobs = get_member(request, "logprobs").is_some() || flag(request, "echo");
    let is_streaming = flag(request, "stream");
    needs_logprobs && !is_streaming
}

/// A prefill request is never answered by a stream, has no options for one, and asks for the
/// token ids of the prompt, whatever the client's document, its sampling parameters and its API.
pub proof fn law_prefill_does_not_stream(request: JsonView, path: Seq<char>)
    requires
        request.writable(),
    ensures
        prefill_request(request, path).member("stream"@) == Some(JsonView::Bool(false)),
        prefill_request(request, path).member("stream_options"@) is None,
        prefill_request(request, path).member("return_token_ids"@) == Some(JsonView::Bool(true)),
{
    lemma_members_are_distinct();
}

/// A prefill request of the Generate API asks for at most one token in its sampling
/// parameters, and for no minimum above that. The other sampling parameters are the client's, and
/// so is a minimum of at most one token.
pub proof fn law_generate_prefill_is_one_token(request: JsonView, path: Seq<char>, key: Seq<char>)
    requires
        request.writable(),
        is_generate(path),
        match request.member("sampling_params"@) {
            Some(params) => params.writable(),
            None => true,
        },
    ensures
        ({
            let after = prefill_request(request, path).member("sampling_params"@);
            let before = request.member("sampling_params"@);
            &&& after is Some
            &&& after->0.member("max_tokens"@) == Some(one())
            &&& at_most_one(after->0.member("min_tokens"@))
            &&& key != "max_tokens"@ && key != "min_tokens"@ ==> after->0.member(key)
                == match before {
                Some(params) => params.member(key),
                None => None,
            }
            &&& before matches Some(params) ==> at_most_one(params.member("min_tokens"@)) ==> (
            after->0.member("min_tokens"@) == params.member("min_tokens"@))
        }),
{
    lemma_members_are_distinct();
    assert(is_limit("sampling_params"@));
}

/// A prefill request of the Responses API asks for at most one token by `max_output_tokens`
/// alone: the limits of the other APIs are as the client left them.
pub proof fn law_responses_prefill_is_one_token(request: JsonView, path: Seq<char>, key: Seq<char>)
    requires
        request.writable(),
        is_responses(path),
    ensures
        prefill_request(request, path).member("max_output_tokens"@) == Some(one()),
        is_limit(key) && key != "max_output_tokens"@ ==> prefill_request(request, path).member(key)
            == request.member(key),
{
    lemma_members_are_distinct();
    assert(is_limit("max_output_tokens"@));
}

/// A prefill request of the chat and completions APIs asks for at most one token by
/// `max_tokens`, by `max_completion_tokens` where the client gave it and only there, and for no
/// minimum above that.
pub proof fn law_chat_prefill_is_one_token(request: JsonView, path: Seq<char>)
    requires
        request.writable(),
        !is_generate(path),
        !is_responses(path),
    ensures
        prefill_request(request, path).member("max_tokens"@) == Some(one()),
        prefill_request(request, path).member("max_completion_tokens"@) == match request.member(
            "max_completion_tokens"@,
        ) {
            Some(_) => Some(one()),
            None => None,
        },
        at_most_one(prefill_request(request, path).member("min_tokens"@)),
        prefill_request(request, path).member("min_tokens"@) is Some <==> request.member(
            "min_tokens"@,
        ) is Some,
{
    lemma_members_are_distinct();
    assert(is_limit("max_tokens"@));
    assert(is_limit("max_completion_tokens"@));
    assert(is_limit("min_tokens"@));
}

/// A minimum of at most one token, and one that is no such number, stays as the client gave it.
pub proof fn law_small_minimum_is_kept(request: JsonView, path: Seq<char>)
    requires
        !is_generate(path),
        at_most_one(request.member("min_tokens"@)),
    ensures
        prefill_request(request, path).member("min_tokens"@) == request.member("min_tokens"@),
{
    lemma_members_are_distinct();
    assert(is_limit("min_tokens"@));
    if is_responses(path) && request.writable() {
        law_responses_prefill_is_one_token(request, path, "min_tokens"@);
    }
}

/// Every member but the limits and those that speak of streaming and token ids reaches the
/// prefill worker as the client gave it; and of the limits, the Generate API has only its
/// sampling parameters touched.
pub proof fn law_prefill_keeps_the_rest(request: JsonView, path: Seq<char>, key: Seq<char>)
    requires
        key != "stream"@,
        key != "stream_options"@,
        key != "return_token_ids"@,
        !is_limit(key) || (is_generate(path) && key != "sampling_params"@),
    ensures
        prefill_request(request, path).member(key) == request.member(key),
{
}

/// Making a prefill request of a prefill request changes nothing more.
pub proof fn law_prefill_is_idempotent(request: JsonView, path: Seq<char>)
    ensures
        prefill_request(prefill_request(request, path), path) == prefill_request(request, path),
{
    lemma_members_are_distinct();
    let once = prefill_request(request, path);
    assert(is_limit("sampling_params"@));
    assert(is_limit("max_output_tokens"@));
    assert(is_limit("max_tokens"@));
    assert(is_limit("max_completion_tokens"@));
    assert(is_limit("min_tokens"@));
    if !request.writable() {
        assert(once == request);
    } else if is_generate(path) {
        let params = once.member("sampling_params"@)->0;
        assert(min_clamped(params.written("max_tokens"@, one())).members() =~= params.members());
        assert(limited(once, path).members() =~= once.members());
    } else {
        assert(limited(once, path).members() =~= once.members());
    }
    assert(prefill_request(once, path).members() =~= once.members());
}

/// The prefill worker gets the prefill request, member for member, but for the parameters of the
/// cache transfer: whatever the client said of those, a remote worker decodes.
pub proof fn law_prefill_body_is_the_prefill_request(
    request: JsonView,
    path: Seq<char>,
    key: Seq<char>,
)
    requires
        request.writable(),
    ensures
        prefill_body(request, path).member(key) == if key == "kv_transfer_params"@ {
            Some(remote_decode_params())
        } else {
            prefill_request(request, path).member(key)
        },
{
}

/// The decode worker gets the client's request, member for member, but for the two that the
/// prefill worker's response can put in place of the client's: the parameters of the cache
/// transfer and the token ids of the prompt.
pub proof fn law_decode_request_is_the_clients(
    request: JsonView,
    prefill_response: JsonView,
    key: Seq<char>,
)
    requires
        request.writable(),
    ensures
        decode_body(request, prefill_response).member(key) == if (key == "kv_transfer_params"@
            || key == "prompt_token_ids"@) && prefill_response.member(key) is Some {
            prefill_response.member(key)
        } else {
            request.member(key)
        },
        prefill_response.member("kv_transfer_params"@) is None && prefill_response.member(
            "prompt_token_ids"@,
        ) is None ==> decode_body(request, prefill_response) == request,
{
    lemma_members_are_distinct();
}

/// A body into which no member can be written, such as an array, goes to both workers unchanged:
/// nothing can be limited in it, and nothing carried over.
pub proof fn law_other_bodies_go_on_unchanged(
    request: JsonView,
    path: Seq<char>,
    prefill_response: JsonView,
)
    requires
        !request.writable(),
    ensures
        prefill_request(request, path) == request,
        prefill_body(request, path) == request,
        decode_body(request, prefill_response) == request,
        !merges_logprobs(request),
{
}

/// Sampling parameters into which no member can be written reach the prefill worker as the client
/// gave them.
pub proof fn law_other_sampling_params_are_kept(request: JsonView, path: Seq<char>)
    requires
        match request.member("sampling_params"@) {
            Some(params) => !params.writable(),
            None => false,
        },
    ensures
        prefill_request(request, path).member("sampling_params"@) == request.member(
            "sampling_params"@,
        ),
{
    lemma_members_are_distinct();
    assert(is_limit("sampling_params"@));
}

} // verus!
