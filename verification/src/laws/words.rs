//! The words that the laws are put in.
use crate::exchange::{CallView, Effect, Metric, Stage};
use crate::json::{JsonNumber, JsonView};
use vstd::prelude::*;

verus! {

/// What a document has under a name, if it is an object that has the name.
pub open spec fn under(document: JsonView, key: Seq<char>) -> Option<JsonView> {
    match document {
        JsonView::Object(members) => if members.contains_key(key) {
            Some(members[key])
        } else {
            None
        },
        _ => None,
    }
}

/// The number one.
pub open spec fn number_one() -> JsonView {
    JsonView::Number(JsonNumber::Unsigned(1))
}

/// Whether a text stands somewhere in another, character by character.
pub open spec fn stands_in(text: Seq<char>, part: Seq<char>) -> bool {
    exists|at: int| #[trigger] stands_at(text, part, at)
}

/// Whether a text stands in another at a place, character by character.
pub open spec fn stands_at(text: Seq<char>, part: Seq<char>, at: int) -> bool {
    &&& 0 <= at
    &&& at + part.len() <= text.len()
    &&& forall|i: int| 0 <= i < part.len() ==> #[trigger] text[at + i] == part[i]
}

/// Whether a document says `true` under a name.
pub open spec fn says_true(document: JsonView, key: Seq<char>) -> bool {
    under(document, key) == Some(JsonView::Bool(true))
}

/// Whether one minimum of tokens is what another has to become where one token is the most: a
/// number above one becomes one, and anything else stays.
pub open spec fn is_cut_to_one(before: Option<JsonView>, after: Option<JsonView>) -> bool {
    if before matches Some(JsonView::Number(JsonNumber::Unsigned(n))) && n > 1 {
        after == Some(number_one())
    } else {
        after == before
    }
}

/// Whether `sent` is what the sampling parameters `asked` for become where one token is the most.
pub open spec fn samples_one_token(asked: Option<JsonView>, sent: JsonView) -> bool {
    match asked {
        None => {
            &&& sent is Object
            &&& forall|key: Seq<char>| #[trigger]
                under(sent, key) == if key == "max_tokens"@ || key == "min_tokens"@ {
                    Some(number_one())
                } else {
                    None
                }
        },
        Some(params) => if params is Object || params is Null {
            &&& sent is Object
            &&& under(sent, "max_tokens"@) == Some(number_one())
            &&& is_cut_to_one(under(params, "min_tokens"@), under(sent, "min_tokens"@))
            &&& forall|key: Seq<char>|
                key != "max_tokens"@ && key != "min_tokens"@ ==> #[trigger] under(sent, key)
                    == under(params, key)
        } else {
            sent == params
        },
    }
}

/// Whether `sent` limits `asked` to one token in what the API of a path reads, does not ask for a
/// stream, asks for token ids, and is `asked` otherwise; but for the parameters of the cache
/// transfer.
pub open spec fn asks_for_one_token(asked: JsonView, path: Seq<char>, sent: JsonView) -> bool {
    let generate = stands_in(path, "inference/v1/generate"@);
    let responses = !generate && stands_in(path, "/v1/responses"@);
    let chat = !generate && !responses;
    &&& sent is Object
    &&& under(sent, "stream"@) == Some(JsonView::Bool(false))
    &&& under(sent, "stream_options"@) is None
    &&& under(sent, "return_token_ids"@) == Some(JsonView::Bool(true))
    &&& generate ==> under(sent, "sampling_params"@) is Some && samples_one_token(
        under(asked, "sampling_params"@),
        under(sent, "sampling_params"@)->0,
    )
    &&& responses ==> under(sent, "max_output_tokens"@) == Some(number_one())
    &&& chat ==> under(sent, "max_tokens"@) == Some(number_one())
    &&& chat ==> under(sent, "max_completion_tokens"@) == match under(
        asked,
        "max_completion_tokens"@,
    ) {
        Some(_) => Some(number_one()),
        None => None,
    }
    &&& chat ==> is_cut_to_one(under(asked, "min_tokens"@), under(sent, "min_tokens"@))
    &&& forall|key: Seq<char>|
        {
            &&& key != "stream"@ && key != "stream_options"@ && key != "return_token_ids"@
            &&& key != "kv_transfer_params"@
            &&& generate ==> key != "sampling_params"@
            &&& responses ==> key != "max_output_tokens"@
            &&& chat ==> key != "max_tokens"@ && key != "max_completion_tokens"@ && key
                != "min_tokens"@
        } ==> #[trigger] under(sent, key) == under(asked, key)
}

/// Whether a document says that a remote worker decodes, and nothing else of the cache transfer.
pub open spec fn leaves_decoding_to_another(params: JsonView) -> bool {
    &&& params is Object
    &&& forall|key: Seq<char>| #[trigger]
        under(params, key) == if key == "do_remote_decode"@ {
            Some(JsonView::Bool(true))
        } else if key == "do_remote_prefill"@ {
            Some(JsonView::Bool(false))
        } else if key == "remote_engine_id"@ || key == "remote_block_ids"@ || key == "remote_host"@
            || key == "remote_port"@ {
            Some(JsonView::Null)
        } else {
            None
        }
}

/// Whether `sent` is what a prefill worker is to be sent for what a client asked for on a path.
pub open spec fn prefills(asked: JsonView, path: Seq<char>, sent: JsonView) -> bool {
    if asked is Object || asked is Null {
        &&& asks_for_one_token(asked, path, sent)
        &&& under(sent, "kv_transfer_params"@) is Some
        &&& leaves_decoding_to_another(under(sent, "kv_transfer_params"@)->0)
    } else {
        sent == asked
    }
}

/// Whether `sent` is what a decode worker is to be sent for what a client asked for, where the
/// prefill worker answered `handed`.
pub open spec fn decodes(asked: JsonView, handed: JsonView, sent: JsonView) -> bool {
    let cache = under(handed, "kv_transfer_params"@);
    let prompt = under(handed, "prompt_token_ids"@);
    if (asked is Object || asked is Null) && (cache is Some || prompt is Some) {
        &&& sent is Object
        &&& cache is Some ==> under(sent, "kv_transfer_params"@) == cache
        &&& prompt is Some ==> under(sent, "prompt_token_ids"@) == prompt
        &&& forall|key: Seq<char>|
            (cache is Some ==> key != "kv_transfer_params"@) && (prompt is Some ==> key
                != "prompt_token_ids"@) ==> #[trigger] under(sent, key) == under(asked, key)
    } else {
        sent == asked
    }
}

/// Whether the log probabilities of both workers go into one reply: the client asked for some, and
/// not for a stream.
pub open spec fn wants_merged(asked: JsonView) -> bool {
    &&& under(asked, "logprobs"@) is Some || says_true(asked, "echo"@)
    &&& !says_true(asked, "stream"@)
}

/// Whether header lines say that a body is JSON, give the bearer's key where there is one, give the
/// id of the request, and say nothing else.
pub open spec fn introduces(
    headers: Seq<(Seq<char>, Seq<char>)>,
    api_key: Option<Seq<char>>,
    request_id: Seq<char>,
) -> bool {
    match api_key {
        Some(key) => {
            &&& headers.len() == 3
            &&& headers[0] == ("Content-Type"@, "application/json"@)
            &&& headers[1] == ("Authorization"@, "Bearer "@ + key)
            &&& headers[2] == ("X-Request-Id"@, request_id)
        },
        None => {
            &&& headers.len() == 2
            &&& headers[0] == ("Content-Type"@, "application/json"@)
            &&& headers[1] == ("X-Request-Id"@, request_id)
        },
    }
}

/// Whether a call of a stage goes to a worker, by its URL and its rank, with the lines that
/// introduce the request.
pub open spec fn goes_to(
    call: CallView,
    stage: Stage,
    url: Seq<char>,
    dp_rank: Option<usize>,
    api_key: Option<Seq<char>>,
    request_id: Seq<char>,
) -> bool {
    &&& call.stage == stage
    &&& call.url == url
    &&& call.dp_rank == dp_rank
    &&& introduces(call.headers, api_key, request_id)
}

/// A measurement as an effect.
pub open spec fn records(metric: Metric<Seq<char>>) -> Effect<Seq<char>> {
    Effect::Record(metric)
}

/// Header lines without those that speak of how a body was sent.
pub open spec fn unframed(headers: Seq<(Seq<char>, Seq<u8>)>) -> Seq<(Seq<char>, Seq<u8>)> {
    headers.filter(
        |line: (Seq<char>, Seq<u8>)| line.0 != "transfer-encoding"@ && line.0 != "content-length"@,
    )
}

} // verus!
