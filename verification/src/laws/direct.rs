//! Laws on exchanges with workers of known URLs.
use crate::direct::{DirectExchange, DirectPhaseView, DirectTarget, DirectView};
use crate::exchange::{
    CallBodyView, Effect, Event, EventView, ExchangeError, Metric, NextView, ReplyBodyView,
    ReplyView, Stage, Step, StepView,
};
use crate::headers::is_forwarded;
use crate::json::{json_bytes, json_view, parsed_bytes, JsonView};
use crate::laws::addresses::{is_request_id, is_zmq_address, lemma_request_id, lemma_zmq_address};
use crate::laws::requests::{lemma_decode_body, lemma_merges, lemma_prefill_body};
use crate::laws::words::{decodes, goes_to, prefills, records, unframed, wants_merged};
use crate::router::VllmPDRouter;
use crate::routing::Selected;
use serde_json::Value;
use vstd::prelude::*;

verus! {

/// Whether an exchange has come to an end by a failure, after some effects.
pub open spec fn fails(
    before: DirectView,
    after: (DirectExchange, Step),
    effects: Seq<Effect<Seq<char>>>,
    message: Seq<char>,
) -> bool {
    &&& after.0@ == (DirectView { phase: DirectPhaseView::Failed, ..before })
    &&& after.1@ == (StepView {
        effects,
        next: NextView::Fail(ExchangeError::NetworkError { message }),
    })
}

/// Whether an exchange has come to an end by a failure of the prefill stage: the prefill worker is
/// rid of the request, and the failure is recorded as the prefill worker's.
pub open spec fn fails_at_prefill(
    before: DirectView,
    after: (DirectExchange, Step),
    message: Seq<char>,
) -> bool {
    fails(
        before,
        after,
        seq![
            Effect::DecrementLoad(Stage::Prefill),
            records(Metric::PrefillError(before.prefill.base_url)),
            records(Metric::Request(before.path)),
            records(Metric::RequestDuration(before.path)),
        ],
        message,
    )
}

/// Header lines are forwarded where they do not speak of how a body was sent.
pub proof fn lemma_unframed(headers: Seq<(Seq<char>, Seq<u8>)>)
    ensures
        headers.filter(|line: (Seq<char>, Seq<u8>)| is_forwarded(line)) == unframed(headers),
{
    assert((|line: (Seq<char>, Seq<u8>)| is_forwarded(line)) =~= (|line: (Seq<char>, Seq<u8>)|
        line.0 != "transfer-encoding"@ && line.0 != "content-length"@));
}

/// An exchange begins with a call to the prefill worker, for the request and the path that it was
/// begun with: one token is asked for in what the API of that path reads. The prefill worker takes
/// the request on and is profiled, and the exchange keeps what it was begun with.
pub proof fn law_exchange_begins_at_the_prefill_worker(
    request: Value,
    path: String,
    prefill: DirectTarget,
    decode: DirectTarget,
    api_key: String,
    request_id: String,
    begun: (DirectExchange, Step),
)
    requires
        call_ensures(
            DirectExchange::begin_with_id,
            (request, path, prefill, decode, api_key, request_id),
            begun,
        ),
    ensures
        begun.1@.effects == seq![
            Effect::IncrementLoad(Stage::Prefill),
            Effect::StartProfiling(prefill.base_url@),
        ],
        begun.1@.next matches NextView::Send(call) && goes_to(
            call,
            Stage::Prefill,
            prefill.endpoint_url@,
            prefill.dp_rank,
            Some(api_key@),
            request_id@,
        ) && (call.body matches CallBodyView::Json(sent) && prefills(
            json_view(request),
            path@,
            sent,
        )),
        begun.0@ == (DirectView {
            path: path@,
            request: json_view(request),
            request_id: request_id@,
            api_key: api_key@,
            prefill: prefill@,
            decode: decode@,
            phase: DirectPhaseView::AwaitPrefill,
        }),
{
    lemma_prefill_body(json_view(request), path@);
}

/// Whatever the status of the prefill worker's answer, its body is read; where there is no answer,
/// the exchange fails.
pub proof fn law_prefill_answer_is_read(
    exchange: DirectExchange,
    event: Event,
    after: (DirectExchange, Step),
)
    requires
        call_ensures(DirectExchange::step, (exchange, event), after),
        exchange@.phase is AwaitPrefill,
    ensures
        event@ matches EventView::Response(Ok(_)) ==> {
            &&& after.0@ == (DirectView { phase: DirectPhaseView::AwaitPrefillBody, ..exchange@ })
            &&& after.1@ == (StepView { effects: seq![], next: NextView::ReadBody })
        },
        event@ matches EventView::Response(Err(error)) ==> fails_at_prefill(
            exchange@,
            after,
            "Prefill request failed to "@ + exchange@.prefill.endpoint_url + ": "@ + error,
        ),
{
    assert(exchange@.prefill_fails("x"@).1.effects =~= seq![
        Effect::DecrementLoad(Stage::Prefill),
        records(Metric::PrefillError(exchange@.prefill.base_url)),
        records(Metric::Request(exchange@.path)),
        records(Metric::RequestDuration(exchange@.path)),
    ]);
}

/// Where the prefill worker's body is JSON, the decode worker is called with the client's request
/// and what that body hands on; the request passes from the one worker to the other, in load and
/// in profiling. Where it could not be read or is no JSON, the exchange fails.
pub proof fn law_decode_worker_carries_on(
    exchange: DirectExchange,
    event: Event,
    after: (DirectExchange, Step),
)
    requires
        call_ensures(DirectExchange::step, (exchange, event), after),
        exchange@.phase is AwaitPrefillBody,
    ensures
        event@ matches EventView::Body(Ok(bytes)) ==> match parsed_bytes(bytes) {
            Ok(handed) => {
                &&& after.0@ == (DirectView {
                    phase: DirectPhaseView::AwaitDecode { prefill_response: handed },
                    ..exchange@
                })
                &&& after.1@.effects == seq![
                    Effect::StopProfiling(exchange@.prefill.base_url),
                    Effect::DecrementLoad(Stage::Prefill),
                    Effect::IncrementLoad(Stage::Decode),
                    Effect::StartProfiling(exchange@.decode.base_url),
                ]
                &&& after.1@.next matches NextView::Send(call) && goes_to(
                    call,
                    Stage::Decode,
                    exchange@.decode.endpoint_url,
                    exchange@.decode.dp_rank,
                    Some(exchange@.api_key),
                    exchange@.request_id,
                ) && (call.body matches CallBodyView::Json(sent) && decodes(
                    exchange@.request,
                    handed,
                    sent,
                ))
            },
            Err(error) => fails_at_prefill(
                exchange@,
                after,
                "Failed to parse prefill response as JSON: "@ + error,
            ),
        },
        event@ matches EventView::Body(Err(error)) ==> fails_at_prefill(
            exchange@,
            after,
            "Failed to read prefill response from "@ + exchange@.prefill.endpoint_url + ": "@
                + error,
        ),
{
    assert(exchange@.prefill_fails("x"@).1.effects =~= seq![
        Effect::DecrementLoad(Stage::Prefill),
        records(Metric::PrefillError(exchange@.prefill.base_url)),
        records(Metric::Request(exchange@.path)),
        records(Metric::RequestDuration(exchange@.path)),
    ]);
    if let EventView::Body(Ok(bytes)) = event@ {
        if let Ok(handed) = parsed_bytes(bytes) {
            lemma_decode_body(exchange@.request, handed);
        }
    }
}

/// Where the decode worker answers, it is rid of the request, and both workers' parts are recorded,
/// with an error where the status is below 200 or from 300 on. The answer goes to the client as it
/// comes, with its status and its header lines but for those that speak of how it was sent, unless
/// log probabilities are to be merged: then its body is read. Where there is no answer, the
/// exchange fails.
pub proof fn law_decode_answer_goes_on(
    exchange: DirectExchange,
    event: Event,
    after: (DirectExchange, Step),
)
    requires
        call_ensures(DirectExchange::step, (exchange, event), after),
        exchange@.phase is AwaitDecode,
    ensures
        ({
            let x = exchange@;
            &&& event@ matches EventView::Response(Ok(head)) ==> {
                &&& after.1@.effects == seq![
                    Effect::StopProfiling(x.decode.base_url),
                    Effect::DecrementLoad(Stage::Decode),
                    records(Metric::Request(x.path)),
                    records(Metric::RequestDuration(x.path)),
                    records(Metric::PrefillRequest(x.prefill.base_url)),
                    records(Metric::DecodeRequest(x.decode.base_url)),
                ] + if head.status < 200 || head.status >= 300 {
                    seq![records(Metric::DecodeError(x.decode.base_url))]
                } else {
                    seq![]
                }
                &&& if wants_merged(x.request) {
                    &&& after.1@.next is ReadBody
                    &&& after.0@ == (DirectView {
                        phase: DirectPhaseView::AwaitDecodeBody {
                            prefill_response: x.phase->AwaitDecode_prefill_response,
                            head,
                        },
                        ..x
                    })
                } else {
                    &&& after.1@.next == NextView::Respond(
                        ReplyView {
                            status: head.status,
                            headers: unframed(head.headers),
                            body: ReplyBodyView::Stream,
                        },
                    )
                    &&& after.0@ == (DirectView { phase: DirectPhaseView::Responding, ..x })
                }
            }
            &&& event@ matches EventView::Response(Err(error)) ==> fails(
                x,
                after,
                seq![
                    Effect::DecrementLoad(Stage::Decode),
                    records(Metric::DecodeError(x.decode.base_url)),
                    records(Metric::Request(x.path)),
                    records(Metric::RequestDuration(x.path)),
                    records(Metric::PrefillRequest(x.prefill.base_url)),
                ],
                "Decode request failed to "@ + x.decode.endpoint_url + ": "@ + error,
            )
        }),
{
    let x = exchange@;
    lemma_merges(x.request);
    assert(x.decode_fails("x"@).1.effects =~= seq![
        Effect::DecrementLoad(Stage::Decode),
        records(Metric::DecodeError(x.decode.base_url)),
        records(Metric::Request(x.path)),
        records(Metric::RequestDuration(x.path)),
        records(Metric::PrefillRequest(x.prefill.base_url)),
    ]);
    if let EventView::Response(Ok(head)) = event@ {
        lemma_unframed(head.headers);
        assert(x.decoded_effects(head) =~= seq![
            Effect::StopProfiling(x.decode.base_url),
            Effect::DecrementLoad(Stage::Decode),
            records(Metric::Request(x.path)),
            records(Metric::RequestDuration(x.path)),
            records(Metric::PrefillRequest(x.prefill.base_url)),
            records(Metric::DecodeRequest(x.decode.base_url)),
        ] + if head.status < 200 || head.status >= 300 {
            seq![records(Metric::DecodeError(x.decode.base_url))]
        } else {
            seq![]
        });
    }
}

/// Where log probabilities are to be merged, those of the prefill worker's answer and of the decode
/// worker's are; where the decode worker's body could not be read or is no JSON, the exchange
/// fails.
pub proof fn law_both_workers_are_merged(
    exchange: DirectExchange,
    event: Event,
    after: (DirectExchange, Step),
)
    requires
        call_ensures(DirectExchange::step, (exchange, event), after),
        exchange@.phase is AwaitDecodeBody,
    ensures
        event@ matches EventView::Body(Ok(bytes)) ==> match parsed_bytes(bytes) {
            Ok(decode) => {
                &&& after.0@ == (DirectView {
                    phase: DirectPhaseView::AwaitMerge {
                        head: exchange@.phase->AwaitDecodeBody_head,
                    },
                    ..exchange@
                })
                &&& after.1@ == (StepView {
                    effects: seq![],
                    next: NextView::MergeLogprobs {
                        prefill: exchange@.phase->AwaitDecodeBody_prefill_response,
                        decode,
                    },
                })
            },
            Err(error) => fails(
                exchange@,
                after,
                seq![],
                "Failed to parse decode response as JSON: "@ + error,
            ),
        },
        event@ matches EventView::Body(Err(error)) ==> fails(
            exchange@,
            after,
            seq![],
            "Failed to read decode response from "@ + exchange@.decode.endpoint_url + ": "@ + error,
        ),
{
}

/// The merged answer goes to the client with the status of the decode worker's answer and its
/// header lines but for those that speak of how it was sent. Where it could not be written, or the
/// reply could not be built, the exchange fails.
pub proof fn law_merged_answer_goes_on(
    exchange: DirectExchange,
    event: Event,
    after: (DirectExchange, Step),
)
    requires
        call_ensures(DirectExchange::step, (exchange, event), after),
        exchange@.phase is AwaitMerge || exchange@.phase is Responding,
    ensures
        exchange@.phase matches DirectPhaseView::AwaitMerge { head } ==> (event@
            matches EventView::Merged(merged) ==> match json_bytes(merged) {
            Ok(bytes) => {
                &&& after.0@ == (DirectView { phase: DirectPhaseView::Responding, ..exchange@ })
                &&& after.1@ == (StepView {
                    effects: seq![],
                    next: NextView::Respond(
                        ReplyView {
                            status: head.status,
                            headers: unframed(head.headers),
                            body: ReplyBodyView::Bytes(bytes),
                        },
                    ),
                })
            },
            Err(error) => fails(
                exchange@,
                after,
                seq![],
                "Failed to serialize merged response: "@ + error,
            ),
        }),
        exchange@.phase is Responding ==> (event@ matches EventView::BuildFailed(error) ==> fails(
            exchange@,
            after,
            seq![],
            "Failed to build response from "@ + exchange@.decode.endpoint_url + ": "@ + error,
        )),
{
    if let DirectPhaseView::AwaitMerge { head } = exchange@.phase {
        lemma_unframed(head.headers);
    }
}

/// From the request that an exchange was begun with, to the reply: the decode worker is sent that
/// very request, but for the two members that the prefill worker's answer hands on, under the id
/// that the prefill worker was sent, and at its own URL and rank; and the client gets the decode
/// worker's answer, unless the request asked for log probabilities and for no stream.
pub proof fn law_decode_worker_gets_what_the_client_asked_for(
    request: Value,
    path: String,
    prefill: DirectTarget,
    decode: DirectTarget,
    api_key: String,
    request_id: String,
    begun: (DirectExchange, Step),
    first: Event,
    answered: (DirectExchange, Step),
    second: Event,
    called: (DirectExchange, Step),
    third: Event,
    decoded: (DirectExchange, Step),
)
    requires
        call_ensures(
            DirectExchange::begin_with_id,
            (request, path, prefill, decode, api_key, request_id),
            begun,
        ),
        call_ensures(DirectExchange::step, (begun.0, first), answered),
        call_ensures(DirectExchange::step, (answered.0, second), called),
        call_ensures(DirectExchange::step, (called.0, third), decoded),
        first@ matches EventView::Response(Ok(_)),
        second@ matches EventView::Body(Ok(bytes)) && parsed_bytes(bytes) is Ok,
        third@ matches EventView::Response(Ok(_)),
    ensures
        called.1@.next matches NextView::Send(call) && goes_to(
            call,
            Stage::Decode,
            decode.endpoint_url@,
            decode.dp_rank,
            Some(api_key@),
            request_id@,
        ) && (call.body matches CallBodyView::Json(sent) && decodes(
            json_view(request),
            parsed_bytes(second@->Body_0->Ok_0)->Ok_0,
            sent,
        )),
        if wants_merged(json_view(request)) {
            decoded.1@.next is ReadBody
        } else {
            decoded.1@.next == NextView::Respond(
                ReplyView {
                    status: third@->Response_0->Ok_0.status,
                    headers: unframed(third@->Response_0->Ok_0.headers),
                    body: ReplyBodyView::Stream,
                },
            )
        },
{
    law_exchange_begins_at_the_prefill_worker(
        request,
        path,
        prefill,
        decode,
        api_key,
        request_id,
        begun,
    );
    law_prefill_answer_is_read(begun.0, first, answered);
    law_decode_worker_carries_on(answered.0, second, called);
    law_decode_answer_goes_on(called.0, third, decoded);
}

/// A document at hand is taken as the same document in the prefill worker's or the decode worker's
/// body would be, and bytes at hand as those of the merged answer would be.
pub proof fn law_results_at_hand_are_taken_alike(
    exchange: DirectExchange,
    read: Result<Value, String>,
    written: Result<Vec<u8>, String>,
    event: Event,
    stepped: (DirectExchange, Step),
    after: (DirectExchange, Step),
)
    requires
        call_ensures(DirectExchange::step, (exchange, event), stepped),
        match exchange@.phase {
            DirectPhaseView::AwaitPrefillBody => {
                &&& call_ensures(DirectExchange::prefill_read, (exchange, read), after)
                &&& event@ matches EventView::Body(Ok(bytes)) && parsed_bytes(bytes) == (match read {
                    Ok(value) => Ok::<JsonView, Seq<char>>(json_view(value)),
                    Err(error) => Err(error@),
                })
            },
            DirectPhaseView::AwaitDecodeBody { .. } => {
                &&& call_ensures(DirectExchange::decode_read, (exchange, read), after)
                &&& event@ matches EventView::Body(Ok(bytes)) && parsed_bytes(bytes) == (match read {
                    Ok(value) => Ok::<JsonView, Seq<char>>(json_view(value)),
                    Err(error) => Err(error@),
                })
            },
            DirectPhaseView::AwaitMerge { .. } => {
                &&& call_ensures(DirectExchange::merge_written, (exchange, written), after)
                &&& event@ matches EventView::Merged(merged) && json_bytes(merged) == (match written {
                    Ok(bytes) => Ok::<Seq<u8>, Seq<char>>(bytes@),
                    Err(error) => Err(error@),
                })
            },
            _ => false,
        },
    ensures
        after.0@ == stepped.0@,
        after.1@ == stepped.1@,
{
}

/// An exchange that begins with a new id begins as one would with that id at hand; the id names
/// both workers by their ZMQ addresses, and ends in thirty-two digits.
pub proof fn law_new_id_names_both_workers(
    request: Value,
    path: String,
    prefill: DirectTarget,
    decode: DirectTarget,
    prefill_zmq: Option<String>,
    decode_zmq: Option<String>,
    api_key: String,
    begun: (DirectExchange, Step),
    request_id: String,
    same: (DirectExchange, Step),
)
    requires
        call_ensures(
            DirectExchange::begin,
            (request, path, prefill, decode, prefill_zmq, decode_zmq, api_key),
            begun,
        ),
        request_id@ == begun.0@.request_id,
        call_ensures(
            DirectExchange::begin_with_id,
            (request, path, prefill, decode, api_key, request_id),
            same,
        ),
    ensures
        exists|p: Seq<char>, d: Seq<char>|
            #![trigger is_request_id(begun.0@.request_id, p, d)]
            is_request_id(begun.0@.request_id, p, d) && is_zmq_address(
                p,
                prefill.base_url@,
                prefill_zmq,
            ) && is_zmq_address(d, decode.base_url@, decode_zmq),
        begun.0@ == same.0@,
        begun.1@ == same.1@,
{
    let p = lemma_zmq_address(prefill.base_url@, prefill_zmq);
    let d = lemma_zmq_address(decode.base_url@, decode_zmq);
    lemma_request_id(p, d);
    assert(is_request_id(begun.0@.request_id, p, d));
}

/// The exchange of a selected request begins as one would with that request, its path and the two
/// selected workers, each by its own URL, rank and ZMQ address.
pub proof fn law_selected_workers_are_called(
    selected: Selected<DirectTarget>,
    prefill_zmq: Option<String>,
    decode_zmq: Option<String>,
    api_key: String,
    begun: (DirectExchange, Step),
    request_id: String,
    same: (DirectExchange, Step),
)
    requires
        call_ensures(
            VllmPDRouter::process_vllm_two_stage_request,
            (selected, prefill_zmq, decode_zmq, api_key),
            begun,
        ),
        request_id@ == begun.0@.request_id,
        call_ensures(
            DirectExchange::begin_with_id,
            (
                selected.route.request,
                selected.route.path,
                selected.prefill,
                selected.decode,
                api_key,
                request_id,
            ),
            same,
        ),
    ensures
        exists|p: Seq<char>, d: Seq<char>|
            #![trigger is_request_id(begun.0@.request_id, p, d)]
            is_request_id(begun.0@.request_id, p, d) && is_zmq_address(
                p,
                selected.prefill.base_url@,
                prefill_zmq,
            ) && is_zmq_address(d, selected.decode.base_url@, decode_zmq),
        begun.0@ == same.0@,
        begun.1@ == same.1@,
        begun.0@.request == json_view(selected.route.request),
        begun.0@.path == selected.route.path@,
{
    let p = lemma_zmq_address(selected.prefill.base_url@, prefill_zmq);
    let d = lemma_zmq_address(selected.decode.base_url@, decode_zmq);
    lemma_request_id(p, d);
    assert(is_request_id(begun.0@.request_id, p, d));
}

} // verus!
