//! Laws on exchanges with workers that service discovery announced.
use crate::discovered::{
    refusal_text, DiscoveredExchange, DiscoveredPhaseView, DiscoveredTarget, DiscoveredView,
};
use crate::exchange::{
    status_line, CallBodyView, Effect, Event, EventView, ExchangeError, Metric, NextView,
    ReplyBodyView, ReplyView, Stage, Step, StepView,
};
use crate::json::{json_bytes, json_text, json_view, parsed_bytes, parsed_text, JsonView};
use crate::laws::addresses::{is_bare, is_request_id, lemma_bare, lemma_request_id};
use crate::laws::requests::{lemma_decode_body, lemma_merges, lemma_prefill_body};
use crate::laws::words::{decodes, goes_to, prefills, records, wants_merged};
use crate::request::{decode_body, prefill_body};
use crate::router::VllmPDRouter;
use crate::routing::Selected;
use serde_json::Value;
use vstd::prelude::*;

verus! {

/// Whether an exchange has come to an end by a failure, after some effects.
pub open spec fn fails(
    before: DiscoveredView,
    after: (DiscoveredExchange, Step),
    effects: Seq<Effect<Seq<char>>>,
    message: Seq<char>,
) -> bool {
    &&& after.0@ == (DiscoveredView { phase: DiscoveredPhaseView::Failed, ..before })
    &&& after.1@ == (StepView { effects, next: NextView::Fail(ExchangeError::Message(message)) })
}

/// The failure of the prefill worker is recorded, and so are the request and its duration.
pub open spec fn prefill_failure(exchange: DiscoveredView) -> Seq<Effect<Seq<char>>> {
    seq![
        records(Metric::PrefillError(exchange.prefill.http)),
        records(Metric::Request(exchange.path)),
        records(Metric::RequestDuration(exchange.path)),
    ]
}

/// Whether a text is that of what a prefill worker is to be sent.
pub open spec fn writes_prefill(asked: JsonView, path: Seq<char>, text: Seq<char>) -> bool {
    exists|sent: JsonView| #[trigger]
        prefills(asked, path, sent) && json_text(sent) == Ok::<Seq<char>, Seq<char>>(text)
}

/// Whether a text is that of what a decode worker is to be sent.
pub open spec fn writes_decode(asked: JsonView, handed: JsonView, text: Seq<char>) -> bool {
    exists|sent: JsonView| #[trigger]
        decodes(asked, handed, sent) && json_text(sent) == Ok::<Seq<char>, Seq<char>>(text)
}

/// Whether an exchange has called its decode worker, with what the prefill worker handed on.
pub open spec fn carries_on(
    before: DiscoveredView,
    after: (DiscoveredExchange, Step),
    handed: JsonView,
) -> bool {
    &&& after.0@ == (DiscoveredView {
        phase: DiscoveredPhaseView::AwaitDecode { prefill_response: handed },
        ..before
    })
    &&& after.1@.effects == seq![
        Effect::StopProfiling("http://"@ + before.prefill.address),
        Effect::StartProfiling("http://"@ + before.decode.address),
    ]
    &&& after.1@.next matches NextView::Send(call) && goes_to(
        call,
        Stage::Decode,
        "http://"@ + before.decode.address + before.path,
        before.decode.dp_rank,
        None,
        before.request_id,
    )
}

/// An exchange begins with a call to the prefill worker, at its own URL and rank, for the request
/// and the path that it was begun with: the call's body is the text of a document that asks for one
/// token in what the API of that path reads. The prefill worker is profiled, and the exchange keeps
/// what it was begun with. Where no such document can be written, the exchange fails.
pub proof fn law_exchange_begins_at_the_prefill_worker(
    request: Value,
    path: String,
    prefill: DiscoveredTarget,
    decode: DiscoveredTarget,
    request_id: String,
    begun: (DiscoveredExchange, Step),
)
    requires
        call_ensures(
            DiscoveredExchange::begin_with_id,
            (request, path, prefill, decode, request_id),
            begun,
        ),
    ensures
        ({
            let begins = DiscoveredView {
                path: path@,
                request: json_view(request),
                request_id: request_id@,
                prefill: prefill@,
                decode: decode@,
                phase: DiscoveredPhaseView::AwaitPrefill,
            };
            ||| {
                &&& begun.0@ == begins
                &&& begun.1@.effects == seq![Effect::StartProfiling("http://"@ + prefill.address@)]
                &&& begun.1@.next matches NextView::Send(call) && goes_to(
                    call,
                    Stage::Prefill,
                    "http://"@ + prefill.address@ + path@,
                    prefill.dp_rank,
                    None,
                    request_id@,
                ) && (call.body matches CallBodyView::Text(text) && writes_prefill(
                    json_view(request),
                    path@,
                    text,
                ))
            }
            ||| exists|sent: JsonView| #[trigger]
                prefills(json_view(request), path@, sent) && json_text(sent) is Err && fails(
                    begins,
                    begun,
                    seq![],
                    "Failed to serialize prefill request: "@ + json_text(sent)->Err_0,
                )
        }),
{
    lemma_prefill_body(json_view(request), path@);
    let sent = prefill_body(json_view(request), path@);
    assert(prefills(json_view(request), path@, sent));
}

/// Where the prefill worker answers with a status from 200 to 299, its text is read. Where it
/// answers with any other, its failure is recorded and what it says is read; and where it does not
/// answer, its failure is recorded and the exchange fails.
pub proof fn law_prefill_answer_is_read(
    exchange: DiscoveredExchange,
    event: Event,
    after: (DiscoveredExchange, Step),
)
    requires
        call_ensures(DiscoveredExchange::step, (exchange, event), after),
        exchange@.phase is AwaitPrefill,
    ensures
        ({
            let x = exchange@;
            &&& event@ matches EventView::Response(Ok(head)) ==> {
                &&& 200 <= head.status <= 299 ==> {
                    &&& after.0@ == (DiscoveredView {
                        phase: DiscoveredPhaseView::AwaitPrefillText,
                        ..x
                    })
                    &&& after.1@ == (StepView { effects: seq![], next: NextView::ReadText })
                }
                &&& head.status < 200 || head.status > 299 ==> {
                    &&& after.0@ == (DiscoveredView {
                        phase: DiscoveredPhaseView::AwaitRefusal { status: head.status },
                        ..x
                    })
                    &&& after.1@ == (StepView {
                        effects: prefill_failure(x),
                        next: NextView::ReadText,
                    })
                }
            }
            &&& event@ matches EventView::Response(Err(error)) ==> fails(
                x,
                after,
                prefill_failure(x),
                "Prefill request failed to "@ + x.prefill.http + ": "@ + error,
            )
        }),
{
    assert(exchange@.prefill_error_recorded() =~= prefill_failure(exchange@));
}

/// A refusal of the prefill worker ends the exchange: the failure tells the status and, as far as
/// it could be read, the text.
pub proof fn law_refusal_ends_the_exchange(
    exchange: DiscoveredExchange,
    event: Event,
    after: (DiscoveredExchange, Step),
)
    requires
        call_ensures(DiscoveredExchange::step, (exchange, event), after),
        exchange@.phase is AwaitRefusal,
    ensures
        event@ matches EventView::Text(read) ==> fails(
            exchange@,
            after,
            seq![],
            "Prefill server error "@ + status_line(exchange@.phase->AwaitRefusal_status) + ": "@
                + match read {
                Ok(text) => text,
                Err(_) => seq![],
            },
        ),
{
}

/// Where the prefill worker's text is JSON, the decode worker is called, at its own URL and rank,
/// with the text of a document that is the client's request and what that JSON hands on; profiling
/// passes from the one worker to the other. Where the text could not be read, is no JSON, or the
/// document cannot be written, the exchange fails.
pub proof fn law_decode_worker_carries_on(
    exchange: DiscoveredExchange,
    event: Event,
    after: (DiscoveredExchange, Step),
)
    requires
        call_ensures(DiscoveredExchange::step, (exchange, event), after),
        exchange@.phase is AwaitPrefillText,
    ensures
        event@ matches EventView::Text(Ok(text)) ==> match parsed_text(text) {
            Ok(handed) => {
                ||| carries_on(exchange@, after, handed) && (after.1@.next->Send_0.body
                    matches CallBodyView::Text(body) && writes_decode(
                    exchange@.request,
                    handed,
                    body,
                ))
                ||| exists|sent: JsonView| #[trigger]
                    decodes(exchange@.request, handed, sent) && json_text(sent) is Err && fails(
                        exchange@,
                        after,
                        seq![],
                        "Failed to serialize decode request: "@ + json_text(sent)->Err_0,
                    )
            },
            Err(error) => fails(
                exchange@,
                after,
                seq![],
                "Failed to parse prefill response as JSON: "@ + error,
            ),
        },
        event@ matches EventView::Text(Err(error)) ==> fails(
            exchange@,
            after,
            seq![],
            "Failed to read prefill response from "@ + exchange@.prefill.http + ": "@ + error,
        ),
{
    if let EventView::Text(Ok(text)) = event@ {
        if let Ok(handed) = parsed_text(text) {
            lemma_decode_body(exchange@.request, handed);
            assert(decodes(exchange@.request, handed, decode_body(exchange@.request, handed)));
        }
    }
}

/// Where the decode worker answers, both workers' parts are recorded, with an error where the
/// status is below 200 or from 300 on, and its body is read. Where it does not, the exchange
/// fails.
pub proof fn law_decode_answer_is_read(
    exchange: DiscoveredExchange,
    event: Event,
    after: (DiscoveredExchange, Step),
)
    requires
        call_ensures(DiscoveredExchange::step, (exchange, event), after),
        exchange@.phase is AwaitDecode,
    ensures
        ({
            let x = exchange@;
            &&& event@ matches EventView::Response(Ok(head)) ==> {
                &&& after.0@ == (DiscoveredView {
                    phase: DiscoveredPhaseView::AwaitDecodeBody {
                        prefill_response: x.phase->AwaitDecode_prefill_response,
                        head,
                    },
                    ..x
                })
                &&& after.1@.next is ReadBody
                &&& after.1@.effects == seq![
                    Effect::StopProfiling("http://"@ + x.decode.address),
                    records(Metric::Request(x.path)),
                    records(Metric::RequestDuration(x.path)),
                    records(Metric::PrefillRequest(x.prefill.http)),
                    records(Metric::DecodeRequest(x.decode.http)),
                ] + if head.status < 200 || head.status >= 300 {
                    seq![records(Metric::DecodeError(x.decode.http))]
                } else {
                    seq![]
                }
            }
            &&& event@ matches EventView::Response(Err(error)) ==> fails(
                x,
                after,
                seq![
                    records(Metric::DecodeError(x.decode.http)),
                    records(Metric::Request(x.path)),
                    records(Metric::RequestDuration(x.path)),
                    records(Metric::PrefillRequest(x.prefill.http)),
                ],
                "Decode request failed to "@ + x.decode.http + ": "@ + error,
            )
        }),
{
    let x = exchange@;
    assert(x.decode_error_recorded() =~= seq![
        records(Metric::DecodeError(x.decode.http)),
        records(Metric::Request(x.path)),
        records(Metric::RequestDuration(x.path)),
        records(Metric::PrefillRequest(x.prefill.http)),
    ]);
    if let EventView::Response(Ok(head)) = event@ {
        assert(x.decoded_effects(head) =~= seq![
            Effect::StopProfiling("http://"@ + x.decode.address),
            records(Metric::Request(x.path)),
            records(Metric::RequestDuration(x.path)),
            records(Metric::PrefillRequest(x.prefill.http)),
            records(Metric::DecodeRequest(x.decode.http)),
        ] + if head.status < 200 || head.status >= 300 {
            seq![records(Metric::DecodeError(x.decode.http))]
        } else {
            seq![]
        });
    }
}

/// The decode worker's body goes to the client with its status and all its header lines, unless
/// the client asked for log probabilities and for no stream: then those of both workers are merged.
/// Where the body could not be read, or is no JSON where it is to be merged, the exchange fails.
pub proof fn law_decode_body_goes_on(
    exchange: DiscoveredExchange,
    event: Event,
    after: (DiscoveredExchange, Step),
)
    requires
        call_ensures(DiscoveredExchange::step, (exchange, event), after),
        exchange@.phase is AwaitDecodeBody,
    ensures
        ({
            let x = exchange@;
            let head = x.phase->AwaitDecodeBody_head;
            &&& event@ matches EventView::Body(Ok(bytes)) ==> if wants_merged(x.request) {
                match parsed_bytes(bytes) {
                    Ok(decode) => {
                        &&& after.0@ == (DiscoveredView {
                            phase: DiscoveredPhaseView::AwaitMerge { head },
                            ..x
                        })
                        &&& after.1@ == (StepView {
                            effects: seq![],
                            next: NextView::MergeLogprobs {
                                prefill: x.phase->AwaitDecodeBody_prefill_response,
                                decode,
                            },
                        })
                    },
                    Err(error) => fails(
                        x,
                        after,
                        seq![],
                        "Failed to parse decode response as JSON: "@ + error,
                    ),
                }
            } else {
                &&& after.0@ == (DiscoveredView { phase: DiscoveredPhaseView::Responding, ..x })
                &&& after.1@ == (StepView {
                    effects: seq![],
                    next: NextView::Respond(
                        ReplyView {
                            status: head.status,
                            headers: head.headers,
                            body: ReplyBodyView::Bytes(bytes),
                        },
                    ),
                })
            }
            &&& event@ matches EventView::Body(Err(error)) ==> fails(
                x,
                after,
                seq![],
                "Failed to read decode response: "@ + error,
            )
        }),
{
    lemma_merges(exchange@.request);
}

/// The merged answer goes to the client with the status of the decode worker's answer and all its
/// header lines. Where it could not be written, or the reply could not be built, the exchange
/// fails.
pub proof fn law_merged_answer_goes_on(
    exchange: DiscoveredExchange,
    event: Event,
    after: (DiscoveredExchange, Step),
)
    requires
        call_ensures(DiscoveredExchange::step, (exchange, event), after),
        exchange@.phase is AwaitMerge || exchange@.phase is Responding,
    ensures
        exchange@.phase matches DiscoveredPhaseView::AwaitMerge { head } ==> (event@
            matches EventView::Merged(merged) ==> match json_bytes(merged) {
            Ok(bytes) => {
                &&& after.0@ == (DiscoveredView {
                    phase: DiscoveredPhaseView::Responding,
                    ..exchange@
                })
                &&& after.1@ == (StepView {
                    effects: seq![],
                    next: NextView::Respond(
                        ReplyView {
                            status: head.status,
                            headers: head.headers,
                            body: ReplyBodyView::Bytes(bytes),
                        },
                    ),
                })
            },
            Err(error) => fails(
                exchange@,
                after,
                seq![],
                "Failed to serialize merged response: "@ + error,
            ),
        }),
        exchange@.phase is Responding ==> (event@ matches EventView::BuildFailed(error) ==> fails(
            exchange@,
            after,
            seq![],
            "Failed to build response: "@ + error,
        )),
{
}

/// From the call that begins an exchange, where the prefill worker answers with a status below 200
/// or from 300 on: the exchange fails with that status and what the worker said, the worker's
/// failure is recorded, and the decode worker is not called.
pub proof fn law_refused_request_is_not_decoded(
    request: Value,
    path: String,
    prefill: DiscoveredTarget,
    decode: DiscoveredTarget,
    request_id: String,
    begun: (DiscoveredExchange, Step),
    first: Event,
    answered: (DiscoveredExchange, Step),
    second: Event,
    ended: (DiscoveredExchange, Step),
)
    requires
        call_ensures(
            DiscoveredExchange::begin_with_id,
            (request, path, prefill, decode, request_id),
            begun,
        ),
        begun.1@.next is Send,
        call_ensures(DiscoveredExchange::step, (begun.0, first), answered),
        call_ensures(DiscoveredExchange::step, (answered.0, second), ended),
        first@ matches EventView::Response(Ok(head)) && (head.status < 200 || head.status >= 300),
        second@ matches EventView::Text(_),
    ensures
        answered.1@.next is ReadText,
        answered.1@.effects.contains(records(Metric::PrefillError(prefill.http@))),
        ended.1@ == (StepView {
            effects: seq![],
            next: NextView::Fail(
                ExchangeError::Message(
                    "Prefill server error "@ + status_line(first@->Response_0->Ok_0.status) + ": "@
                        + match second@->Text_0 {
                        Ok(text) => text,
                        Err(_) => seq![],
                    },
                ),
            ),
        }),
        ended.0@.phase is Failed,
{
    law_exchange_begins_at_the_prefill_worker(request, path, prefill, decode, request_id, begun);
    law_prefill_answer_is_read(begun.0, first, answered);
    law_refusal_ends_the_exchange(answered.0, second, ended);
    assert(answered.1@.effects[0] == records(Metric::PrefillError(prefill.http@)));
}

/// From the request that an exchange was begun with, to the reply, whatever happens in between: if
/// a second call is made, the prefill worker has answered with a status from 200 to 299 and with
/// JSON, and the call goes to the decode worker, at its own URL and rank, under the id that the
/// prefill worker was sent. Its body is the text of a document that has every member of that very
/// request, and no other, but for the two that the JSON hands on. And once the decode worker's body
/// has been read, it goes to the client, unless the request asked for log probabilities and for no
/// stream.
pub proof fn law_decode_worker_gets_what_the_client_asked_for(
    request: Value,
    path: String,
    prefill: DiscoveredTarget,
    decode: DiscoveredTarget,
    request_id: String,
    begun: (DiscoveredExchange, Step),
    first: Event,
    answered: (DiscoveredExchange, Step),
    second: Event,
    called: (DiscoveredExchange, Step),
    third: Event,
    decoded: (DiscoveredExchange, Step),
    fourth: Event,
    ended: (DiscoveredExchange, Step),
)
    requires
        call_ensures(
            DiscoveredExchange::begin_with_id,
            (request, path, prefill, decode, request_id),
            begun,
        ),
        begun.1@.next is Send,
        call_ensures(DiscoveredExchange::step, (begun.0, first), answered),
        call_ensures(DiscoveredExchange::step, (answered.0, second), called),
        call_ensures(DiscoveredExchange::step, (called.0, third), decoded),
        call_ensures(DiscoveredExchange::step, (decoded.0, fourth), ended),
        first@ matches EventView::Response(Ok(_)),
        second@ matches EventView::Text(_),
        third@ matches EventView::Response(Ok(_)),
        fourth@ matches EventView::Body(Ok(_)),
    ensures
        called.1@.next matches NextView::Send(call) ==> {
            &&& 200 <= first@->Response_0->Ok_0.status <= 299
            &&& second@->Text_0 matches Ok(text) && parsed_text(text) is Ok
            &&& goes_to(
                call,
                Stage::Decode,
                "http://"@ + decode.address@ + path@,
                decode.dp_rank,
                None,
                request_id@,
            )
            &&& call.body matches CallBodyView::Text(body) && writes_decode(
                json_view(request),
                parsed_text(second@->Text_0->Ok_0)->Ok_0,
                body,
            )
            &&& !wants_merged(json_view(request)) ==> ended.1@.next == NextView::Respond(
                ReplyView {
                    status: third@->Response_0->Ok_0.status,
                    headers: third@->Response_0->Ok_0.headers,
                    body: ReplyBodyView::Bytes(fourth@->Body_0->Ok_0),
                },
            )
            &&& wants_merged(json_view(request)) ==> !(ended.1@.next is Respond)
        },
{
    law_exchange_begins_at_the_prefill_worker(request, path, prefill, decode, request_id, begun);
    law_prefill_answer_is_read(begun.0, first, answered);
    if answered.0@.phase is AwaitRefusal {
        law_refusal_ends_the_exchange(answered.0, second, called);
    } else {
        law_decode_worker_carries_on(answered.0, second, called);
        if called.1@.next is Send {
            law_decode_answer_is_read(called.0, third, decoded);
            law_decode_body_goes_on(decoded.0, fourth, ended);
        }
    }
}

/// A text at hand begins an exchange as the text of what the prefill worker is to be sent would,
/// and stands in the call as it is; the text of an error makes it fail.
pub proof fn law_text_at_hand_is_sent(
    request: Value,
    path: String,
    prefill: DiscoveredTarget,
    decode: DiscoveredTarget,
    request_id: String,
    written: Result<String, String>,
    begun: (DiscoveredExchange, Step),
)
    requires
        call_ensures(
            DiscoveredExchange::begin_with_body,
            (request, path, prefill, decode, request_id, written),
            begun,
        ),
    ensures
        ({
            let begins = DiscoveredView {
                path: path@,
                request: json_view(request),
                request_id: request_id@,
                prefill: prefill@,
                decode: decode@,
                phase: DiscoveredPhaseView::AwaitPrefill,
            };
            match written {
                Ok(text) => {
                    &&& begun.0@ == begins
                    &&& begun.1@.effects == seq![
                        Effect::StartProfiling("http://"@ + prefill.address@),
                    ]
                    &&& begun.1@.next matches NextView::Send(call) && goes_to(
                        call,
                        Stage::Prefill,
                        "http://"@ + prefill.address@ + path@,
                        prefill.dp_rank,
                        None,
                        request_id@,
                    ) && call.body == CallBodyView::Text(text@)
                },
                Err(error) => fails(
                    begins,
                    begun,
                    seq![],
                    "Failed to serialize prefill request: "@ + error@,
                ),
            }
        }),
{
}

/// A text at hand is sent to the decode worker as it is; the text of an error makes the exchange
/// fail.
pub proof fn law_decode_text_at_hand_is_sent(
    exchange: DiscoveredExchange,
    prefill_response: Value,
    written: Result<String, String>,
    after: (DiscoveredExchange, Step),
)
    requires
        call_ensures(
            DiscoveredExchange::decode_written,
            (exchange, prefill_response, written),
            after,
        ),
    ensures
        match written {
            Ok(text) => carries_on(exchange@, after, json_view(prefill_response))
                && after.1@.next->Send_0.body == CallBodyView::Text(text@),
            Err(error) => fails(
                exchange@,
                after,
                seq![],
                "Failed to serialize decode request: "@ + error@,
            ),
        },
{
}

/// A document at hand is taken as the same document in the prefill worker's or the decode worker's
/// body would be, and bytes at hand as those of the merged answer would be.
pub proof fn law_results_at_hand_are_taken_alike(
    exchange: DiscoveredExchange,
    read: Result<Value, String>,
    written: Result<Vec<u8>, String>,
    event: Event,
    stepped: (DiscoveredExchange, Step),
    after: (DiscoveredExchange, Step),
)
    requires
        call_ensures(DiscoveredExchange::step, (exchange, event), stepped),
        match exchange@.phase {
            DiscoveredPhaseView::AwaitPrefillText => {
                &&& call_ensures(DiscoveredExchange::prefill_read, (exchange, read), after)
                &&& event@ matches EventView::Text(Ok(text)) && parsed_text(text) == (match read {
                    Ok(value) => Ok::<JsonView, Seq<char>>(json_view(value)),
                    Err(error) => Err(error@),
                })
            },
            DiscoveredPhaseView::AwaitDecodeBody { .. } => {
                &&& wants_merged(exchange@.request)
                &&& call_ensures(DiscoveredExchange::decode_read, (exchange, read), after)
                &&& event@ matches EventView::Body(Ok(bytes)) && parsed_bytes(bytes) == (match read {
                    Ok(value) => Ok::<JsonView, Seq<char>>(json_view(value)),
                    Err(error) => Err(error@),
                })
            },
            DiscoveredPhaseView::AwaitMerge { .. } => {
                &&& call_ensures(DiscoveredExchange::merge_written, (exchange, written), after)
                &&& event@ matches EventView::Merged(merged) && json_bytes(merged) == (match written {
                    Ok(bytes) => Ok::<Seq<u8>, Seq<char>>(bytes@),
                    Err(error) => Err(error@),
                })
            },
            _ => false,
        },
    ensures
        after.0@ == stepped.0@,
        after.1@ == stepped.1@,
{
    lemma_merges(exchange@.request);
}

/// The text of a refusal gives the status as it is shown and, as far as it could be read, what the
/// worker said.
pub proof fn law_refusal_text_tells_both(line: &str, read: Result<String, String>, text: String)
    requires
        call_ensures(refusal_text, (line, read), text),
    ensures
        match read {
            Ok(said) => text@ == "Prefill server error "@ + line@ + ": "@ + said@,
            Err(_) => text@ == "Prefill server error "@ + line@ + ": "@,
        },
{
    assert("Prefill server error "@ + line@ + ": "@ + Seq::<char>::empty() =~= "Prefill server error "@
        + line@ + ": "@);
}

/// Ranks are asked for where more than one worker shares an address, and nowhere else: of the HTTP
/// URL of the address.
pub proof fn law_ranks_are_asked_for(router: &VllmPDRouter, http: &str, query: Option<String>)
    requires
        call_ensures(VllmPDRouter::rank_query, (router, http), query),
    ensures
        query is Some <==> router@.intra_node_data_parallel_size >= 2,
        query matches Some(url) ==> url@ == "http://"@ + http@,
{
}

/// A worker keeps the address that it was announced under. Where no rank was split off, it is
/// called at that address and has none; otherwise it has the rank that was split off, and is called
/// at what was left, which is bare where that was an HTTP URL of a bare address.
pub proof fn law_target_has_its_rank(
    http: String,
    split: Option<(String, Option<usize>)>,
    target: DiscoveredTarget,
    bare: Seq<char>,
)
    requires
        call_ensures(VllmPDRouter::discovered_target, (http, split), target),
    ensures
        target.http@ == http@,
        split is None ==> target.address@ == http@ && target.dp_rank is None,
        split matches Some((base, rank)) ==> {
            &&& target.dp_rank == rank
            &&& base@ == "http://"@ + bare && is_bare(bare) ==> target.address@ == bare
            &&& base@ == "https://"@ + bare && is_bare(bare) ==> target.address@ == bare
        },
{
    lemma_bare(bare);
}

/// An exchange that begins with a new id begins as one would with that id at hand; the id names
/// both workers by their ZMQ addresses, and ends in thirty-two digits.
pub proof fn law_new_id_names_both_workers(
    request: Value,
    path: String,
    prefill: DiscoveredTarget,
    decode: DiscoveredTarget,
    prefill_zmq: &str,
    decode_zmq: &str,
    begun: (DiscoveredExchange, Step),
    request_id: String,
    same: (DiscoveredExchange, Step),
)
    requires
        call_ensures(
            DiscoveredExchange::begin,
            (request, path, prefill, decode, prefill_zmq, decode_zmq),
            begun,
        ),
        request_id@ == begun.0@.request_id,
        call_ensures(
            DiscoveredExchange::begin_with_id,
            (request, path, prefill, decode, request_id),
            same,
        ),
    ensures
        is_request_id(begun.0@.request_id, prefill_zmq@, decode_zmq@),
        begun.0@ == same.0@,
        begun.1@ == same.1@,
{
    lemma_request_id(prefill_zmq@, decode_zmq@);
}

/// The exchange of a selected request begins as one would with the two selected workers: each at
/// the first half of its own instance, as far as no rank was split off that, and with the second
/// half of its own instance in the id.
pub proof fn law_selected_instances_are_paired(
    selected: Selected<(String, String)>,
    prefill_split: Option<(String, Option<usize>)>,
    decode_split: Option<(String, Option<usize>)>,
    begun: (DiscoveredExchange, Step),
    prefill: DiscoveredTarget,
    decode: DiscoveredTarget,
    request_id: String,
    same: (DiscoveredExchange, Step),
)
    requires
        call_ensures(
            VllmPDRouter::process_vllm_two_stage_request_discovered,
            (selected, prefill_split, decode_split),
            begun,
        ),
        call_ensures(
            VllmPDRouter::discovered_target,
            (selected.prefill.0, prefill_split),
            prefill,
        ),
        call_ensures(VllmPDRouter::discovered_target, (selected.decode.0, decode_split), decode),
        request_id@ == begun.0@.request_id,
        call_ensures(
            DiscoveredExchange::begin_with_id,
            (selected.route.request, selected.route.path, prefill, decode, request_id),
            same,
        ),
    ensures
        is_request_id(begun.0@.request_id, selected.prefill.1@, selected.decode.1@),
        begun.0@ == same.0@,
        begun.1@ == same.1@,
        begun.0@.prefill.http == selected.prefill.0@,
        begun.0@.decode.http == selected.decode.0@,
        begun.0@.request == json_view(selected.route.request),
        begun.0@.path == selected.route.path@,
{
    lemma_request_id(selected.prefill.1@, selected.decode.1@);
}

} // verus!
