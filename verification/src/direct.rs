//! The exchange with two workers of known URLs: the prompt goes to the prefill worker, what that
//! worker computed goes on to the decode worker, and the reply comes from there.
//!
//! The prefill worker carries the request in its load while it serves the prefill stage, and the
//! decode worker while it serves the decode stage, and neither beyond that.
use crate::discovery::{optional_text, zmq_address};
use crate::exchange::{
    call_header_lines, call_headers, Call, CallBody, CallBodyView, CallView, Effect, Event,
    EventView, ExchangeError, Metric, Next, NextView, Reply, ReplyBody, ReplyBodyView, ReplyView,
    effects_view, lemma_effects_add_up, lemma_one_effect, lemma_two_effects, load, once_if,
    profiled, times, ResponseHead, ResponseHeadView, Stage, Step, StepView,
};
use crate::headers::{forwarded_headers, is_forwarded, lemma_filter_keeps};
use crate::json::{
    bytes_view, json_bytes, json_view, parse_bytes, parsed_bytes, read_view, to_bytes, JsonView,
};
use crate::request::{
    decode_body, merges_logprobs, needs_merged_logprobs, prefill_body, prepare_decode_body,
    prepare_prefill_body,
};
use crate::request_id::{is_random_uuid, request_id};
use crate::router::VllmPDRouter;
use crate::routing::Selected;
use crate::text::{concat, concat4};
use serde_json::Value;
use vstd::pervasive::unreached;
use vstd::prelude::*;

verus! {

/// A worker of a known URL.
pub struct DirectTarget {
    /// The URL of the worker, without a rank.
    pub base_url: String,
    /// The URL of the path on the worker.
    pub endpoint_url: String,
    /// The rank of the worker among those that share its URL, if it has one.
    pub dp_rank: Option<usize>,
}

/// The view of a `DirectTarget`.
pub struct DirectTargetView {
    pub base_url: Seq<char>,
    pub endpoint_url: Seq<char>,
    pub dp_rank: Option<usize>,
}

impl View for DirectTarget {
    type V = DirectTargetView;

    open spec fn view(&self) -> DirectTargetView {
        DirectTargetView {
            base_url: self.base_url@,
            endpoint_url: self.endpoint_url@,
            dp_rank: self.dp_rank,
        }
    }
}

/// How far an exchange has come.
enum DirectPhase {
    AwaitPrefill,
    AwaitPrefillBody,
    AwaitDecode { prefill_response: Value },
    AwaitDecodeBody { prefill_response: Value, head: ResponseHead },
    AwaitMerge { head: ResponseHead },
    Responding,
    Failed,
}

/// The view of how far an exchange has come.
pub enum DirectPhaseView {
    /// The prefill request is on its way.
    AwaitPrefill,
    /// The prefill worker has answered; its body is being read.
    AwaitPrefillBody,
    /// The decode request is on its way.
    AwaitDecode { prefill_response: JsonView },
    /// The decode worker has answered; its body is being read.
    AwaitDecodeBody { prefill_response: JsonView, head: ResponseHeadView },
    /// The log probabilities of the two workers are being merged.
    AwaitMerge { head: ResponseHeadView },
    /// The reply is on its way to the client.
    Responding,
    /// The exchange has failed.
    Failed,
}

/// An exchange with two workers of known URLs.
pub struct DirectExchange {
    path: String,
    request: Value,
    request_id: String,
    api_key: String,
    prefill: DirectTarget,
    decode: DirectTarget,
    phase: DirectPhase,
}

/// The view of a `DirectExchange`.
pub struct DirectView {
    pub path: Seq<char>,
    pub request: JsonView,
    pub request_id: Seq<char>,
    pub api_key: Seq<char>,
    pub prefill: DirectTargetView,
    pub decode: DirectTargetView,
    pub phase: DirectPhaseView,
}

impl View for DirectPhase {
    type V = DirectPhaseView;

    closed spec fn view(&self) -> DirectPhaseView {
        match self {
            DirectPhase::AwaitPrefill => DirectPhaseView::AwaitPrefill,
            DirectPhase::AwaitPrefillBody => DirectPhaseView::AwaitPrefillBody,
            DirectPhase::AwaitDecode { prefill_response } => DirectPhaseView::AwaitDecode {
                prefill_response: json_view(*prefill_response),
            },
            DirectPhase::AwaitDecodeBody { prefill_response, head } => DirectPhaseView::AwaitDecodeBody {
                prefill_response: json_view(*prefill_response),
                head: head@,
            },
            DirectPhase::AwaitMerge { head } => DirectPhaseView::AwaitMerge { head: head@ },
            DirectPhase::Responding => DirectPhaseView::Responding,
            DirectPhase::Failed => DirectPhaseView::Failed,
        }
    }
}

impl View for DirectExchange {
    type V = DirectView;

    closed spec fn view(&self) -> DirectView {
        DirectView {
            path: self.path@,
            request: json_view(self.request),
            request_id: self.request_id@,
            api_key: self.api_key@,
            prefill: self.prefill@,
            decode: self.decode@,
            phase: self.phase@,
        }
    }
}

impl DirectView {
    /// The exchange at its start.
    pub open spec fn start(
        request: JsonView,
        path: Seq<char>,
        prefill: DirectTargetView,
        decode: DirectTargetView,
        api_key: Seq<char>,
        request_id: Seq<char>,
    ) -> DirectView {
        DirectView {
            path,
            request,
            request_id,
            api_key,
            prefill,
            decode,
            phase: DirectPhaseView::AwaitPrefill,
        }
    }

    /// The first step: the prefill worker takes the request on, is profiled, and is called.
    pub open spec fn first_step(self) -> StepView {
        StepView {
            effects: seq![
                Effect::IncrementLoad(Stage::Prefill),
                Effect::StartProfiling(self.prefill.base_url),
            ],
            next: NextView::Send(self.prefill_call()),
        }
    }

    /// The call to the prefill worker.
    pub open spec fn prefill_call(self) -> CallView {
        CallView {
            stage: Stage::Prefill,
            url: self.prefill.endpoint_url,
            headers: call_header_lines(Some(self.api_key), self.request_id),
            dp_rank: self.prefill.dp_rank,
            body: CallBodyView::Json(prefill_body(self.request, self.path)),
        }
    }

    /// The call to the decode worker.
    pub open spec fn decode_call(self, prefill_response: JsonView) -> CallView {
        CallView {
            stage: Stage::Decode,
            url: self.decode.endpoint_url,
            headers: call_header_lines(Some(self.api_key), self.request_id),
            dp_rank: self.decode.dp_rank,
            body: CallBodyView::Json(decode_body(self.request, prefill_response)),
        }
    }

    /// The exchange at another phase.
    pub open spec fn at(self, phase: DirectPhaseView) -> DirectView {
        DirectView { phase, ..self }
    }

    /// The exchange fails, after some effects.
    pub open spec fn fails(self, effects: Seq<Effect<Seq<char>>>, message: Seq<char>) -> (
        DirectView,
        StepView,
    ) {
        (
            self.at(DirectPhaseView::Failed),
            StepView { effects, next: NextView::Fail(ExchangeError::NetworkError { message }) },
        )
    }

    /// The request and its duration are recorded.
    pub open spec fn request_recorded(self) -> Seq<Effect<Seq<char>>> {
        seq![
            Effect::Record(Metric::Request(self.path)),
            Effect::Record(Metric::RequestDuration(self.path)),
        ]
    }

    /// The exchange fails in the prefill stage: the prefill worker is rid of the request.
    pub open spec fn prefill_fails(self, message: Seq<char>) -> (DirectView, StepView) {
        self.fails(
            seq![
                Effect::DecrementLoad(Stage::Prefill),
                Effect::Record(Metric::PrefillError(self.prefill.base_url)),
            ] + self.request_recorded(),
            message,
        )
    }

    /// The decode worker did not answer: it is rid of the request.
    pub open spec fn decode_fails(self, message: Seq<char>) -> (DirectView, StepView) {
        self.fails(
            seq![
                Effect::DecrementLoad(Stage::Decode),
                Effect::Record(Metric::DecodeError(self.decode.base_url)),
            ] + self.request_recorded() + seq![
                Effect::Record(Metric::PrefillRequest(self.prefill.base_url)),
            ],
            message,
        )
    }

    /// The prefill worker has done its part: it is rid of the request, and the decode worker
    /// takes it on, is profiled, and is called.
    pub open spec fn prefilled(self, prefill_response: JsonView) -> (DirectView, StepView) {
        (
            self.at(DirectPhaseView::AwaitDecode { prefill_response }),
            StepView {
                effects: seq![
                    Effect::StopProfiling(self.prefill.base_url),
                    Effect::DecrementLoad(Stage::Prefill),
                    Effect::IncrementLoad(Stage::Decode),
                    Effect::StartProfiling(self.decode.base_url),
                ],
                next: NextView::Send(self.decode_call(prefill_response)),
            },
        )
    }

    /// What the decode worker's answer brings about: it is rid of the request, and the exchange
    /// is measured.
    pub open spec fn decoded_effects(self, head: ResponseHeadView) -> Seq<Effect<Seq<char>>> {
        seq![
            Effect::StopProfiling(self.decode.base_url),
            Effect::DecrementLoad(Stage::Decode),
        ] + self.request_recorded() + seq![
            Effect::Record(Metric::PrefillRequest(self.prefill.base_url)),
            Effect::Record(Metric::DecodeRequest(self.decode.base_url)),
        ] + if head.is_success() {
            seq![]
        } else {
            seq![Effect::Record(Metric::DecodeError(self.decode.base_url))]
        }
    }

    /// The reply to the client: the status of the decode worker, and those of its header lines
    /// that go on.
    pub open spec fn reply(head: ResponseHeadView, body: ReplyBodyView) -> ReplyView {
        ReplyView {
            status: head.status,
            headers: head.headers.filter(|line: (Seq<char>, Seq<u8>)| is_forwarded(line)),
            body,
        }
    }

    /// The decode worker has answered: its body is read where it is to be merged with that of
    /// the prefill worker, and otherwise handed on as it comes.
    pub open spec fn decoded(self, prefill_response: JsonView, head: ResponseHeadView) -> (
        DirectView,
        StepView,
    ) {
        if merges_logprobs(self.request) {
            (
                self.at(DirectPhaseView::AwaitDecodeBody { prefill_response, head }),
                StepView { effects: self.decoded_effects(head), next: NextView::ReadBody },
            )
        } else {
            (
                self.at(DirectPhaseView::Responding),
                StepView {
                    effects: self.decoded_effects(head),
                    next: NextView::Respond(Self::reply(head, ReplyBodyView::Stream)),
                },
            )
        }
    }

    /// The prefill worker's answer has been read as JSON, or could not be.
    pub open spec fn prefill_read(self, read: Result<JsonView, Seq<char>>) -> (
        DirectView,
        StepView,
    ) {
        match read {
            Ok(prefill_response) => self.prefilled(prefill_response),
            Err(error) => self.prefill_fails(
                "Failed to parse prefill response as JSON: "@ + error,
            ),
        }
    }

    /// The decode worker's answer has been read as JSON, or could not be: the log probabilities
    /// are to be merged.
    pub open spec fn decode_read(self, read: Result<JsonView, Seq<char>>) -> (
        DirectView,
        StepView,
    ) {
        match (self.phase, read) {
            (DirectPhaseView::AwaitDecodeBody { prefill_response, head }, Ok(decode)) => (
                self.at(DirectPhaseView::AwaitMerge { head }),
                StepView {
                    effects: seq![],
                    next: NextView::MergeLogprobs { prefill: prefill_response, decode },
                },
            ),
            (_, Err(error)) => self.fails(
                seq![],
                "Failed to parse decode response as JSON: "@ + error,
            ),
            _ => arbitrary(),
        }
    }

    /// The merged answer has been written, or could not be.
    pub open spec fn merge_written(self, written: Result<Seq<u8>, Seq<char>>) -> (
        DirectView,
        StepView,
    ) {
        match (self.phase, written) {
            (DirectPhaseView::AwaitMerge { head }, Ok(bytes)) => (
                self.at(DirectPhaseView::Responding),
                StepView {
                    effects: seq![],
                    next: NextView::Respond(Self::reply(head, ReplyBodyView::Bytes(bytes))),
                },
            ),
            (_, Err(error)) => self.fails(
                seq![],
                "Failed to serialize merged response: "@ + error,
            ),
            _ => arbitrary(),
        }
    }

    /// The event that the exchange waits for.
    pub open spec fn expects(self, event: EventView) -> bool {
        match self.phase {
            DirectPhaseView::AwaitPrefill => event is Response,
            DirectPhaseView::AwaitPrefillBody => event is Body,
            DirectPhaseView::AwaitDecode { .. } => event is Response,
            DirectPhaseView::AwaitDecodeBody { .. } => event is Body,
            DirectPhaseView::AwaitMerge { .. } => event is Merged,
            DirectPhaseView::Responding => event is BuildFailed,
            DirectPhaseView::Failed => false,
        }
    }

    /// The exchange and its step after an event that it waits for.
    pub open spec fn step(self, event: EventView) -> (DirectView, StepView) {
        match (self.phase, event) {
            (DirectPhaseView::AwaitPrefill, EventView::Response(Ok(_))) => (
                self.at(DirectPhaseView::AwaitPrefillBody),
                StepView { effects: seq![], next: NextView::ReadBody },
            ),
            (DirectPhaseView::AwaitPrefill, EventView::Response(Err(error))) => self.prefill_fails(
                "Prefill request failed to "@ + self.prefill.endpoint_url + ": "@ + error,
            ),
            (DirectPhaseView::AwaitPrefillBody, EventView::Body(Ok(bytes))) => self.prefill_read(
                parsed_bytes(bytes),
            ),
            (DirectPhaseView::AwaitPrefillBody, EventView::Body(Err(error))) => self.prefill_fails(
                "Failed to read prefill response from "@ + self.prefill.endpoint_url + ": "@
                    + error,
            ),
            (
                DirectPhaseView::AwaitDecode { prefill_response },
                EventView::Response(Ok(head)),
            ) => self.decoded(prefill_response, head),
            (DirectPhaseView::AwaitDecode { .. }, EventView::Response(Err(error))) => self.decode_fails(
                "Decode request failed to "@ + self.decode.endpoint_url + ": "@ + error,
            ),
            (DirectPhaseView::AwaitDecodeBody { .. }, EventView::Body(Ok(bytes))) => self.decode_read(
                parsed_bytes(bytes),
            ),
            (DirectPhaseView::AwaitDecodeBody { .. }, EventView::Body(Err(error))) => self.fails(
                seq![],
                "Failed to read decode response from "@ + self.decode.endpoint_url + ": "@ + error,
            ),
            (DirectPhaseView::AwaitMerge { .. }, EventView::Merged(merged)) => self.merge_written(
                json_bytes(merged),
            ),
            (DirectPhaseView::Responding, EventView::BuildFailed(error)) => self.fails(
                seq![],
                "Failed to build response from "@ + self.decode.endpoint_url + ": "@ + error,
            ),
            _ => arbitrary(),
        }
    }

    /// From the start, the exchange and all its effects after some events.
    pub open spec fn run(self, events: Seq<EventView>) -> (DirectView, Seq<Effect<Seq<char>>>)
        decreases events.len(),
    {
        if events.len() == 0 {
            (self, self.first_step().effects)
        } else {
            let before = self.run(events.drop_last());
            let after = before.0.step(events.last());
            (after.0, before.1 + after.1.effects)
        }
    }

    /// Whether the exchange, from the start, waits for each of the events in turn.
    pub open spec fn admits(self, events: Seq<EventView>) -> bool
        decreases events.len(),
    {
        events.len() > 0 ==> self.admits(events.drop_last()) && self.run(
            events.drop_last(),
        ).0.expects(events.last())
    }

    /// Whether the worker of a stage has the request in hand.
    pub open spec fn is_with(self, stage: Stage) -> bool {
        match stage {
            Stage::Prefill => self.phase is AwaitPrefill || self.phase is AwaitPrefillBody,
            Stage::Decode => self.phase is AwaitDecode,
        }
    }

    /// Whether no worker has the request in hand any more: the exchange has been measured.
    pub open spec fn is_measured(self) -> bool {
        !self.is_with(Stage::Prefill) && !self.is_with(Stage::Decode)
    }
}

impl DirectExchange {
    /// Begins an exchange, with a new request id that names both workers by their ZMQ
    /// addresses: those that service discovery announced, or else their HTTP addresses.
    pub fn begin(
        request: Value,
        path: String,
        prefill: DirectTarget,
        decode: DirectTarget,
        prefill_zmq: Option<String>,
        decode_zmq: Option<String>,
        api_key: String,
    ) -> (begun: (DirectExchange, Step))
        ensures
            exists|uuid: Seq<char>| #[trigger]
                is_random_uuid(uuid) && begun.0@ == DirectView::start(
                    json_view(request),
                    path@,
                    prefill@,
                    decode@,
                    api_key@,
                    request_id(
                        zmq_address(prefill.base_url@, optional_text(prefill_zmq)),
                        zmq_address(decode.base_url@, optional_text(decode_zmq)),
                        uuid,
                    ),
                ),
            begun.1@ == begun.0@.first_step(),
    {
        let prefill_addr = VllmPDRouter::get_zmq_address(prefill.base_url.as_str(), prefill_zmq);
        let decode_addr = VllmPDRouter::get_zmq_address(decode.base_url.as_str(), decode_zmq);
        let id = VllmPDRouter::generate_vllm_request_id(
            prefill_addr.as_str(),
            decode_addr.as_str(),
        );
        Self::begin_with_id(request, path, prefill, decode, api_key, id)
    }

    /// Begins an exchange with a request id at hand.
    pub fn begin_with_id(
        request: Value,
        path: String,
        prefill: DirectTarget,
        decode: DirectTarget,
        api_key: String,
        request_id: String,
    ) -> (begun: (DirectExchange, Step))
        ensures
            begun.0@ == DirectView::start(
                json_view(request),
                path@,
                prefill@,
                decode@,
                api_key@,
                request_id@,
            ),
            begun.1@ == begun.0@.first_step(),
    {
        let body = prepare_prefill_body(&request, path.as_str());
        let call = Call {
            stage: Stage::Prefill,
            url: prefill.endpoint_url.clone(),
            headers: call_headers(Some(api_key.as_str()), request_id.as_str()),
            dp_rank: prefill.dp_rank,
            body: CallBody::Json(body),
        };
        let effects = vec![
            Effect::IncrementLoad(Stage::Prefill),
            Effect::StartProfiling(prefill.base_url.clone()),
        ];
        let exchange = DirectExchange {
            path,
            request,
            request_id,
            api_key,
            prefill,
            decode,
            phase: DirectPhase::AwaitPrefill,
        };
        let step = Step { effects, next: Next::Send(call) };
        assert(step@.effects =~= exchange@.first_step().effects);
        (exchange, step)
    }

    /// The effects that record the request and its duration.
    fn record_request(&self, effects: &mut Vec<Effect<String>>)
        ensures
            effects_view(final(effects)@) == effects_view(old(effects)@) + self@.request_recorded(),
    {
        effects.push(Effect::Record(Metric::Request(self.path.clone())));
        effects.push(Effect::Record(Metric::RequestDuration(self.path.clone())));
        assert(effects_view(effects@) =~= effects_view(old(effects)@) + self@.request_recorded());
    }

    /// The exchange at another phase.
    fn at(self, phase: DirectPhase) -> (exchange: DirectExchange)
        ensures
            exchange@ == self@.at(phase@),
    {
        DirectExchange { phase, ..self }
    }

    /// How far the exchange has come, and the rest of it.
    fn open(self) -> (opened: (DirectPhase, DirectExchange))
        ensures
            opened.0@ == self@.phase,
            opened.1@ == self@.at(DirectPhaseView::Failed),
    {
        let DirectExchange { path, request, request_id, api_key, prefill, decode, phase } = self;
        let exchange = DirectExchange {
            path,
            request,
            request_id,
            api_key,
            prefill,
            decode,
            phase: DirectPhase::Failed,
        };
        (phase, exchange)
    }

    /// The exchange fails, after some effects.
    fn fail(self, effects: Vec<Effect<String>>, message: String) -> (after: (DirectExchange, Step))
        ensures
            (after.0@, after.1@) == self@.fails(effects_view(effects@), message@),
    {
        let next = Next::Fail(ExchangeError::NetworkError { message });
        (self.at(DirectPhase::Failed), Step { effects, next })
    }

    /// The exchange fails in the prefill stage.
    fn fail_prefill(self, message: String) -> (after: (DirectExchange, Step))
        ensures
            (after.0@, after.1@) == self@.prefill_fails(message@),
    {
        let mut effects = vec![
            Effect::DecrementLoad(Stage::Prefill),
            Effect::Record(Metric::PrefillError(self.prefill.base_url.clone())),
        ];
        assert(effects_view(effects@) =~= seq![
            Effect::DecrementLoad(Stage::Prefill),
            Effect::Record(Metric::PrefillError(self@.prefill.base_url)),
        ]);
        self.record_request(&mut effects);
        self.fail(effects, message)
    }

    /// The exchange fails for want of an answer from the decode worker.
    fn fail_decode(self, message: String) -> (after: (DirectExchange, Step))
        ensures
            (after.0@, after.1@) == self@.decode_fails(message@),
    {
        let mut effects = vec![
            Effect::DecrementLoad(Stage::Decode),
            Effect::Record(Metric::DecodeError(self.decode.base_url.clone())),
        ];
        assert(effects_view(effects@) =~= seq![
            Effect::DecrementLoad(Stage::Decode),
            Effect::Record(Metric::DecodeError(self@.decode.base_url)),
        ]);
        self.record_request(&mut effects);
        let ghost recorded = effects_view(effects@);
        effects.push(Effect::Record(Metric::PrefillRequest(self.prefill.base_url.clone())));
        assert(effects_view(effects@) =~= recorded + seq![
            Effect::Record(Metric::PrefillRequest(self@.prefill.base_url)),
        ]);
        self.fail(effects, message)
    }

    /// The prefill worker has done its part.
    fn hand_over(self, prefill_response: Value) -> (after: (DirectExchange, Step))
        ensures
            (after.0@, after.1@) == self@.prefilled(json_view(prefill_response)),
    {
        let effects = vec![
            Effect::StopProfiling(self.prefill.base_url.clone()),
            Effect::DecrementLoad(Stage::Prefill),
            Effect::IncrementLoad(Stage::Decode),
            Effect::StartProfiling(self.decode.base_url.clone()),
        ];
        let call = Call {
            stage: Stage::Decode,
            url: self.decode.endpoint_url.clone(),
            headers: call_headers(Some(self.api_key.as_str()), self.request_id.as_str()),
            dp_rank: self.decode.dp_rank,
            body: CallBody::Json(prepare_decode_body(&self.request, &prefill_response)),
        };
        let step = Step { effects, next: Next::Send(call) };
        assert(step@.effects =~= self@.prefilled(json_view(prefill_response)).1.effects);
        (self.at(DirectPhase::AwaitDecode { prefill_response }), step)
    }

    /// The reply to the client.
    fn respond(head: &ResponseHead, body: ReplyBody) -> (reply: Reply)
        ensures
            reply@ == DirectView::reply(head@, body@),
    {
        Reply { status: head.status, headers: forwarded_headers(&head.headers), body }
    }

    /// The decode worker has answered.
    fn conclude(self, prefill_response: Value, head: ResponseHead) -> (after: (
        DirectExchange,
        Step,
    ))
        ensures
            (after.0@, after.1@) == self@.decoded(json_view(prefill_response), head@),
    {
        let mut effects = vec![
            Effect::StopProfiling(self.decode.base_url.clone()),
            Effect::DecrementLoad(Stage::Decode),
        ];
        assert(effects_view(effects@) =~= seq![
            Effect::StopProfiling(self@.decode.base_url),
            Effect::DecrementLoad(Stage::Decode),
        ]);
        self.record_request(&mut effects);
        let ghost recorded = effects_view(effects@);
        effects.push(Effect::Record(Metric::PrefillRequest(self.prefill.base_url.clone())));
        effects.push(Effect::Record(Metric::DecodeRequest(self.decode.base_url.clone())));
        if !head.is_success() {
            effects.push(Effect::Record(Metric::DecodeError(self.decode.base_url.clone())));
        }
        assert(effects_view(effects@) =~= self@.decoded_effects(head@));
        if needs_merged_logprobs(&self.request) {
            let phase = DirectPhase::AwaitDecodeBody { prefill_response, head };
            (self.at(phase), Step { effects, next: Next::ReadBody })
        } else {
            let reply = Self::respond(&head, ReplyBody::Stream);
            (self.at(DirectPhase::Responding), Step { effects, next: Next::Respond(reply) })
        }
    }

    /// Takes the exchange on once the prefill worker's answer has been read as JSON, or could not
    /// be.
    pub fn prefill_read(self, read: Result<Value, String>) -> (after: (DirectExchange, Step))
        requires
            self@.phase is AwaitPrefillBody,
        ensures
            (after.0@, after.1@) == self@.prefill_read(read_view(read)),
    {
        match read {
            Ok(prefill_response) => self.hand_over(prefill_response),
            Err(error) => self.fail_prefill(
                concat("Failed to parse prefill response as JSON: ", error.as_str()),
            ),
        }
    }

    /// Takes the exchange on once the decode worker's answer has been read as JSON, or could not
    /// be.
    pub fn decode_read(self, read: Result<Value, String>) -> (after: (DirectExchange, Step))
        requires
            self@.phase is AwaitDecodeBody,
        ensures
            (after.0@, after.1@) == self@.decode_read(read_view(read)),
    {
        let (phase, exchange) = self.open();
        let none: Vec<Effect<String>> = Vec::new();
        assert(effects_view(none@) =~= seq![]);
        match (phase, read) {
            (DirectPhase::AwaitDecodeBody { prefill_response, head }, Ok(decode)) => {
                let next = Next::MergeLogprobs { prefill: prefill_response, decode };
                (exchange.at(DirectPhase::AwaitMerge { head }), Step { effects: none, next })
            },
            (_, Err(error)) => exchange.fail(
                none,
                concat("Failed to parse decode response as JSON: ", error.as_str()),
            ),
            _ => unreached(),
        }
    }

    /// Takes the exchange on once the merged answer has been written, or could not be.
    pub fn merge_written(self, written: Result<Vec<u8>, String>) -> (after: (DirectExchange, Step))
        requires
            self@.phase is AwaitMerge,
        ensures
            (after.0@, after.1@) == self@.merge_written(bytes_view(written)),
    {
        let (phase, exchange) = self.open();
        let none: Vec<Effect<String>> = Vec::new();
        assert(effects_view(none@) =~= seq![]);
        match (phase, written) {
            (DirectPhase::AwaitMerge { head }, Ok(bytes)) => {
                let reply = Self::respond(&head, ReplyBody::Bytes(bytes));
                (
                    exchange.at(DirectPhase::Responding),
                    Step { effects: none, next: Next::Respond(reply) },
                )
            },
            (_, Err(error)) => exchange.fail(
                none,
                concat("Failed to serialize merged response: ", error.as_str()),
            ),
            _ => unreached(),
        }
    }

    /// Takes the exchange on after an event that it waits for: one that tells how what its last
    /// step said comes next has gone.
    pub fn step(self, event: Event) -> (after: (DirectExchange, Step))
        requires
            self@.expects(event@),
        ensures
            (after.0@, after.1@) == self@.step(event@),
    {
        let (phase, exchange) = self.open();
        let none: Vec<Effect<String>> = Vec::new();
        assert(effects_view(none@) =~= seq![]);
        match (phase, event) {
            (DirectPhase::AwaitPrefill, Event::Response(Ok(_))) => {
                (
                    exchange.at(DirectPhase::AwaitPrefillBody),
                    Step { effects: none, next: Next::ReadBody },
                )
            },
            (DirectPhase::AwaitPrefill, Event::Response(Err(error))) => {
                let message = concat4(
                    "Prefill request failed to ",
                    exchange.prefill.endpoint_url.as_str(),
                    ": ",
                    error.as_str(),
                );
                exchange.fail_prefill(message)
            },
            (DirectPhase::AwaitPrefillBody, Event::Body(Ok(bytes))) => {
                exchange.at(DirectPhase::AwaitPrefillBody).prefill_read(parse_bytes(&bytes))
            },
            (DirectPhase::AwaitPrefillBody, Event::Body(Err(error))) => {
                let message = concat4(
                    "Failed to read prefill response from ",
                    exchange.prefill.endpoint_url.as_str(),
                    ": ",
                    error.as_str(),
                );
                exchange.fail_prefill(message)
            },
            (DirectPhase::AwaitDecode { prefill_response }, Event::Response(Ok(head))) => {
                exchange.conclude(prefill_response, head)
            },
            (DirectPhase::AwaitDecode { prefill_response: _ }, Event::Response(Err(error))) => {
                let message = concat4(
                    "Decode request failed to ",
                    exchange.decode.endpoint_url.as_str(),
                    ": ",
                    error.as_str(),
                );
                exchange.fail_decode(message)
            },
            (
                DirectPhase::AwaitDecodeBody { prefill_response, head },
                Event::Body(Ok(bytes)),
            ) => {
                let phase = DirectPhase::AwaitDecodeBody { prefill_response, head };
                exchange.at(phase).decode_read(parse_bytes(&bytes))
            },
            (
                DirectPhase::AwaitDecodeBody { prefill_response: _, head: _ },
                Event::Body(Err(error)),
            ) => {
                let message = concat4(
                    "Failed to read decode response from ",
                    exchange.decode.endpoint_url.as_str(),
                    ": ",
                    error.as_str(),
                );
                exchange.fail(none, message)
            },
            (DirectPhase::AwaitMerge { head }, Event::Merged(merged)) => {
                exchange.at(DirectPhase::AwaitMerge { head }).merge_written(to_bytes(&merged))
            },
            (_, Event::BuildFailed(error)) => {
                let message = concat4(
                    "Failed to build response from ",
                    exchange.decode.endpoint_url.as_str(),
                    ": ",
                    error.as_str(),
                );
                exchange.fail(none, message)
            },
            _ => unreached(),
        }
    }
}

impl VllmPDRouter {
    /// Begins the exchange of a request with the two workers of known URLs that were selected for
    /// it, given the ZMQ addresses that service discovery announced for them, if any.
    pub fn process_vllm_two_stage_request(
        selected: Selected<DirectTarget>,
        prefill_zmq: Option<String>,
        decode_zmq: Option<String>,
        api_key: String,
    ) -> (begun: (DirectExchange, Step))
        ensures
            exists|uuid: Seq<char>| #[trigger]
                is_random_uuid(uuid) && begun.0@ == DirectView::start(
                    selected.route@.request,
                    selected.route@.path,
                    selected.prefill@,
                    selected.decode@,
                    api_key@,
                    request_id(
                        zmq_address(selected.prefill.base_url@, optional_text(prefill_zmq)),
                        zmq_address(selected.decode.base_url@, optional_text(decode_zmq)),
                        uuid,
                    ),
                ),
            begun.1@ == begun.0@.first_step(),
    {
        let Selected { route, prefill, decode } = selected;
        DirectExchange::begin(
            route.request,
            route.path,
            prefill,
            decode,
            prefill_zmq,
            decode_zmq,
            api_key,
        )
    }
}

/// The sums of the effects of a step from `before`.
proof fn lemma_sums_of_a_step(
    before: DirectView,
    event: EventView,
    stage: Stage,
    effect: Effect<Seq<char>>,
)
    requires
        before.expects(event),
    ensures
        ({
            let (now, step) = before.step(event);
            let p = before.prefill.base_url;
            let d = before.decode.base_url;
            &&& load(step.effects, stage) == once_if(now.is_with(stage)) - once_if(
                before.is_with(stage),
            )
            &&& effect == Effect::Record(Metric::Request(before.path)) || effect == Effect::Record(
                Metric::RequestDuration(before.path),
            ) ==> times(step.effects, effect) == once_if(now.is_measured()) - once_if(
                before.is_measured(),
            )
            &&& effect matches Effect::StartProfiling(url) ==> times(step.effects, effect)
                == once_if(now.is_with(Stage::Decode) && url == d)
            &&& effect matches Effect::StopProfiling(url) ==> times(step.effects, effect)
                == once_if(now.is_with(Stage::Decode) && url == p) + once_if(
                before.is_with(Stage::Decode) && !(now.phase is Failed) && url == d,
            )
        }),
{
    let p = before.prefill.base_url;
    let d = before.decode.base_url;
    let recorded = before.request_recorded();
    lemma_two_effects(
        Effect::Record(Metric::Request(before.path)),
        Effect::Record(Metric::RequestDuration(before.path)),
        stage,
        effect,
    );
    let (now, step) = before.step(event);
    if before.is_with(Stage::Prefill) && now.phase is Failed {
        let head = seq![
            Effect::DecrementLoad(Stage::Prefill),
            Effect::Record(Metric::PrefillError(p)),
        ];
        lemma_two_effects(head[0], head[1], stage, effect);
        lemma_effects_add_up(head, recorded, stage, effect);
    } else if now.is_with(Stage::Decode) {
        let a = seq![Effect::StopProfiling(p), Effect::DecrementLoad(Stage::Prefill)];
        let b = seq![Effect::IncrementLoad(Stage::Decode), Effect::StartProfiling(d)];
        lemma_two_effects(a[0], a[1], stage, effect);
        lemma_two_effects(b[0], b[1], stage, effect);
        lemma_effects_add_up(a, b, stage, effect);
        assert(step.effects =~= a + b);
    } else if before.is_with(Stage::Decode) && now.phase is Failed {
        let head = seq![
            Effect::DecrementLoad(Stage::Decode),
            Effect::Record(Metric::DecodeError(d)),
        ];
        let tail = Effect::Record(Metric::PrefillRequest(p));
        lemma_two_effects(head[0], head[1], stage, effect);
        lemma_one_effect(tail, stage, effect);
        lemma_effects_add_up(head, recorded, stage, effect);
        lemma_effects_add_up(head + recorded, seq![tail], stage, effect);
    } else if before.is_with(Stage::Decode) {
        let head = seq![Effect::StopProfiling(d), Effect::DecrementLoad(Stage::Decode)];
        let served = seq![
            Effect::Record(Metric::PrefillRequest(p)),
            Effect::Record(Metric::DecodeRequest(d)),
        ];
        let error = Effect::Record(Metric::DecodeError(d));
        lemma_two_effects(head[0], head[1], stage, effect);
        lemma_two_effects(served[0], served[1], stage, effect);
        lemma_one_effect(error, stage, effect);
        lemma_effects_add_up(head, recorded, stage, effect);
        lemma_effects_add_up(head + recorded, served, stage, effect);
        lemma_effects_add_up(head + recorded + served, seq![error], stage, effect);
        lemma_effects_add_up(head + recorded + served, seq![], stage, effect);
    }
}

/// Whatever happens, and at every moment of it, the exchange counts once in the load of the
/// prefill worker while that worker has the request in hand, once in that of the decode worker
/// while that one has it, and otherwise not at all. An exchange that is over, by a reply or by a
/// failure, leaves both loads as it found them.
pub proof fn law_load_follows_the_request(start: DirectView, events: Seq<EventView>, stage: Stage)
    requires
        start.phase is AwaitPrefill,
        start.admits(events),
    ensures
        load(start.run(events).1, stage) == once_if(start.run(events).0.is_with(stage)),
    decreases events.len(),
{
    let any = Effect::StartProfiling(start.path);
    if events.len() == 0 {
        let first = start.first_step().effects;
        lemma_two_effects(first[0], first[1], stage, any);
    } else {
        let (before, effects) = start.run(events.drop_last());
        law_load_follows_the_request(start, events.drop_last(), stage);
        lemma_effects_add_up(effects, before.step(events.last()).1.effects, stage, any);
        lemma_sums_of_a_step(before, events.last(), stage, any);
    }
}

/// Whatever happens, the exchange goes on with the same client request, workers, key and id.
pub proof fn law_exchange_keeps_its_terms(start: DirectView, events: Seq<EventView>)
    requires
        start.admits(events),
    ensures
        start.run(events).0 == start.at(start.run(events).0.phase),
    decreases events.len(),
{
    if events.len() > 0 {
        law_exchange_keeps_its_terms(start, events.drop_last());
    }
}

/// Whatever happens, an exchange is recorded with its duration once, when no worker has it in
/// hand any more: by a reply, or by a failure in either stage.
pub proof fn law_exchange_is_measured_once(start: DirectView, events: Seq<EventView>)
    requires
        start.phase is AwaitPrefill,
        start.admits(events),
    ensures
        times(start.run(events).1, Effect::Record(Metric::Request(start.path))) == once_if(
            start.run(events).0.is_measured(),
        ),
        times(start.run(events).1, Effect::Record(Metric::RequestDuration(start.path))) == once_if(
            start.run(events).0.is_measured(),
        ),
    decreases events.len(),
{
    let request = Effect::Record(Metric::Request(start.path));
    let duration = Effect::Record(Metric::RequestDuration(start.path));
    if events.len() == 0 {
        let first = start.first_step().effects;
        lemma_two_effects(first[0], first[1], Stage::Prefill, request);
        lemma_two_effects(first[0], first[1], Stage::Prefill, duration);
    } else {
        let (before, effects) = start.run(events.drop_last());
        let more = before.step(events.last()).1.effects;
        law_exchange_is_measured_once(start, events.drop_last());
        law_exchange_keeps_its_terms(start, events.drop_last());
        lemma_effects_add_up(effects, more, Stage::Prefill, request);
        lemma_effects_add_up(effects, more, Stage::Prefill, duration);
        lemma_sums_of_a_step(before, events.last(), Stage::Prefill, request);
        lemma_sums_of_a_step(before, events.last(), Stage::Prefill, duration);
    }
}

/// The records of a step from `before`, of the workers' requests and errors.
proof fn lemma_records_of_a_step(
    before: DirectView,
    event: EventView,
    url: Seq<char>,
    metric: Metric<Seq<char>>,
)
    requires
        before.expects(event),
    ensures
        ({
            let (now, step) = before.step(event);
            let p = url == before.prefill.base_url;
            let d = url == before.decode.base_url;
            let recorded = times(step.effects, Effect::Record(metric));
            let answer = before.phase is AwaitDecode;
            &&& metric == Metric::PrefillError(url) ==> recorded == once_if(
                p && before.is_with(Stage::Prefill) && now.phase is Failed,
            )
            &&& metric == Metric::DecodeError(url) ==> recorded == once_if(
                d && answer && !event.is_success(),
            )
            &&& metric == Metric::PrefillRequest(url) ==> recorded == once_if(p && answer)
            &&& metric == Metric::DecodeRequest(url) ==> recorded == once_if(
                d && answer && event->Response_0 is Ok,
            )
            &&& metric is Error ==> recorded == 0
        }),
{
    let effect = Effect::Record(metric);
    let stage = Stage::Prefill;
    let p = before.prefill.base_url;
    let d = before.decode.base_url;
    let recorded = before.request_recorded();
    lemma_two_effects(recorded[0], recorded[1], stage, effect);
    let (now, step) = before.step(event);
    if before.is_with(Stage::Prefill) && now.phase is Failed {
        let head = seq![
            Effect::DecrementLoad(Stage::Prefill),
            Effect::Record(Metric::PrefillError(p)),
        ];
        lemma_two_effects(head[0], head[1], stage, effect);
        lemma_effects_add_up(head, recorded, stage, effect);
    } else if now.is_with(Stage::Decode) {
        let a = seq![Effect::StopProfiling(p), Effect::DecrementLoad(Stage::Prefill)];
        let b = seq![Effect::IncrementLoad(Stage::Decode), Effect::StartProfiling(d)];
        lemma_two_effects(a[0], a[1], stage, effect);
        lemma_two_effects(b[0], b[1], stage, effect);
        lemma_effects_add_up(a, b, stage, effect);
        assert(step.effects =~= a + b);
    } else if before.is_with(Stage::Decode) && now.phase is Failed {
        let head = seq![
            Effect::DecrementLoad(Stage::Decode),
            Effect::Record(Metric::DecodeError(d)),
        ];
        let tail = Effect::Record(Metric::PrefillRequest(p));
        lemma_two_effects(head[0], head[1], stage, effect);
        lemma_one_effect(tail, stage, effect);
        lemma_effects_add_up(head, recorded, stage, effect);
        lemma_effects_add_up(head + recorded, seq![tail], stage, effect);
    } else if before.is_with(Stage::Decode) {
        let head = seq![Effect::StopProfiling(d), Effect::DecrementLoad(Stage::Decode)];
        let served = seq![
            Effect::Record(Metric::PrefillRequest(p)),
            Effect::Record(Metric::DecodeRequest(d)),
        ];
        let error = Effect::Record(Metric::DecodeError(d));
        lemma_two_effects(head[0], head[1], stage, effect);
        lemma_two_effects(served[0], served[1], stage, effect);
        lemma_one_effect(error, stage, effect);
        lemma_effects_add_up(head, recorded, stage, effect);
        lemma_effects_add_up(head + recorded, served, stage, effect);
        lemma_effects_add_up(head + recorded + served, seq![error], stage, effect);
        lemma_effects_add_up(head + recorded + served, seq![], stage, effect);
    }
}

/// Whatever happens, an error of the prefill worker is recorded once where the prefill stage has
/// failed, and one of the decode worker once where that could not be reached or has not answered
/// with success; the prefill worker's request is recorded once the decode worker has been called
/// and the call is over, and the decode worker's once it has answered. No other worker, and no
/// failure of the router, is recorded: after a failure of the prefill stage, nothing of the decode
/// worker is.
pub proof fn law_workers_are_recorded(
    start: DirectView,
    events: Seq<EventView>,
    url: Seq<char>,
    kind: Seq<char>,
)
    requires
        start.phase is AwaitPrefill,
        start.admits(events),
    ensures
        ({
            let (now, effects) = start.run(events);
            let p = url == start.prefill.base_url;
            let d = url == start.decode.base_url;
            &&& times(effects, Effect::Record(Metric::PrefillError(url))) == once_if(
                p && now.phase is Failed && start.run(events.drop_last()).0.is_with(Stage::Prefill),
            )
            &&& times(effects, Effect::Record(Metric::DecodeError(url))) == once_if(
                d && events.len() >= 3 && !events[2].is_success(),
            )
            &&& times(effects, Effect::Record(Metric::PrefillRequest(url))) == once_if(
                p && events.len() >= 3,
            )
            &&& times(effects, Effect::Record(Metric::DecodeRequest(url))) == once_if(
                d && events.len() >= 3 && events[2]->Response_0 is Ok,
            )
            &&& times(effects, Effect::Record(Metric::Error(kind))) == 0
            &&& now.phase is Failed && start.run(events.drop_last()).0.is_with(Stage::Prefill)
                ==> events.len() <= 2
        }),
    decreases events.len(),
{
    let stage = Stage::Prefill;
    let metrics = seq![
        Metric::PrefillError(url),
        Metric::DecodeError(url),
        Metric::PrefillRequest(url),
        Metric::DecodeRequest(url),
        Metric::Error(kind),
    ];
    if events.len() == 0 {
        let first = start.first_step().effects;
        assert forall|i: int| 0 <= i < 5 implies times(
            start.run(events).1,
            Effect::Record(#[trigger] metrics[i]),
        ) == 0 by {
            lemma_two_effects(first[0], first[1], stage, Effect::Record(metrics[i]));
        }
        assert(metrics[0] is PrefillError && metrics[1] is DecodeError);
        assert(metrics[2] is PrefillRequest && metrics[3] is DecodeRequest && metrics[4] is Error);
    } else {
        let rest = events.drop_last();
        let (before, effects) = start.run(rest);
        let more = before.step(events.last()).1.effects;
        law_workers_are_recorded(start, rest, url, kind);
        law_exchange_keeps_its_terms(start, rest);
        lemma_history(start, rest);
        assert(forall|i: int| 0 <= i < rest.len() ==> rest[i] == events[i]);
        lemma_effects_add_up(effects, more, stage, Effect::Record(metrics[0]));
        lemma_effects_add_up(effects, more, stage, Effect::Record(metrics[1]));
        lemma_effects_add_up(effects, more, stage, Effect::Record(metrics[2]));
        lemma_effects_add_up(effects, more, stage, Effect::Record(metrics[3]));
        lemma_effects_add_up(effects, more, stage, Effect::Record(metrics[4]));
        lemma_records_of_a_step(before, events.last(), url, metrics[0]);
        lemma_records_of_a_step(before, events.last(), url, metrics[1]);
        lemma_records_of_a_step(before, events.last(), url, metrics[2]);
        lemma_records_of_a_step(before, events.last(), url, metrics[3]);
        lemma_records_of_a_step(before, events.last(), url, metrics[4]);
    }
}

/// Whatever happens, a worker is profiled by this exchange while it has the request in hand, and
/// not otherwise, unless the exchange fails there: the worker that had the request in hand then is
/// profiled on, until its time is up.
pub proof fn law_profiling_follows_the_request(
    start: DirectView,
    events: Seq<EventView>,
    url: Seq<char>,
)
    requires
        start.phase is AwaitPrefill,
        start.admits(events),
    ensures
        ({
            let (now, effects) = start.run(events);
            let last = if now.phase is Failed {
                start.run(events.drop_last()).0
            } else {
                now
            };
            profiled(effects, url) == once_if(
                last.is_with(Stage::Prefill) && url == start.prefill.base_url,
            ) + once_if(last.is_with(Stage::Decode) && url == start.decode.base_url)
        }),
    decreases events.len(),
{
    let begun = Effect::StartProfiling(url);
    let ended = Effect::StopProfiling(url);
    if events.len() == 0 {
        let first = start.first_step().effects;
        lemma_two_effects(first[0], first[1], Stage::Prefill, begun);
        lemma_two_effects(first[0], first[1], Stage::Prefill, ended);
    } else {
        let (before, effects) = start.run(events.drop_last());
        let more = before.step(events.last()).1.effects;
        law_profiling_follows_the_request(start, events.drop_last(), url);
        law_exchange_keeps_its_terms(start, events.drop_last());
        lemma_effects_add_up(effects, more, Stage::Prefill, begun);
        lemma_effects_add_up(effects, more, Stage::Prefill, ended);
        lemma_sums_of_a_step(before, events.last(), Stage::Prefill, begun);
        lemma_sums_of_a_step(before, events.last(), Stage::Prefill, ended);
    }
}

/// Whatever has happened, the events that the exchange waits for are those that answer what its
/// last step said comes next; after a failure it waits for none.
pub proof fn law_next_names_the_event(
    start: DirectView,
    events: Seq<EventView>,
    event: EventView,
    later: EventView,
)
    requires
        start.phase is AwaitPrefill,
        start.admits(events.push(event)),
    ensures
        start.expects(later) == start.first_step().next.is_answered_by(later),
        ({
            let (now, step) = start.run(events).0.step(event);
            now.expects(later) == step.next.is_answered_by(later)
        }),
{
    assert(events.push(event).drop_last() =~= events);
}

/// Whatever has happened, a further call goes to the decode worker, with the header lines, and
/// so the request id, that the prefill worker was called with; and its body is the client's
/// request with what the prefill worker's JSON response has to hand on.
pub proof fn law_both_workers_get_the_same_id(
    start: DirectView,
    events: Seq<EventView>,
    event: EventView,
)
    requires
        start.phase is AwaitPrefill,
        start.admits(events.push(event)),
    ensures
        start.run(events).0.step(event).1.next matches NextView::Send(call) ==> {
            &&& call.stage == Stage::Decode
            &&& call.url == start.decode.endpoint_url
            &&& call.headers == start.prefill_call().headers
            &&& call.headers.contains(("X-Request-Id"@, start.request_id))
            &&& event matches EventView::Body(Ok(bytes)) && parsed_bytes(bytes) matches Ok(
                prefill_response,
            ) && call.body == CallBodyView::Json(decode_body(start.request, prefill_response))
        },
{
    assert(events.push(event).drop_last() =~= events);
    law_exchange_keeps_its_terms(start, events);
    let headers = start.prefill_call().headers;
    assert(headers[2] == ("X-Request-Id"@, start.request_id));
}

/// What has happened in an exchange, by how far it has come.
proof fn lemma_history(start: DirectView, events: Seq<EventView>)
    requires
        start.phase is AwaitPrefill,
        start.admits(events),
    ensures
        match start.run(events).0.phase {
            DirectPhaseView::AwaitPrefill => events.len() == 0,
            DirectPhaseView::AwaitPrefillBody => events.len() == 1,
            DirectPhaseView::AwaitDecode { prefill_response } => {
                &&& events.len() == 2
                &&& events[1] matches EventView::Body(Ok(bytes)) && parsed_bytes(bytes) == Ok::<
                    JsonView,
                    Seq<char>,
                >(prefill_response)
            },
            DirectPhaseView::AwaitDecodeBody { prefill_response, head } => {
                &&& events.len() == 3
                &&& events[1] matches EventView::Body(Ok(bytes)) && parsed_bytes(bytes) == Ok::<
                    JsonView,
                    Seq<char>,
                >(prefill_response)
                &&& events[2] == EventView::Response(Ok(head))
                &&& merges_logprobs(start.request)
            },
            DirectPhaseView::AwaitMerge { head } => {
                &&& events.len() == 4
                &&& events[2] == EventView::Response(Ok(head))
                &&& merges_logprobs(start.request)
            },
            DirectPhaseView::Responding => 3 <= events.len() <= 5,
            DirectPhaseView::Failed => events.len() <= 6,
        },
    decreases events.len(),
{
    if events.len() > 0 {
        let before = events.drop_last();
        lemma_history(start, before);
        law_exchange_keeps_its_terms(start, before);
        assert(forall|i: int| 0 <= i < before.len() ==> before[i] == events[i]);
    }
}

/// Whatever has happened, the log probabilities that are merged are those of the two workers'
/// JSON answers, in that order, and the client has asked for them.
pub proof fn law_both_answers_are_merged(
    start: DirectView,
    events: Seq<EventView>,
    event: EventView,
)
    requires
        start.phase is AwaitPrefill,
        start.admits(events.push(event)),
    ensures
        start.run(events).0.step(event).1.next matches NextView::MergeLogprobs { prefill, decode }
            ==> {
            &&& merges_logprobs(start.request)
            &&& events.len() == 3
            &&& events[1] matches EventView::Body(Ok(bytes)) && parsed_bytes(bytes) == Ok::<
                JsonView,
                Seq<char>,
            >(prefill)
            &&& event matches EventView::Body(Ok(bytes)) && parsed_bytes(bytes) == Ok::<
                JsonView,
                Seq<char>,
            >(decode)
        },
{
    assert(events.push(event).drop_last() =~= events);
    lemma_history(start, events);
}

/// Whatever has happened, a reply has the status of the decode worker's answer and its header
/// lines, but for those that speak of how a body was sent. Its body is what the decode worker
/// sends, as it comes, unless log probabilities are to be merged: then it is the merged document.
pub proof fn law_reply_is_the_decode_workers(
    start: DirectView,
    events: Seq<EventView>,
    event: EventView,
)
    requires
        start.phase is AwaitPrefill,
        start.admits(events.push(event)),
    ensures
        start.run(events).0.step(event).1.next matches NextView::Respond(reply) ==> {
            &&& events.push(event).len() >= 3
            &&& events.push(event)[2] matches EventView::Response(Ok(head)) && reply.status
                == head.status && reply.headers == head.headers.filter(
                |line: (Seq<char>, Seq<u8>)| is_forwarded(line),
            )
            &&& reply.body is Stream <==> !merges_logprobs(start.request)
            &&& reply.body matches ReplyBodyView::Bytes(bytes) ==> event matches EventView::Merged(
                merged,
            ) && json_bytes(merged) == Ok::<Seq<u8>, Seq<char>>(bytes)
            &&& forall|i: int| 0 <= i < reply.headers.len() ==> is_forwarded(
                #[trigger] reply.headers[i],
            )
        },
{
    assert(events.push(event).drop_last() =~= events);
    law_exchange_keeps_its_terms(start, events);
    lemma_history(start, events);
    if let NextView::Respond(reply) = start.run(events).0.step(event).1.next {
        let head = events.push(event)[2]->Response_0->Ok_0;
        lemma_filter_keeps(head.headers, |line: (Seq<char>, Seq<u8>)| is_forwarded(line));
    }
}

/// Any request on any path is taken through both stages: where both workers answer, and with JSON
/// wherever it is read, the prefill worker is called, then the decode worker, and the client gets a
/// reply; where log probabilities are to be merged, once the decode worker's body has been read
/// and merged.
pub proof fn law_any_request_is_served(
    start: DirectView,
    first: ResponseHeadView,
    bytes: Seq<u8>,
    second: ResponseHeadView,
    body: Seq<u8>,
    merged: JsonView,
)
    requires
        start.phase is AwaitPrefill,
        parsed_bytes(bytes) is Ok,
        merges_logprobs(start.request) ==> parsed_bytes(body) is Ok && json_bytes(merged) is Ok,
    ensures
        ({
            let answered = seq![EventView::Response(Ok(first))];
            let called = answered.push(EventView::Body(Ok(bytes)));
            let decoded = called.push(EventView::Response(Ok(second)));
            let read = decoded.push(EventView::Body(Ok(body)));
            let last = start.run(called).0.step(EventView::Response(Ok(second))).1.next;
            &&& start.admits(decoded)
            &&& start.first_step().next matches NextView::Send(call) && call.stage == Stage::Prefill
            &&& start.run(answered).0.step(EventView::Body(Ok(bytes))).1.next matches NextView::Send(
                call,
            ) && call.stage == Stage::Decode
            &&& if merges_logprobs(start.request) {
                &&& last is ReadBody
                &&& start.admits(read.push(EventView::Merged(merged)))
                &&& start.run(decoded).0.step(EventView::Body(Ok(body))).1.next is MergeLogprobs
                &&& start.run(read).0.step(EventView::Merged(merged)).1.next is Respond
            } else {
                last is Respond
            }
        }),
{
    reveal_with_fuel(DirectView::run, 6);
    reveal_with_fuel(DirectView::admits, 6);
    let none: Seq<EventView> = seq![];
    let answered = seq![EventView::Response(Ok(first))];
    let called = answered.push(EventView::Body(Ok(bytes)));
    let decoded = called.push(EventView::Response(Ok(second)));
    let read = decoded.push(EventView::Body(Ok(body)));
    assert(answered.drop_last() =~= none);
    assert(called.drop_last() =~= answered);
    assert(decoded.drop_last() =~= called);
    assert(read.drop_last() =~= decoded);
    assert(read.push(EventView::Merged(merged)).drop_last() =~= read);
}

/// No exchange waits for more than six events.
pub proof fn law_exchange_ends(start: DirectView, events: Seq<EventView>)
    requires
        start.phase is AwaitPrefill,
        start.admits(events),
    ensures
        events.len() <= 6,
{
    lemma_history(start, events);
}

} // verus!
