//! The exchange with two workers that service discovery announced: the prompt goes to the prefill
//! worker, what that worker computed goes on to the decode worker, and the reply comes from
//! there.
use crate::discovery::{http_address, http_url, schemeless};
use crate::exchange::{
    call_header_lines, call_headers, effects_view, lemma_effects_add_up, lemma_one_effect,
    lemma_two_effects, load, once_if, profiled, show_status, status_line, times, Call, CallBody, CallBodyView,
    CallView, Effect, Event, EventView, ExchangeError, Metric, Next, NextView, Reply, ReplyBody,
    ReplyBodyView, ReplyView, ResponseHead, ResponseHeadView, Stage, Step, StepView,
};
use crate::json::{
    bytes_view, json_bytes, json_text, json_view, parse_bytes, parse_text, parsed_bytes,
    parsed_text, read_view, text_view, to_bytes, to_text, JsonView,
};
use crate::request::{
    decode_body, merges_logprobs, needs_merged_logprobs, prefill_body, prepare_decode_body,
    prepare_prefill_body,
};
use crate::request_id::{is_random_uuid, request_id};
use crate::router::VllmPDRouter;
use crate::routing::Selected;
use crate::text::{concat, concat4};
use serde_json::Value;
use vstd::pervasive::unreached;
use vstd::prelude::*;

verus! {

/// A worker that service discovery announced.
pub struct DiscoveredTarget {
    /// The HTTP address under which the worker was announced.
    pub http: String,
    /// The HTTP address of the worker, without a rank.
    pub address: String,
    /// The rank of the worker among those that share its address, if it has one.
    pub dp_rank: Option<usize>,
}

/// The view of a `DiscoveredTarget`.
pub struct DiscoveredTargetView {
    pub http: Seq<char>,
    pub address: Seq<char>,
    pub dp_rank: Option<usize>,
}

impl View for DiscoveredTarget {
    type V = DiscoveredTargetView;

    open spec fn view(&self) -> DiscoveredTargetView {
        DiscoveredTargetView {
            http: self.http@,
            address: self.address@,
            dp_rank: self.dp_rank,
        }
    }
}

impl DiscoveredTargetView {
    /// The URL of the worker.
    pub open spec fn url(self) -> Seq<char> {
        "http://"@ + self.address
    }

    /// The worker of an announced address: the address itself, or, where a rank was split off
    /// its URL, what is left of that.
    pub open spec fn of(http: Seq<char>, split: Option<(Seq<char>, Option<usize>)>) -> Self {
        match split {
            Some((base, rank)) => DiscoveredTargetView {
                http,
                address: schemeless(base),
                dp_rank: rank,
            },
            None => DiscoveredTargetView { http, address: http, dp_rank: None },
        }
    }
}

impl VllmPDRouter {
    /// The URL off which a rank is to be split, where addresses have ranks.
    pub fn rank_query(&self, http: &str) -> (query: Option<String>)
        ensures
            match query {
                Some(url) => self@.intra_node_data_parallel_size > 1 && url@ == "http://"@ + http@,
                None => self@.intra_node_data_parallel_size <= 1,
            },
    {
        if self.is_dp_aware() {
            Some(http_url(http))
        } else {
            None
        }
    }

    /// The worker of an announced address, given the URL and the rank that `rank_query` was
    /// split into.
    pub fn discovered_target(http: String, split: Option<(String, Option<usize>)>) -> (target:
        DiscoveredTarget)
        ensures
            target@ == DiscoveredTargetView::of(http@, split_view(split)),
    {
        match split {
            Some((base, dp_rank)) => DiscoveredTarget {
                http,
                address: http_address(base.as_str()),
                dp_rank,
            },
            None => DiscoveredTarget { address: http.clone(), http, dp_rank: None },
        }
    }
}

/// The view of a URL and the rank that was split off it, where one was to be.
pub open spec fn split_view(split: Option<(String, Option<usize>)>) -> Option<
    (Seq<char>, Option<usize>),
> {
    match split {
        Some((base, rank)) => Some((base@, rank)),
        None => None,
    }
}

impl VllmPDRouter {
    /// Begins the exchange of a request with the two announced workers that were selected for it,
    /// each by its HTTP and its ZMQ address. A worker is called at its HTTP address, off which
    /// `split` took the rank where it has one, and goes into the request id with its ZMQ address.
    pub fn process_vllm_two_stage_request_discovered(
        selected: Selected<(String, String)>,
        prefill_split: Option<(String, Option<usize>)>,
        decode_split: Option<(String, Option<usize>)>,
    ) -> (begun: (DiscoveredExchange, Step))
        ensures
            exists|uuid: Seq<char>| #[trigger]
                is_random_uuid(uuid) && (begun.0@, begun.1@) == DiscoveredView::terms(
                    selected.route@.request,
                    selected.route@.path,
                    DiscoveredTargetView::of(selected.prefill.0@, split_view(prefill_split)),
                    DiscoveredTargetView::of(selected.decode.0@, split_view(decode_split)),
                    request_id(selected.prefill.1@, selected.decode.1@, uuid),
                ).first_step(),
    {
        let Selected { route, prefill, decode } = selected;
        let (prefill_http, prefill_zmq) = prefill;
        let (decode_http, decode_zmq) = decode;
        DiscoveredExchange::begin(
            route.request,
            route.path,
            Self::discovered_target(prefill_http, prefill_split),
            Self::discovered_target(decode_http, decode_split),
            prefill_zmq.as_str(),
            decode_zmq.as_str(),
        )
    }
}

/// How the client is told of a refusal by the prefill worker: with its status and, as far as it
/// could be read, its text.
pub open spec fn refusal_message(line: Seq<char>, read: Result<Seq<char>, Seq<char>>) -> Seq<char> {
    "Prefill server error "@ + line + ": "@ + match read {
        Ok(text) => text,
        Err(_) => seq![],
    }
}

/// How the client is told of a refusal by the prefill worker, whose status is shown as `line`.
pub fn refusal_text(line: &str, read: Result<String, String>) -> (text: String)
    ensures
        text@ == refusal_message(line@, text_view(read)),
{
    let said = match read {
        Ok(text) => text,
        Err(_) => String::new(),
    };
    concat4("Prefill server error ", line, ": ", said.as_str())
}

/// How far an exchange has come.
enum DiscoveredPhase {
    AwaitPrefill,
    AwaitPrefillText,
    AwaitRefusal { status: u16 },
    AwaitDecode { prefill_response: Value },
    AwaitDecodeBody { prefill_response: Value, head: ResponseHead },
    AwaitMerge { head: ResponseHead },
    Responding,
    Failed,
}

/// The view of how far an exchange has come.
pub enum DiscoveredPhaseView {
    /// The prefill request is on its way.
    AwaitPrefill,
    /// The prefill worker has answered; its text is being read.
    AwaitPrefillText,
    /// The prefill worker has refused; what it says is being read.
    AwaitRefusal { status: u16 },
    /// The decode request is on its way.
    AwaitDecode { prefill_response: JsonView },
    /// The decode worker has answered; its body is being read.
    AwaitDecodeBody { prefill_response: JsonView, head: ResponseHeadView },
    /// The log probabilities of the two workers are being merged.
    AwaitMerge { head: ResponseHeadView },
    /// The reply is on its way to the client.
    Responding,
    /// The exchange has failed.
    Failed,
}

/// An exchange with two workers that service discovery announced.
pub struct DiscoveredExchange {
    path: String,
    request: Value,
    request_id: String,
    prefill: DiscoveredTarget,
    decode: DiscoveredTarget,
    phase: DiscoveredPhase,
}

/// The view of a `DiscoveredExchange`.
pub struct DiscoveredView {
    pub path: Seq<char>,
    pub request: JsonView,
    pub request_id: Seq<char>,
    pub prefill: DiscoveredTargetView,
    pub decode: DiscoveredTargetView,
    pub phase: DiscoveredPhaseView,
}

impl View for DiscoveredPhase {
    type V = DiscoveredPhaseView;

    closed spec fn view(&self) -> DiscoveredPhaseView {
        match self {
            DiscoveredPhase::AwaitPrefill => DiscoveredPhaseView::AwaitPrefill,
            DiscoveredPhase::AwaitPrefillText => DiscoveredPhaseView::AwaitPrefillText,
            DiscoveredPhase::AwaitRefusal { status } => DiscoveredPhaseView::AwaitRefusal {
                status: *status,
            },
            DiscoveredPhase::AwaitDecode { prefill_response } => DiscoveredPhaseView::AwaitDecode {
                prefill_response: json_view(*prefill_response),
            },
            DiscoveredPhase::AwaitDecodeBody { prefill_response, head } => DiscoveredPhaseView::AwaitDecodeBody {
                prefill_response: json_view(*prefill_response),
                head: head@,
            },
            DiscoveredPhase::AwaitMerge { head } => DiscoveredPhaseView::AwaitMerge { head: head@ },
            DiscoveredPhase::Responding => DiscoveredPhaseView::Responding,
            DiscoveredPhase::Failed => DiscoveredPhaseView::Failed,
        }
    }
}

impl View for DiscoveredExchange {
    type V = DiscoveredView;

    closed spec fn view(&self) -> DiscoveredView {
        DiscoveredView {
            path: self.path@,
            request: json_view(self.request),
            request_id: self.request_id@,
            prefill: self.prefill@,
            decode: self.decode@,
            phase: self.phase@,
        }
    }
}

impl DiscoveredView {
    /// The exchange before anything has happened.
    pub open spec fn terms(
        request: JsonView,
        path: Seq<char>,
        prefill: DiscoveredTargetView,
        decode: DiscoveredTargetView,
        request_id: Seq<char>,
    ) -> DiscoveredView {
        DiscoveredView {
            path,
            request,
            request_id,
            prefill,
            decode,
            phase: DiscoveredPhaseView::AwaitPrefill,
        }
    }

    /// The call of a stage, with a body.
    pub open spec fn call(self, stage: Stage, body: Seq<char>) -> CallView {
        let target = match stage {
            Stage::Prefill => self.prefill,
            Stage::Decode => self.decode,
        };
        CallView {
            stage,
            url: target.url() + self.path,
            headers: call_header_lines(None, self.request_id),
            dp_rank: target.dp_rank,
            body: CallBodyView::Text(body),
        }
    }

    /// The exchange at its start, and its first step: the prefill worker is profiled and called,
    /// unless its request cannot be written.
    pub open spec fn first_step(self) -> (DiscoveredView, StepView) {
        self.prefill_written(json_text(prefill_body(self.request, self.path)))
    }

    /// The first step, once the prefill request has been written, or could not be.
    pub open spec fn prefill_written(self, written: Result<Seq<char>, Seq<char>>) -> (
        DiscoveredView,
        StepView,
    ) {
        match written {
            Ok(body) => (
                self,
                StepView {
                    effects: seq![Effect::StartProfiling(self.prefill.url())],
                    next: NextView::Send(self.call(Stage::Prefill, body)),
                },
            ),
            Err(error) => self.fails(seq![], "Failed to serialize prefill request: "@ + error),
        }
    }

    /// The exchange at another phase.
    pub open spec fn at(self, phase: DiscoveredPhaseView) -> DiscoveredView {
        DiscoveredView { phase, ..self }
    }

    /// The exchange fails, after some effects.
    pub open spec fn fails(self, effects: Seq<Effect<Seq<char>>>, message: Seq<char>) -> (
        DiscoveredView,
        StepView,
    ) {
        (
            self.at(DiscoveredPhaseView::Failed),
            StepView { effects, next: NextView::Fail(ExchangeError::Message(message)) },
        )
    }

    /// The request and its duration are recorded.
    pub open spec fn request_recorded(self) -> Seq<Effect<Seq<char>>> {
        seq![
            Effect::Record(Metric::Request(self.path)),
            Effect::Record(Metric::RequestDuration(self.path)),
        ]
    }

    /// What a failure of the prefill worker brings about.
    pub open spec fn prefill_error_recorded(self) -> Seq<Effect<Seq<char>>> {
        seq![Effect::Record(Metric::PrefillError(self.prefill.http))] + self.request_recorded()
    }

    /// What a failure to reach the decode worker brings about.
    pub open spec fn decode_error_recorded(self) -> Seq<Effect<Seq<char>>> {
        seq![Effect::Record(Metric::DecodeError(self.decode.http))] + self.request_recorded()
            + seq![Effect::Record(Metric::PrefillRequest(self.prefill.http))]
    }

    /// The prefill worker has done its part: profiling passes from it to the decode worker, which
    /// is called, unless its request cannot be written.
    pub open spec fn prefilled(self, prefill_response: JsonView) -> (DiscoveredView, StepView) {
        self.decode_written(
            prefill_response,
            json_text(decode_body(self.request, prefill_response)),
        )
    }

    /// The prefill worker has done its part, and the decode request has been written, or could
    /// not be.
    pub open spec fn decode_written(
        self,
        prefill_response: JsonView,
        written: Result<Seq<char>, Seq<char>>,
    ) -> (DiscoveredView, StepView) {
        match written {
            Ok(body) => (
                self.at(DiscoveredPhaseView::AwaitDecode { prefill_response }),
                StepView {
                    effects: seq![
                        Effect::StopProfiling(self.prefill.url()),
                        Effect::StartProfiling(self.decode.url()),
                    ],
                    next: NextView::Send(self.call(Stage::Decode, body)),
                },
            ),
            Err(error) => self.fails(seq![], "Failed to serialize decode request: "@ + error),
        }
    }

    /// The prefill worker's answer has been read as JSON, or could not be.
    pub open spec fn prefill_read(self, read: Result<JsonView, Seq<char>>) -> (
        DiscoveredView,
        StepView,
    ) {
        match read {
            Ok(prefill_response) => self.prefilled(prefill_response),
            Err(error) => self.fails(
                seq![],
                "Failed to parse prefill response as JSON: "@ + error,
            ),
        }
    }

    /// The decode worker's answer has been read as JSON, or could not be: the log probabilities
    /// are to be merged.
    pub open spec fn decode_read(self, read: Result<JsonView, Seq<char>>) -> (
        DiscoveredView,
        StepView,
    ) {
        match (self.phase, read) {
            (DiscoveredPhaseView::AwaitDecodeBody { prefill_response, head }, Ok(decode)) => (
                self.at(DiscoveredPhaseView::AwaitMerge { head }),
                StepView {
                    effects: seq![],
                    next: NextView::MergeLogprobs { prefill: prefill_response, decode },
                },
            ),
            (_, Err(error)) => self.fails(
                seq![],
                "Failed to parse decode response as JSON: "@ + error,
            ),
            _ => arbitrary(),
        }
    }

    /// The merged answer has been written, or could not be.
    pub open spec fn merge_written(self, written: Result<Seq<u8>, Seq<char>>) -> (
        DiscoveredView,
        StepView,
    ) {
        match (self.phase, written) {
            (DiscoveredPhaseView::AwaitMerge { head }, Ok(bytes)) => self.responds(head, bytes),
            (_, Err(error)) => self.fails(
                seq![],
                "Failed to serialize merged response: "@ + error,
            ),
            _ => arbitrary(),
        }
    }

    /// What the decode worker's answer brings about: the exchange is measured.
    pub open spec fn decoded_effects(self, head: ResponseHeadView) -> Seq<Effect<Seq<char>>> {
        seq![Effect::StopProfiling(self.decode.url())] + self.request_recorded() + seq![
            Effect::Record(Metric::PrefillRequest(self.prefill.http)),
            Effect::Record(Metric::DecodeRequest(self.decode.http)),
        ] + if head.is_success() {
            seq![]
        } else {
            seq![Effect::Record(Metric::DecodeError(self.decode.http))]
        }
    }

    /// The reply to the client: the status and the header lines of the decode worker.
    pub open spec fn responds(self, head: ResponseHeadView, body: Seq<u8>) -> (
        DiscoveredView,
        StepView,
    ) {
        (
            self.at(DiscoveredPhaseView::Responding),
            StepView {
                effects: seq![],
                next: NextView::Respond(
                    ReplyView {
                        status: head.status,
                        headers: head.headers,
                        body: ReplyBodyView::Bytes(body),
                    },
                ),
            },
        )
    }

    /// The event that the exchange waits for.
    pub open spec fn expects(self, event: EventView) -> bool {
        match self.phase {
            DiscoveredPhaseView::AwaitPrefill => event is Response,
            DiscoveredPhaseView::AwaitPrefillText => event is Text,
            DiscoveredPhaseView::AwaitRefusal { .. } => event is Text,
            DiscoveredPhaseView::AwaitDecode { .. } => event is Response,
            DiscoveredPhaseView::AwaitDecodeBody { .. } => event is Body,
            DiscoveredPhaseView::AwaitMerge { .. } => event is Merged,
            DiscoveredPhaseView::Responding => event is BuildFailed,
            DiscoveredPhaseView::Failed => false,
        }
    }

    /// The exchange and its step after an event that it waits for.
    pub open spec fn step(self, event: EventView) -> (DiscoveredView, StepView) {
        match (self.phase, event) {
            (DiscoveredPhaseView::AwaitPrefill, EventView::Response(Ok(head))) => if head.is_success() {
                (
                    self.at(DiscoveredPhaseView::AwaitPrefillText),
                    StepView { effects: seq![], next: NextView::ReadText },
                )
            } else {
                (
                    self.at(DiscoveredPhaseView::AwaitRefusal { status: head.status }),
                    StepView { effects: self.prefill_error_recorded(), next: NextView::ReadText },
                )
            },
            (DiscoveredPhaseView::AwaitPrefill, EventView::Response(Err(error))) => self.fails(
                self.prefill_error_recorded(),
                "Prefill request failed to "@ + self.prefill.http + ": "@ + error,
            ),
            (
                DiscoveredPhaseView::AwaitRefusal { status },
                EventView::Text(read),
            ) => self.fails(
                seq![],
                refusal_message(status_line(status), read),
            ),
            (DiscoveredPhaseView::AwaitPrefillText, EventView::Text(Ok(text))) => self.prefill_read(
                parsed_text(text),
            ),
            (DiscoveredPhaseView::AwaitPrefillText, EventView::Text(Err(error))) => self.fails(
                seq![],
                "Failed to read prefill response from "@ + self.prefill.http + ": "@ + error,
            ),
            (
                DiscoveredPhaseView::AwaitDecode { prefill_response },
                EventView::Response(Ok(head)),
            ) => (
                self.at(DiscoveredPhaseView::AwaitDecodeBody { prefill_response, head }),
                StepView { effects: self.decoded_effects(head), next: NextView::ReadBody },
            ),
            (DiscoveredPhaseView::AwaitDecode { .. }, EventView::Response(Err(error))) => self.fails(
                self.decode_error_recorded(),
                "Decode request failed to "@ + self.decode.http + ": "@ + error,
            ),
            (
                DiscoveredPhaseView::AwaitDecodeBody { prefill_response, head },
                EventView::Body(Ok(bytes)),
            ) => if merges_logprobs(self.request) {
                self.decode_read(parsed_bytes(bytes))
            } else {
                self.responds(head, bytes)
            },
            (DiscoveredPhaseView::AwaitDecodeBody { .. }, EventView::Body(Err(error))) => self.fails(
                seq![],
                "Failed to read decode response: "@ + error,
            ),
            (DiscoveredPhaseView::AwaitMerge { .. }, EventView::Merged(merged)) => self.merge_written(
                json_bytes(merged),
            ),
            (DiscoveredPhaseView::Responding, EventView::BuildFailed(error)) => self.fails(
                seq![],
                "Failed to build response: "@ + error,
            ),
            _ => arbitrary(),
        }
    }

    /// Whether the prefill worker has the request in hand, or has refused it.
    pub open spec fn is_in_prefill(self) -> bool {
        self.phase is AwaitPrefill || self.phase is AwaitPrefillText || self.phase is AwaitRefusal
    }

    /// Whether the exchange has been measured: the decode worker has answered, or the prefill
    /// worker has refused.
    pub open spec fn is_measured(self) -> bool {
        ||| self.phase is AwaitRefusal
        ||| self.phase is AwaitDecodeBody
        ||| self.phase is AwaitMerge
        ||| self.phase is Responding
    }

    /// From its terms, the exchange and all its effects after some events.
    pub open spec fn run(self, events: Seq<EventView>) -> (DiscoveredView, Seq<Effect<Seq<char>>>)
        decreases events.len(),
    {
        if events.len() == 0 {
            (self.first_step().0, self.first_step().1.effects)
        } else {
            let before = self.run(events.drop_last());
            let after = before.0.step(events.last());
            (after.0, before.1 + after.1.effects)
        }
    }

    /// Whether the exchange, from its terms, waits for each of the events in turn.
    pub open spec fn admits(self, events: Seq<EventView>) -> bool
        decreases events.len(),
    {
        events.len() > 0 ==> self.admits(events.drop_last()) && self.run(
            events.drop_last(),
        ).0.expects(events.last())
    }
}

impl DiscoveredExchange {
    /// Begins an exchange, with a new request id that names both workers by the ZMQ addresses
    /// under which they were announced.
    pub fn begin(
        request: Value,
        path: String,
        prefill: DiscoveredTarget,
        decode: DiscoveredTarget,
        prefill_zmq: &str,
        decode_zmq: &str,
    ) -> (begun: (DiscoveredExchange, Step))
        ensures
            exists|uuid: Seq<char>| #[trigger]
                is_random_uuid(uuid) && (begun.0@, begun.1@) == DiscoveredView::terms(
                    json_view(request),
                    path@,
                    prefill@,
                    decode@,
                    request_id(prefill_zmq@, decode_zmq@, uuid),
                ).first_step(),
    {
        let id = VllmPDRouter::generate_vllm_request_id(prefill_zmq, decode_zmq);
        Self::begin_with_id(request, path, prefill, decode, id)
    }

    /// Begins an exchange with a request id at hand.
    pub fn begin_with_id(
        request: Value,
        path: String,
        prefill: DiscoveredTarget,
        decode: DiscoveredTarget,
        request_id: String,
    ) -> (begun: (DiscoveredExchange, Step))
        ensures
            (begun.0@, begun.1@) == DiscoveredView::terms(
                json_view(request),
                path@,
                prefill@,
                decode@,
                request_id@,
            ).first_step(),
    {
        let body = prepare_prefill_body(&request, path.as_str());
        Self::begin_with_body(request, path, prefill, decode, request_id, to_text(&body))
    }

    /// Begins an exchange with a request id at hand, once the prefill request has been written, or
    /// could not be.
    pub fn begin_with_body(
        request: Value,
        path: String,
        prefill: DiscoveredTarget,
        decode: DiscoveredTarget,
        request_id: String,
        written: Result<String, String>,
    ) -> (begun: (DiscoveredExchange, Step))
        ensures
            (begun.0@, begun.1@) == DiscoveredView::terms(
                json_view(request),
                path@,
                prefill@,
                decode@,
                request_id@,
            ).prefill_written(text_view(written)),
    {
        let exchange = DiscoveredExchange {
            path,
            request,
            request_id,
            prefill,
            decode,
            phase: DiscoveredPhase::AwaitPrefill,
        };
        match written {
            Ok(text) => {
                let effects = vec![
                    Effect::StartProfiling(http_url(exchange.prefill.address.as_str())),
                ];
                assert(effects_view(effects@) =~= seq![
                    Effect::StartProfiling(exchange@.prefill.url()),
                ]);
                let call = exchange.call(Stage::Prefill, text);
                (exchange, Step { effects, next: Next::Send(call) })
            },
            Err(error) => {
                let none: Vec<Effect<String>> = Vec::new();
                assert(effects_view(none@) =~= seq![]);
                exchange.fail(
                    none,
                    concat("Failed to serialize prefill request: ", error.as_str()),
                )
            },
        }
    }

    /// The call of a stage, with a body.
    fn call(&self, stage: Stage, body: String) -> (call: Call)
        ensures
            call@ == self@.call(stage, body@),
    {
        let target = match stage {
            Stage::Prefill => &self.prefill,
            Stage::Decode => &self.decode,
        };
        let url = http_url(target.address.as_str());
        Call {
            stage,
            url: concat(url.as_str(), self.path.as_str()),
            headers: call_headers(None, self.request_id.as_str()),
            dp_rank: target.dp_rank,
            body: CallBody::Text(body),
        }
    }

    /// The effects that record the request and its duration.
    fn record_request(&self, effects: &mut Vec<Effect<String>>)
        ensures
            effects_view(final(effects)@) == effects_view(old(effects)@) + self@.request_recorded(),
    {
        effects.push(Effect::Record(Metric::Request(self.path.clone())));
        effects.push(Effect::Record(Metric::RequestDuration(self.path.clone())));
        assert(effects_view(effects@) =~= effects_view(old(effects)@) + self@.request_recorded());
    }

    /// The effects of a failure of the prefill worker.
    fn record_prefill_error(&self) -> (effects: Vec<Effect<String>>)
        ensures
            effects_view(effects@) == self@.prefill_error_recorded(),
    {
        let mut effects = vec![Effect::Record(Metric::PrefillError(self.prefill.http.clone()))];
        assert(effects_view(effects@) =~= seq![
            Effect::Record(Metric::PrefillError(self@.prefill.http)),
        ]);
        self.record_request(&mut effects);
        effects
    }

    /// The effects of a failure to reach the decode worker.
    fn record_decode_error(&self) -> (effects: Vec<Effect<String>>)
        ensures
            effects_view(effects@) == self@.decode_error_recorded(),
    {
        let mut effects = vec![Effect::Record(Metric::DecodeError(self.decode.http.clone()))];
        assert(effects_view(effects@) =~= seq![
            Effect::Record(Metric::DecodeError(self@.decode.http)),
        ]);
        self.record_request(&mut effects);
        effects.push(Effect::Record(Metric::PrefillRequest(self.prefill.http.clone())));
        assert(effects_view(effects@) =~= self@.decode_error_recorded());
        effects
    }

    /// The effects of the decode worker's answer.
    fn record_decoded(&self, head: &ResponseHead) -> (effects: Vec<Effect<String>>)
        ensures
            effects_view(effects@) == self@.decoded_effects(head@),
    {
        let mut effects = vec![
            Effect::StopProfiling(http_url(self.decode.address.as_str())),
        ];
        assert(effects_view(effects@) =~= seq![Effect::StopProfiling(self@.decode.url())]);
        self.record_request(&mut effects);
        effects.push(Effect::Record(Metric::PrefillRequest(self.prefill.http.clone())));
        effects.push(Effect::Record(Metric::DecodeRequest(self.decode.http.clone())));
        if !head.is_success() {
            effects.push(Effect::Record(Metric::DecodeError(self.decode.http.clone())));
        }
        assert(effects_view(effects@) =~= self@.decoded_effects(head@));
        effects
    }

    /// The exchange at another phase.
    fn at(self, phase: DiscoveredPhase) -> (exchange: DiscoveredExchange)
        ensures
            exchange@ == self@.at(phase@),
    {
        DiscoveredExchange { phase, ..self }
    }

    /// How far the exchange has come, and the rest of it.
    fn open(self) -> (opened: (DiscoveredPhase, DiscoveredExchange))
        ensures
            opened.0@ == self@.phase,
            opened.1@ == self@.at(DiscoveredPhaseView::Failed),
    {
        let DiscoveredExchange { path, request, request_id, prefill, decode, phase } = self;
        let exchange = DiscoveredExchange {
            path,
            request,
            request_id,
            prefill,
            decode,
            phase: DiscoveredPhase::Failed,
        };
        (phase, exchange)
    }

    /// The exchange fails, after some effects.
    fn fail(self, effects: Vec<Effect<String>>, message: String) -> (after: (
        DiscoveredExchange,
        Step,
    ))
        ensures
            (after.0@, after.1@) == self@.fails(effects_view(effects@), message@),
    {
        let next = Next::Fail(ExchangeError::Message(message));
        (self.at(DiscoveredPhase::Failed), Step { effects, next })
    }

    /// The prefill worker has done its part.
    fn hand_over(self, prefill_response: Value) -> (after: (DiscoveredExchange, Step))
        requires
            self@.phase is AwaitPrefillText,
        ensures
            (after.0@, after.1@) == self@.prefilled(json_view(prefill_response)),
    {
        let body = prepare_decode_body(&self.request, &prefill_response);
        self.decode_written(prefill_response, to_text(&body))
    }

    /// The reply to the client.
    fn respond(self, head: ResponseHead, body: Vec<u8>) -> (after: (DiscoveredExchange, Step))
        ensures
            (after.0@, after.1@) == self@.responds(head@, body@),
    {
        let none: Vec<Effect<String>> = Vec::new();
        assert(effects_view(none@) =~= seq![]);
        let reply = Reply {
            status: head.status,
            headers: head.headers,
            body: ReplyBody::Bytes(body),
        };
        (self.at(DiscoveredPhase::Responding), Step { effects: none, next: Next::Respond(reply) })
    }

    /// Takes the exchange on once the prefill worker's answer has been read as JSON, or could not
    /// be.
    pub fn prefill_read(self, read: Result<Value, String>) -> (after: (DiscoveredExchange, Step))
        requires
            self@.phase is AwaitPrefillText,
        ensures
            (after.0@, after.1@) == self@.prefill_read(read_view(read)),
    {
        match read {
            Ok(prefill_response) => self.hand_over(prefill_response),
            Err(error) => {
                let none: Vec<Effect<String>> = Vec::new();
                assert(effects_view(none@) =~= seq![]);
                self.fail(
                    none,
                    concat("Failed to parse prefill response as JSON: ", error.as_str()),
                )
            },
        }
    }

    /// Takes the exchange on with the prefill worker's answer at hand, once the decode request has
    /// been written, or could not be.
    pub fn decode_written(self, prefill_response: Value, written: Result<String, String>) -> (after:
        (DiscoveredExchange, Step))
        requires
            self@.phase is AwaitPrefillText,
        ensures
            (after.0@, after.1@) == self@.decode_written(
                json_view(prefill_response),
                text_view(written),
            ),
    {
        match written {
            Ok(text) => {
                let effects = vec![
                    Effect::StopProfiling(http_url(self.prefill.address.as_str())),
                    Effect::StartProfiling(http_url(self.decode.address.as_str())),
                ];
                assert(effects_view(effects@) =~= seq![
                    Effect::StopProfiling(self@.prefill.url()),
                    Effect::StartProfiling(self@.decode.url()),
                ]);
                let call = self.call(Stage::Decode, text);
                (
                    self.at(DiscoveredPhase::AwaitDecode { prefill_response }),
                    Step { effects, next: Next::Send(call) },
                )
            },
            Err(error) => {
                let none: Vec<Effect<String>> = Vec::new();
                assert(effects_view(none@) =~= seq![]);
                self.fail(none, concat("Failed to serialize decode request: ", error.as_str()))
            },
        }
    }

    /// Takes the exchange on once the decode worker's answer has been read as JSON, or could not
    /// be.
    pub fn decode_read(self, read: Result<Value, String>) -> (after: (DiscoveredExchange, Step))
        requires
            self@.phase is AwaitDecodeBody,
        ensures
            (after.0@, after.1@) == self@.decode_read(read_view(read)),
    {
        let (phase, exchange) = self.open();
        let none: Vec<Effect<String>> = Vec::new();
        assert(effects_view(none@) =~= seq![]);
        match (phase, read) {
            (DiscoveredPhase::AwaitDecodeBody { prefill_response, head }, Ok(decode)) => {
                let next = Next::MergeLogprobs { prefill: prefill_response, decode };
                (exchange.at(DiscoveredPhase::AwaitMerge { head }), Step { effects: none, next })
            },
            (_, Err(error)) => exchange.fail(
                none,
                concat("Failed to parse decode response as JSON: ", error.as_str()),
            ),
            _ => unreached(),
        }
    }

    /// Takes the exchange on once the merged answer has been written, or could not be.
    pub fn merge_written(self, written: Result<Vec<u8>, String>) -> (after: (
        DiscoveredExchange,
        Step,
    ))
        requires
            self@.phase is AwaitMerge,
        ensures
            (after.0@, after.1@) == self@.merge_written(bytes_view(written)),
    {
        let (phase, exchange) = self.open();
        let none: Vec<Effect<String>> = Vec::new();
        assert(effects_view(none@) =~= seq![]);
        match (phase, written) {
            (DiscoveredPhase::AwaitMerge { head }, Ok(bytes)) => exchange.respond(head, bytes),
            (_, Err(error)) => exchange.fail(
                none,
                concat("Failed to serialize merged response: ", error.as_str()),
            ),
            _ => unreached(),
        }
    }

    /// Takes the exchange on after an event that it waits for: one that tells how what its last
    /// step said comes next has gone.
    pub fn step(self, event: Event) -> (after: (DiscoveredExchange, Step))
        requires
            self@.expects(event@),
        ensures
            (after.0@, after.1@) == self@.step(event@),
    {
        let (phase, exchange) = self.open();
        let none: Vec<Effect<String>> = Vec::new();
        assert(effects_view(none@) =~= seq![]);
        match (phase, event) {
            (DiscoveredPhase::AwaitPrefill, Event::Response(Ok(head))) => {
                if head.is_success() {
                    (
                        exchange.at(DiscoveredPhase::AwaitPrefillText),
                        Step { effects: none, next: Next::ReadText },
                    )
                } else {
                    let effects = exchange.record_prefill_error();
                    (
                        exchange.at(
                            DiscoveredPhase::AwaitRefusal { status: head.status },
                        ),
                        Step { effects, next: Next::ReadText },
                    )
                }
            },
            (DiscoveredPhase::AwaitPrefill, Event::Response(Err(error))) => {
                let effects = exchange.record_prefill_error();
                let message = concat4(
                    "Prefill request failed to ",
                    exchange.prefill.http.as_str(),
                    ": ",
                    error.as_str(),
                );
                exchange.fail(effects, message)
            },
            (DiscoveredPhase::AwaitRefusal { status }, Event::Text(read)) => {
                let line = show_status(status);
                let message = refusal_text(line.as_str(), read);
                exchange.fail(none, message)
            },
            (DiscoveredPhase::AwaitPrefillText, Event::Text(Ok(text))) => {
                exchange.at(DiscoveredPhase::AwaitPrefillText).prefill_read(
                    parse_text(text.as_str()),
                )
            },
            (DiscoveredPhase::AwaitPrefillText, Event::Text(Err(error))) => {
                let message = concat4(
                    "Failed to read prefill response from ",
                    exchange.prefill.http.as_str(),
                    ": ",
                    error.as_str(),
                );
                exchange.fail(none, message)
            },
            (DiscoveredPhase::AwaitDecode { prefill_response }, Event::Response(Ok(head))) => {
                let effects = exchange.record_decoded(&head);
                (
                    exchange.at(DiscoveredPhase::AwaitDecodeBody { prefill_response, head }),
                    Step { effects, next: Next::ReadBody },
                )
            },
            (DiscoveredPhase::AwaitDecode { prefill_response: _ }, Event::Response(Err(error))) => {
                let effects = exchange.record_decode_error();
                let message = concat4(
                    "Decode request failed to ",
                    exchange.decode.http.as_str(),
                    ": ",
                    error.as_str(),
                );
                exchange.fail(effects, message)
            },
            (
                DiscoveredPhase::AwaitDecodeBody { prefill_response, head },
                Event::Body(Ok(bytes)),
            ) => {
                if needs_merged_logprobs(&exchange.request) {
                    let phase = DiscoveredPhase::AwaitDecodeBody { prefill_response, head };
                    exchange.at(phase).decode_read(parse_bytes(&bytes))
                } else {
                    exchange.respond(head, bytes)
                }
            },
            (
                DiscoveredPhase::AwaitDecodeBody { prefill_response: _, head: _ },
                Event::Body(Err(error)),
            ) => exchange.fail(none, concat("Failed to read decode response: ", error.as_str())),
            (DiscoveredPhase::AwaitMerge { head }, Event::Merged(merged)) => {
                exchange.at(DiscoveredPhase::AwaitMerge { head }).merge_written(to_bytes(&merged))
            },
            (_, Event::BuildFailed(error)) => exchange.fail(
                none,
                concat("Failed to build response: ", error.as_str()),
            ),
            _ => unreached(),
        }
    }
}

/// The sums of the effects of a step from `before`.
proof fn lemma_sums_of_a_step(
    before: DiscoveredView,
    event: EventView,
    stage: Stage,
    effect: Effect<Seq<char>>,
)
    requires
        before.expects(event),
    ensures
        ({
            let (now, step) = before.step(event);
            &&& load(step.effects, stage) == 0
            &&& effect == Effect::Record(Metric::Request(before.path)) || effect == Effect::Record(
                Metric::RequestDuration(before.path),
            ) ==> times(step.effects, effect) == if now.phase is Failed {
                once_if(before.phase is AwaitPrefill || before.phase is AwaitDecode)
            } else {
                once_if(now.is_measured()) - once_if(before.is_measured())
            }
            &&& effect matches Effect::StartProfiling(url) ==> times(step.effects, effect)
                == once_if(now.phase is AwaitDecode && url == before.decode.url())
            &&& effect matches Effect::StopProfiling(url) ==> times(step.effects, effect)
                == once_if(now.phase is AwaitDecode && url == before.prefill.url()) + once_if(
                now.phase is AwaitDecodeBody && url == before.decode.url(),
            )
        }),
{
    let recorded = before.request_recorded();
    lemma_two_effects(recorded[0], recorded[1], stage, effect);
    let (now, step) = before.step(event);
    if before.phase is AwaitPrefill {
        let error = Effect::Record(Metric::PrefillError(before.prefill.http));
        lemma_one_effect(error, stage, effect);
        lemma_effects_add_up(seq![error], recorded, stage, effect);
    } else if now.phase is AwaitDecode {
        lemma_two_effects(step.effects[0], step.effects[1], stage, effect);
    } else if before.phase is AwaitDecode && now.phase is Failed {
        let error = Effect::Record(Metric::DecodeError(before.decode.http));
        let served = Effect::Record(Metric::PrefillRequest(before.prefill.http));
        lemma_one_effect(error, stage, effect);
        lemma_one_effect(served, stage, effect);
        lemma_effects_add_up(seq![error], recorded, stage, effect);
        lemma_effects_add_up(seq![error] + recorded, seq![served], stage, effect);
    } else if before.phase is AwaitDecode {
        let stop = Effect::StopProfiling(before.decode.url());
        let served = seq![
            Effect::Record(Metric::PrefillRequest(before.prefill.http)),
            Effect::Record(Metric::DecodeRequest(before.decode.http)),
        ];
        let error = Effect::Record(Metric::DecodeError(before.decode.http));
        lemma_one_effect(stop, stage, effect);
        lemma_one_effect(error, stage, effect);
        lemma_two_effects(served[0], served[1], stage, effect);
        lemma_effects_add_up(seq![stop], recorded, stage, effect);
        lemma_effects_add_up(seq![stop] + recorded, served, stage, effect);
        lemma_effects_add_up(seq![stop] + recorded + served, seq![error], stage, effect);
        lemma_effects_add_up(seq![stop] + recorded + served, seq![], stage, effect);
    }
}

/// Whatever happens, the exchange goes on with the same client request, workers and id.
pub proof fn law_exchange_keeps_its_terms(terms: DiscoveredView, events: Seq<EventView>)
    requires
        terms.admits(events),
    ensures
        terms.run(events).0 == terms.at(terms.run(events).0.phase),
    decreases events.len(),
{
    if events.len() > 0 {
        law_exchange_keeps_its_terms(terms, events.drop_last());
    }
}

/// Whatever happens, an exchange with announced workers leaves their loads alone.
pub proof fn law_exchange_leaves_loads_alone(
    terms: DiscoveredView,
    events: Seq<EventView>,
    stage: Stage,
)
    requires
        terms.phase is AwaitPrefill,
        terms.admits(events),
    ensures
        load(terms.run(events).1, stage) == 0,
    decreases events.len(),
{
    let any = Effect::StartProfiling(terms.prefill.url());
    lemma_one_effect(any, stage, any);
    if events.len() > 0 {
        let (before, effects) = terms.run(events.drop_last());
        law_exchange_leaves_loads_alone(terms, events.drop_last(), stage);
        lemma_effects_add_up(effects, before.step(events.last()).1.effects, stage, any);
        lemma_sums_of_a_step(before, events.last(), stage, any);
    }
}

/// Whatever happens, an exchange is recorded with its duration once, when the prefill worker has
/// failed or refused, or the decode worker has failed or answered. It is never recorded where the
/// prefill request could not be written, and where the prefill worker's answer could not be read,
/// understood or handed on.
pub proof fn law_exchange_is_measured(terms: DiscoveredView, events: Seq<EventView>)
    requires
        terms.phase is AwaitPrefill,
        terms.admits(events),
    ensures
        ({
            let (now, effects) = terms.run(events);
            let measured = if now.phase is Failed {
                events.len() > 0 && !(terms.run(events.drop_last()).0.phase is AwaitPrefillText)
            } else {
                now.is_measured()
            };
            &&& times(effects, Effect::Record(Metric::Request(terms.path))) == once_if(measured)
            &&& times(effects, Effect::Record(Metric::RequestDuration(terms.path))) == once_if(
                measured,
            )
        }),
    decreases events.len(),
{
    let request = Effect::Record(Metric::Request(terms.path));
    let duration = Effect::Record(Metric::RequestDuration(terms.path));
    if events.len() == 0 {
        let profiling = Effect::StartProfiling(terms.prefill.url());
        lemma_one_effect(profiling, Stage::Prefill, request);
        lemma_one_effect(profiling, Stage::Prefill, duration);
    } else {
        let (before, effects) = terms.run(events.drop_last());
        let more = before.step(events.last()).1.effects;
        law_exchange_is_measured(terms, events.drop_last());
        law_exchange_keeps_its_terms(terms, events.drop_last());
        lemma_effects_add_up(effects, more, Stage::Prefill, request);
        lemma_effects_add_up(effects, more, Stage::Prefill, duration);
        lemma_sums_of_a_step(before, events.last(), Stage::Prefill, request);
        lemma_sums_of_a_step(before, events.last(), Stage::Prefill, duration);
    }
}

/// The records of a step from `before`, of the workers' requests and errors.
proof fn lemma_records_of_a_step(
    before: DiscoveredView,
    event: EventView,
    url: Seq<char>,
    metric: Metric<Seq<char>>,
)
    requires
        before.expects(event),
    ensures
        ({
            let (now, step) = before.step(event);
            let p = url == before.prefill.http;
            let d = url == before.decode.http;
            let recorded = times(step.effects, Effect::Record(metric));
            let answer = before.phase is AwaitDecode;
            &&& metric == Metric::PrefillError(url) ==> recorded == once_if(
                p && before.phase is AwaitPrefill && !event.is_success(),
            )
            &&& metric == Metric::DecodeError(url) ==> recorded == once_if(
                d && answer && !event.is_success(),
            )
            &&& metric == Metric::PrefillRequest(url) ==> recorded == once_if(p && answer)
            &&& metric == Metric::DecodeRequest(url) ==> recorded == once_if(
                d && answer && event->Response_0 is Ok,
            )
            &&& metric is Error ==> recorded == 0
        }),
{
    let effect = Effect::Record(metric);
    let stage = Stage::Prefill;
    let recorded = before.request_recorded();
    lemma_two_effects(recorded[0], recorded[1], stage, effect);
    let (now, step) = before.step(event);
    if before.phase is AwaitPrefill {
        let error = Effect::Record(Metric::PrefillError(before.prefill.http));
        lemma_one_effect(error, stage, effect);
        lemma_effects_add_up(seq![error], recorded, stage, effect);
    } else if now.phase is AwaitDecode {
        lemma_two_effects(step.effects[0], step.effects[1], stage, effect);
    } else if before.phase is AwaitDecode && now.phase is Failed {
        let error = Effect::Record(Metric::DecodeError(before.decode.http));
        let served = Effect::Record(Metric::PrefillRequest(before.prefill.http));
        lemma_one_effect(error, stage, effect);
        lemma_one_effect(served, stage, effect);
        lemma_effects_add_up(seq![error], recorded, stage, effect);
        lemma_effects_add_up(seq![error] + recorded, seq![served], stage, effect);
    } else if before.phase is AwaitDecode {
        let stop = Effect::StopProfiling(before.decode.url());
        let served = seq![
            Effect::Record(Metric::PrefillRequest(before.prefill.http)),
            Effect::Record(Metric::DecodeRequest(before.decode.http)),
        ];
        let error = Effect::Record(Metric::DecodeError(before.decode.http));
        lemma_one_effect(stop, stage, effect);
        lemma_one_effect(error, stage, effect);
        lemma_two_effects(served[0], served[1], stage, effect);
        lemma_effects_add_up(seq![stop], recorded, stage, effect);
        lemma_effects_add_up(seq![stop] + recorded, served, stage, effect);
        lemma_effects_add_up(seq![stop] + recorded + served, seq![error], stage, effect);
        lemma_effects_add_up(seq![stop] + recorded + served, seq![], stage, effect);
    }
}

/// Whatever happens, an error of the prefill worker is recorded once where it could not be reached
/// or has refused, and one of the decode worker once where that could not be reached or has not
/// answered with success; the prefill worker's request is recorded once the decode worker has been
/// called and the call is over, and the decode worker's once it has answered. No other worker, and
/// no failure of the router, is recorded: after a failure of the prefill stage, nothing of the
/// decode worker is.
pub proof fn law_workers_are_recorded(
    terms: DiscoveredView,
    events: Seq<EventView>,
    url: Seq<char>,
    kind: Seq<char>,
)
    requires
        terms.phase is AwaitPrefill,
        terms.admits(events),
    ensures
        ({
            let effects = terms.run(events).1;
            let p = url == terms.prefill.http;
            let d = url == terms.decode.http;
            &&& times(effects, Effect::Record(Metric::PrefillError(url))) == once_if(
                p && events.len() >= 1 && !events[0].is_success(),
            )
            &&& times(effects, Effect::Record(Metric::DecodeError(url))) == once_if(
                d && events.len() >= 3 && !events[2].is_success(),
            )
            &&& times(effects, Effect::Record(Metric::PrefillRequest(url))) == once_if(
                p && events.len() >= 3,
            )
            &&& times(effects, Effect::Record(Metric::DecodeRequest(url))) == once_if(
                d && events.len() >= 3 && events[2]->Response_0 is Ok,
            )
            &&& times(effects, Effect::Record(Metric::Error(kind))) == 0
        }),
    decreases events.len(),
{
    let stage = Stage::Prefill;
    let metrics = seq![
        Metric::PrefillError(url),
        Metric::DecodeError(url),
        Metric::PrefillRequest(url),
        Metric::DecodeRequest(url),
        Metric::Error(kind),
    ];
    if events.len() == 0 {
        let profiling = Effect::StartProfiling(terms.prefill.url());
        assert forall|i: int| 0 <= i < 5 implies times(
            terms.run(events).1,
            Effect::Record(#[trigger] metrics[i]),
        ) == 0 by {
            lemma_one_effect(profiling, stage, Effect::Record(metrics[i]));
        }
        assert(metrics[0] is PrefillError && metrics[1] is DecodeError);
        assert(metrics[2] is PrefillRequest && metrics[3] is DecodeRequest && metrics[4] is Error);
    } else {
        let rest = events.drop_last();
        let (before, effects) = terms.run(rest);
        let more = before.step(events.last()).1.effects;
        law_workers_are_recorded(terms, rest, url, kind);
        law_exchange_keeps_its_terms(terms, rest);
        lemma_history(terms, rest);
        assert(forall|i: int| 0 <= i < rest.len() ==> rest[i] == events[i]);
        lemma_effects_add_up(effects, more, stage, Effect::Record(metrics[0]));
        lemma_effects_add_up(effects, more, stage, Effect::Record(metrics[1]));
        lemma_effects_add_up(effects, more, stage, Effect::Record(metrics[2]));
        lemma_effects_add_up(effects, more, stage, Effect::Record(metrics[3]));
        lemma_effects_add_up(effects, more, stage, Effect::Record(metrics[4]));
        lemma_records_of_a_step(before, events.last(), url, metrics[0]);
        lemma_records_of_a_step(before, events.last(), url, metrics[1]);
        lemma_records_of_a_step(before, events.last(), url, metrics[2]);
        lemma_records_of_a_step(before, events.last(), url, metrics[3]);
        lemma_records_of_a_step(before, events.last(), url, metrics[4]);
    }
}

/// Whatever happens, a worker is profiled by this exchange from its call until its answer has been
/// taken, and not otherwise, unless the exchange fails in between: the worker is then profiled on,
/// until its time is up.
pub proof fn law_profiling_follows_the_request(
    terms: DiscoveredView,
    events: Seq<EventView>,
    url: Seq<char>,
)
    requires
        terms.phase is AwaitPrefill,
        terms.admits(events),
    ensures
        ({
            let (now, effects) = terms.run(events);
            let last = if now.phase is Failed && events.len() > 0 {
                terms.run(events.drop_last()).0
            } else {
                now
            };
            profiled(effects, url) == once_if(last.is_in_prefill() && url == terms.prefill.url())
                + once_if(last.phase is AwaitDecode && url == terms.decode.url())
        }),
    decreases events.len(),
{
    let begun = Effect::StartProfiling(url);
    let ended = Effect::StopProfiling(url);
    if events.len() == 0 {
        let profiling = Effect::StartProfiling(terms.prefill.url());
        lemma_one_effect(profiling, Stage::Prefill, begun);
        lemma_one_effect(profiling, Stage::Prefill, ended);
    } else {
        let (before, effects) = terms.run(events.drop_last());
        let more = before.step(events.last()).1.effects;
        law_profiling_follows_the_request(terms, events.drop_last(), url);
        law_exchange_keeps_its_terms(terms, events.drop_last());
        lemma_effects_add_up(effects, more, Stage::Prefill, begun);
        lemma_effects_add_up(effects, more, Stage::Prefill, ended);
        lemma_sums_of_a_step(before, events.last(), Stage::Prefill, begun);
        lemma_sums_of_a_step(before, events.last(), Stage::Prefill, ended);
    }
}

/// Whatever has happened, the events that the exchange waits for are those that answer what its
/// last step said comes next; after a failure it waits for none.
pub proof fn law_next_names_the_event(
    terms: DiscoveredView,
    events: Seq<EventView>,
    event: EventView,
    later: EventView,
)
    requires
        terms.phase is AwaitPrefill,
        terms.admits(events.push(event)),
    ensures
        terms.first_step().0.expects(later) == terms.first_step().1.next.is_answered_by(later),
        ({
            let (now, step) = terms.run(events).0.step(event);
            now.expects(later) == step.next.is_answered_by(later)
        }),
{
    assert(events.push(event).drop_last() =~= events);
}

/// Whatever has happened, a further call goes to the decode worker, with the header lines, and
/// so the request id, that the prefill worker was called with; and its body is the client's
/// request with what the prefill worker's JSON response has to hand on.
pub proof fn law_both_workers_get_the_same_id(
    terms: DiscoveredView,
    events: Seq<EventView>,
    event: EventView,
)
    requires
        terms.phase is AwaitPrefill,
        terms.admits(events.push(event)),
    ensures
        terms.run(events).0.step(event).1.next matches NextView::Send(call) ==> {
            &&& call.stage == Stage::Decode
            &&& call.url == terms.decode.url() + terms.path
            &&& terms.first_step().1.next matches NextView::Send(first) && first.headers
                == call.headers
            &&& call.headers.contains(("X-Request-Id"@, terms.request_id))
            &&& event matches EventView::Text(Ok(text)) && parsed_text(text) matches Ok(
                prefill_response,
            ) && json_text(decode_body(terms.request, prefill_response)) matches Ok(body)
                && call.body == CallBodyView::Text(body)
        },
{
    assert(events.push(event).drop_last() =~= events);
    law_exchange_keeps_its_terms(terms, events);
    lemma_a_call_was_made(terms, events);
    let headers = call_header_lines(None, terms.request_id);
    assert(headers[1] == ("X-Request-Id"@, terms.request_id));
}

/// An exchange that has not failed has called the prefill worker.
proof fn lemma_a_call_was_made(terms: DiscoveredView, events: Seq<EventView>)
    requires
        terms.phase is AwaitPrefill,
        terms.admits(events),
    ensures
        !(terms.run(events).0.phase is Failed) ==> terms.first_step().1.next is Send,
    decreases events.len(),
{
    if events.len() > 0 {
        lemma_a_call_was_made(terms, events.drop_last());
    }
}

/// What has happened in an exchange, by how far it has come.
proof fn lemma_history(terms: DiscoveredView, events: Seq<EventView>)
    requires
        terms.phase is AwaitPrefill,
        terms.admits(events),
    ensures
        match terms.run(events).0.phase {
            DiscoveredPhaseView::AwaitPrefill => events.len() == 0,
            DiscoveredPhaseView::AwaitPrefillText => {
                &&& events.len() == 1
                &&& events[0] matches EventView::Response(Ok(head)) && head.is_success()
            },
            DiscoveredPhaseView::AwaitRefusal { status } => {
                &&& events.len() == 1
                &&& events[0] matches EventView::Response(Ok(head)) && !head.is_success()
                    && head.status == status
            },
            DiscoveredPhaseView::AwaitDecode { prefill_response } => {
                &&& events.len() == 2
                &&& events[0] matches EventView::Response(Ok(head)) && head.is_success()
                &&& events[1] matches EventView::Text(Ok(text)) && parsed_text(text) == Ok::<
                    JsonView,
                    Seq<char>,
                >(prefill_response)
            },
            DiscoveredPhaseView::AwaitDecodeBody { prefill_response, head } => {
                &&& events.len() == 3
                &&& events[0] matches EventView::Response(Ok(first)) && first.is_success()
                &&& events[1] matches EventView::Text(Ok(text)) && parsed_text(text) == Ok::<
                    JsonView,
                    Seq<char>,
                >(prefill_response)
                &&& events[2] == EventView::Response(Ok(head))
            },
            DiscoveredPhaseView::AwaitMerge { head } => {
                &&& events.len() == 4
                &&& events[0] matches EventView::Response(Ok(first)) && first.is_success()
                &&& events[2] == EventView::Response(Ok(head))
                &&& merges_logprobs(terms.request)
            },
            DiscoveredPhaseView::Responding => {
                &&& 4 <= events.len() <= 5
                &&& events[0] matches EventView::Response(Ok(first)) && first.is_success()
            },
            DiscoveredPhaseView::Failed => events.len() <= 6,
        },
    decreases events.len(),
{
    if events.len() > 0 {
        let before = events.drop_last();
        lemma_history(terms, before);
        law_exchange_keeps_its_terms(terms, before);
        assert(forall|i: int| 0 <= i < before.len() ==> before[i] == events[i]);
    }
}

/// Where the prefill worker refuses, the decode worker is never called: the client gets no reply
/// but a failure that tells the status of the refusal and, as far as it could be read, its text.
pub proof fn law_refused_prefill_is_not_decoded(
    terms: DiscoveredView,
    events: Seq<EventView>,
    event: EventView,
    head: ResponseHeadView,
)
    requires
        terms.phase is AwaitPrefill,
        terms.admits(events.push(event)),
        events.push(event)[0] == EventView::Response(Ok(head)),
        !head.is_success(),
    ensures
        events.len() == 0 ==> terms.run(events).0.step(event).1.next is ReadText,
        events.len() > 0 ==> {
            &&& events.len() == 1
            &&& event matches EventView::Text(read) && terms.run(events).0.step(event).1.next
                == NextView::Fail(
                ExchangeError::Message(
                    refusal_message(status_line(head.status), read),
                ),
            )
        },
{
    assert(events.push(event).drop_last() =~= events);
    lemma_history(terms, events);
    if events.len() > 0 {
        assert(events[0] == events.push(event)[0]);
    }
}

/// Whatever has happened, the log probabilities that are merged are those of the two workers'
/// JSON answers, in that order, and the client has asked for them.
pub proof fn law_both_answers_are_merged(
    terms: DiscoveredView,
    events: Seq<EventView>,
    event: EventView,
)
    requires
        terms.phase is AwaitPrefill,
        terms.admits(events.push(event)),
    ensures
        terms.run(events).0.step(event).1.next matches NextView::MergeLogprobs { prefill, decode }
            ==> {
            &&& merges_logprobs(terms.request)
            &&& events.len() == 3
            &&& events[1] matches EventView::Text(Ok(text)) && parsed_text(text) == Ok::<
                JsonView,
                Seq<char>,
            >(prefill)
            &&& event matches EventView::Body(Ok(bytes)) && parsed_bytes(bytes) == Ok::<
                JsonView,
                Seq<char>,
            >(decode)
        },
{
    assert(events.push(event).drop_last() =~= events);
    law_exchange_keeps_its_terms(terms, events);
    lemma_history(terms, events);
}

/// Whatever has happened, a reply has the status and the header lines of the decode worker's
/// answer. Its body is that answer's, read to its end, unless log probabilities are to be merged:
/// then it is the merged document.
pub proof fn law_reply_is_the_decode_workers(
    terms: DiscoveredView,
    events: Seq<EventView>,
    event: EventView,
)
    requires
        terms.phase is AwaitPrefill,
        terms.admits(events.push(event)),
    ensures
        terms.run(events).0.step(event).1.next matches NextView::Respond(reply) ==> {
            &&& events.len() >= 3
            &&& events[2] matches EventView::Response(Ok(head)) && reply.status == head.status
                && reply.headers == head.headers
            &&& reply.body matches ReplyBodyView::Bytes(bytes) && if merges_logprobs(terms.request) {
                event matches EventView::Merged(merged) && json_bytes(merged) == Ok::<
                    Seq<u8>,
                    Seq<char>,
                >(bytes)
            } else {
                event == EventView::Body(Ok(bytes))
            }
        },
{
    assert(events.push(event).drop_last() =~= events);
    law_exchange_keeps_its_terms(terms, events);
    lemma_history(terms, events);
}

/// Any request on any path is taken through both stages: where both workers answer with success
/// and JSON, and their requests could be written, the prefill worker is called, then the decode
/// worker, and the client gets a reply once the decode worker's body has been read, or, where log
/// probabilities are to be merged, once those have been.
pub proof fn law_any_request_is_served(
    terms: DiscoveredView,
    first: ResponseHeadView,
    text: Seq<char>,
    second: ResponseHeadView,
    body: Seq<u8>,
    merged: JsonView,
)
    requires
        terms.phase is AwaitPrefill,
        json_text(prefill_body(terms.request, terms.path)) is Ok,
        first.is_success(),
        parsed_text(text) is Ok,
        json_text(decode_body(terms.request, parsed_text(text)->Ok_0)) is Ok,
        merges_logprobs(terms.request) ==> parsed_bytes(body) is Ok && json_bytes(merged) is Ok,
    ensures
        ({
            let answered = seq![EventView::Response(Ok(first))];
            let called = answered.push(EventView::Text(Ok(text)));
            let decoded = called.push(EventView::Response(Ok(second)));
            let read = decoded.push(EventView::Body(Ok(body)));
            let last = terms.run(decoded).0.step(EventView::Body(Ok(body))).1.next;
            &&& terms.admits(read)
            &&& terms.first_step().1.next matches NextView::Send(call) && call.stage
                == Stage::Prefill
            &&& terms.run(answered).0.step(EventView::Text(Ok(text))).1.next matches NextView::Send(
                call,
            ) && call.stage == Stage::Decode
            &&& if merges_logprobs(terms.request) {
                &&& last is MergeLogprobs
                &&& terms.admits(read.push(EventView::Merged(merged)))
                &&& terms.run(read).0.step(EventView::Merged(merged)).1.next is Respond
            } else {
                last is Respond
            }
        }),
{
    reveal_with_fuel(DiscoveredView::run, 6);
    reveal_with_fuel(DiscoveredView::admits, 6);
    let none: Seq<EventView> = seq![];
    let answered = seq![EventView::Response(Ok(first))];
    let called = answered.push(EventView::Text(Ok(text)));
    let decoded = called.push(EventView::Response(Ok(second)));
    let read = decoded.push(EventView::Body(Ok(body)));
    assert(answered.drop_last() =~= none);
    assert(called.drop_last() =~= answered);
    assert(decoded.drop_last() =~= called);
    assert(read.drop_last() =~= decoded);
    assert(read.push(EventView::Merged(merged)).drop_last() =~= read);
}

/// No exchange waits for more than six events.
pub proof fn law_exchange_ends(terms: DiscoveredView, events: Seq<EventView>)
    requires
        terms.phase is AwaitPrefill,
        terms.admits(events),
    ensures
        events.len() <= 6,
{
    lemma_history(terms, events);
}

} // verus!
