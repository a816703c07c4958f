//! What an exchange with the two workers is made of: the events that come in, the effects that
//! are to be had at once, and the one thing to be done next.
use crate::json::{json_view, JsonView};
use axum::http::StatusCode;
use serde_json::Value;
use vstd::prelude::*;
use vstd::string::StringExecFns;

verus! {

/// The two stages of an exchange, and the worker of each.
#[derive(Clone, Copy, PartialEq, Eq, Structural, Debug)]
pub enum Stage {
    Prefill,
    Decode,
}

/// A measurement to be recorded: of a path, or of a worker.
#[derive(Debug, PartialEq, Eq)]
pub enum Metric<Text> {
    /// One request on a path.
    Request(Text),
    /// The time since the exchange on a path began.
    RequestDuration(Text),
    /// One request that a prefill worker has served.
    PrefillRequest(Text),
    /// One request that a decode worker has served.
    DecodeRequest(Text),
    /// A failure at a prefill worker.
    PrefillError(Text),
    /// A failure at a decode worker.
    DecodeError(Text),
    /// A failure of the router itself, of a kind.
    Error(Text),
}

/// Something to be had at once, in order, before the exchange goes on.
#[derive(Debug, PartialEq, Eq)]
pub enum Effect<Text> {
    /// The worker of the stage has one request more to serve.
    IncrementLoad(Stage),
    /// The worker of the stage has one request less to serve.
    DecrementLoad(Stage),
    /// Profiling starts on the worker of that URL.
    StartProfiling(Text),
    /// Profiling stops on the worker of that URL.
    StopProfiling(Text),
    /// A measurement is recorded.
    Record(Metric<Text>),
}

impl View for Metric<String> {
    type V = Metric<Seq<char>>;

    open spec fn view(&self) -> Metric<Seq<char>> {
        match self {
            Metric::Request(path) => Metric::Request(path@),
            Metric::RequestDuration(path) => Metric::RequestDuration(path@),
            Metric::PrefillRequest(worker) => Metric::PrefillRequest(worker@),
            Metric::DecodeRequest(worker) => Metric::DecodeRequest(worker@),
            Metric::PrefillError(worker) => Metric::PrefillError(worker@),
            Metric::DecodeError(worker) => Metric::DecodeError(worker@),
            Metric::Error(kind) => Metric::Error(kind@),
        }
    }
}

impl View for Effect<String> {
    type V = Effect<Seq<char>>;

    open spec fn view(&self) -> Effect<Seq<char>> {
        match self {
            Effect::IncrementLoad(stage) => Effect::IncrementLoad(*stage),
            Effect::DecrementLoad(stage) => Effect::DecrementLoad(*stage),
            Effect::StartProfiling(url) => Effect::StartProfiling(url@),
            Effect::StopProfiling(url) => Effect::StopProfiling(url@),
            Effect::Record(metric) => Effect::Record(metric@),
        }
    }
}

/// The view of a list of effects.
pub open spec fn effects_view(effects: Seq<Effect<String>>) -> Seq<Effect<Seq<char>>> {
    effects.map_values(|effect: Effect<String>| effect@)
}

/// The body of a request to a worker.
pub enum CallBody {
    /// A document, to be written as JSON.
    Json(Value),
    /// A text that is JSON already.
    Text(String),
}

/// The view of a `CallBody`.
pub enum CallBodyView {
    Json(JsonView),
    Text(Seq<char>),
}

impl View for CallBody {
    type V = CallBodyView;

    open spec fn view(&self) -> CallBodyView {
        match self {
            CallBody::Json(value) => CallBodyView::Json(json_view(*value)),
            CallBody::Text(text) => CallBodyView::Text(text@),
        }
    }
}

/// A request to be posted to the worker of a stage.
pub struct Call {
    pub stage: Stage,
    pub url: String,
    pub headers: Vec<(String, String)>,
    /// The rank of the worker among those that share its address, if it has one.
    pub dp_rank: Option<usize>,
    pub body: CallBody,
}

/// The view of a `Call`.
pub struct CallView {
    pub stage: Stage,
    pub url: Seq<char>,
    pub headers: Seq<(Seq<char>, Seq<char>)>,
    pub dp_rank: Option<usize>,
    pub body: CallBodyView,
}

impl View for Call {
    type V = CallView;

    open spec fn view(&self) -> CallView {
        CallView {
            stage: self.stage,
            url: self.url@,
            headers: self.headers@.map_values(|line: (String, String)| (line.0@, line.1@)),
            dp_rank: self.dp_rank,
            body: self.body@,
        }
    }
}

/// The header lines of a call: JSON, the bearer's key where the workers ask for one, and the id
/// by which the two workers find each other.
pub open spec fn call_header_lines(api_key: Option<Seq<char>>, request_id: Seq<char>) -> Seq<
    (Seq<char>, Seq<char>),
> {
    match api_key {
        Some(key) => seq![
            ("Content-Type"@, "application/json"@),
            ("Authorization"@, "Bearer "@ + key),
            ("X-Request-Id"@, request_id),
        ],
        None => seq![("Content-Type"@, "application/json"@), ("X-Request-Id"@, request_id)],
    }
}

/// The header lines of a call.
pub fn call_headers(api_key: Option<&str>, request_id: &str) -> (headers: Vec<(String, String)>)
    ensures
        headers@.map_values(|line: (String, String)| (line.0@, line.1@)) == call_header_lines(
            match api_key {
                Some(key) => Some(key@),
                None => None,
            },
            request_id@,
        ),
{
    let mut headers: Vec<(String, String)> = Vec::new();
    headers.push(("Content-Type".to_owned(), "application/json".to_owned()));
    if let Some(key) = api_key {
        let mut bearer = "Bearer ".to_owned();
        bearer.append(key);
        headers.push(("Authorization".to_owned(), bearer));
    }
    headers.push(("X-Request-Id".to_owned(), request_id.to_owned()));
    headers
}

/// The header lines of a response, each with its name and the bytes of its value.
pub open spec fn header_lines(headers: Seq<(String, Vec<u8>)>) -> Seq<(Seq<char>, Seq<u8>)> {
    headers.map_values(|line: (String, Vec<u8>)| (line.0@, line.1@))
}

/// The head of a worker's response. Header names are in lower case.
pub struct ResponseHead {
    pub status: u16,
    pub headers: Vec<(String, Vec<u8>)>,
}

/// The view of a `ResponseHead`.
pub struct ResponseHeadView {
    pub status: u16,
    pub headers: Seq<(Seq<char>, Seq<u8>)>,
}

impl View for ResponseHead {
    type V = ResponseHeadView;

    open spec fn view(&self) -> ResponseHeadView {
        ResponseHeadView { status: self.status, headers: header_lines(self.headers@) }
    }
}

impl ResponseHeadView {
    /// Whether the status is one of success.
    pub open spec fn is_success(self) -> bool {
        200 <= self.status < 300
    }
}

impl ResponseHead {
    /// Whether the status is one of success.
    pub fn is_success(&self) -> (answer: bool)
        ensures
            answer == self@.is_success(),
    {
        200 <= self.status && self.status < 300
    }
}

/// How `StatusCode` shows a status: the number and its reason, or, of a number that is no status,
/// the text of the error.
pub uninterp spec fn status_line(status: u16) -> Seq<char>;

/// `StatusCode::from_u16` and the `Display` of what it returns: a status with its reason.
#[verifier::external_body]
pub(crate) fn show_status(status: u16) -> (line: String)
    ensures
        line@ == status_line(status),
{
    match StatusCode::from_u16(status) {
        Ok(code) => code.to_string(),
        Err(error) => error.to_string(),
    }
}

/// The body of the reply to the client.
pub enum ReplyBody {
    /// What the decode worker still sends, handed on as it comes.
    Stream,
    /// These bytes.
    Bytes(Vec<u8>),
}

/// The view of a `ReplyBody`.
pub enum ReplyBodyView {
    Stream,
    Bytes(Seq<u8>),
}

impl View for ReplyBody {
    type V = ReplyBodyView;

    open spec fn view(&self) -> ReplyBodyView {
        match self {
            ReplyBody::Stream => ReplyBodyView::Stream,
            ReplyBody::Bytes(bytes) => ReplyBodyView::Bytes(bytes@),
        }
    }
}

/// The reply to the client.
pub struct Reply {
    pub status: u16,
    pub headers: Vec<(String, Vec<u8>)>,
    pub body: ReplyBody,
}

/// The view of a `Reply`.
pub struct ReplyView {
    pub status: u16,
    pub headers: Seq<(Seq<char>, Seq<u8>)>,
    pub body: ReplyBodyView,
}

impl View for Reply {
    type V = ReplyView;

    open spec fn view(&self) -> ReplyView {
        ReplyView { status: self.status, headers: header_lines(self.headers@), body: self.body@ }
    }
}

/// Why an exchange failed.
#[derive(Debug, PartialEq, Eq)]
pub enum ExchangeError<Text> {
    /// A failure in an exchange with workers of known URLs.
    NetworkError { message: Text },
    /// A failure in an exchange with workers that service discovery announced.
    Message(Text),
}

impl View for ExchangeError<String> {
    type V = ExchangeError<Seq<char>>;

    open spec fn view(&self) -> ExchangeError<Seq<char>> {
        match self {
            ExchangeError::NetworkError { message } => ExchangeError::NetworkError {
                message: message@,
            },
            ExchangeError::Message(message) => ExchangeError::Message(message@),
        }
    }
}

/// What an exchange waits for.
pub enum Next {
    /// Post the call; `Event::Response` tells how it went.
    Send(Call),
    /// Read the body of the last response as bytes; `Event::Body` tells how it went.
    ReadBody,
    /// Read the body of the last response as text; `Event::Text` tells how it went.
    ReadText,
    /// Merge the log probabilities of the prefill response into the decode response;
    /// `Event::Merged` brings the decode response back.
    MergeLogprobs { prefill: Value, decode: Value },
    /// Reply to the client, which ends the exchange; `Event::BuildFailed` tells of a reply that
    /// could not be built.
    Respond(Reply),
    /// The exchange has failed.
    Fail(ExchangeError<String>),
}

/// The view of a `Next`.
pub enum NextView {
    Send(CallView),
    ReadBody,
    ReadText,
    MergeLogprobs { prefill: JsonView, decode: JsonView },
    Respond(ReplyView),
    Fail(ExchangeError<Seq<char>>),
}

impl View for Next {
    type V = NextView;

    open spec fn view(&self) -> NextView {
        match self {
            Next::Send(call) => NextView::Send(call@),
            Next::ReadBody => NextView::ReadBody,
            Next::ReadText => NextView::ReadText,
            Next::MergeLogprobs { prefill, decode } => NextView::MergeLogprobs {
                prefill: json_view(*prefill),
                decode: json_view(*decode),
            },
            Next::Respond(reply) => NextView::Respond(reply@),
            Next::Fail(error) => NextView::Fail(error@),
        }
    }
}

impl NextView {
    /// Whether an event is one that tells how this went.
    pub open spec fn is_answered_by(self, event: EventView) -> bool {
        match self {
            NextView::Send(_) => event is Response,
            NextView::ReadBody => event is Body,
            NextView::ReadText => event is Text,
            NextView::MergeLogprobs { .. } => event is Merged,
            NextView::Respond(_) => event is BuildFailed,
            NextView::Fail(_) => false,
        }
    }
}

/// One step of an exchange.
pub struct Step {
    pub effects: Vec<Effect<String>>,
    pub next: Next,
}

/// The view of a `Step`.
pub struct StepView {
    pub effects: Seq<Effect<Seq<char>>>,
    pub next: NextView,
}

impl View for Step {
    type V = StepView;

    open spec fn view(&self) -> StepView {
        StepView {
            effects: effects_view(self.effects@),
            next: self.next@,
        }
    }
}

/// How what an exchange waited for went. A failure comes with its text.
pub enum Event {
    Response(Result<ResponseHead, String>),
    Body(Result<Vec<u8>, String>),
    Text(Result<String, String>),
    Merged(Value),
    BuildFailed(String),
}

/// The view of an `Event`.
pub enum EventView {
    Response(Result<ResponseHeadView, Seq<char>>),
    Body(Result<Seq<u8>, Seq<char>>),
    Text(Result<Seq<char>, Seq<char>>),
    Merged(JsonView),
    BuildFailed(Seq<char>),
}

impl View for Event {
    type V = EventView;

    open spec fn view(&self) -> EventView {
        match self {
            Event::Response(Ok(head)) => EventView::Response(Ok(head@)),
            Event::Response(Err(error)) => EventView::Response(Err(error@)),
            Event::Body(Ok(bytes)) => EventView::Body(Ok(bytes@)),
            Event::Body(Err(error)) => EventView::Body(Err(error@)),
            Event::Text(Ok(text)) => EventView::Text(Ok(text@)),
            Event::Text(Err(error)) => EventView::Text(Err(error@)),
            Event::Merged(value) => EventView::Merged(json_view(*value)),
            Event::BuildFailed(error) => EventView::BuildFailed(error@),
        }
    }
}

impl EventView {
    /// Whether this is a worker's answer with a status of success.
    pub open spec fn is_success(self) -> bool {
        self matches EventView::Response(Ok(head)) && head.is_success()
    }
}

/// What an effect does to the load of the worker of a stage.
pub open spec fn load_change(effect: Effect<Seq<char>>, stage: Stage) -> int {
    match effect {
        Effect::IncrementLoad(s) => if s == stage {
            1
        } else {
            0
        },
        Effect::DecrementLoad(s) => if s == stage {
            -1
        } else {
            0
        },
        _ => 0,
    }
}

/// What effects do to the load of the worker of a stage, in sum.
pub open spec fn load(effects: Seq<Effect<Seq<char>>>, stage: Stage) -> int
    decreases effects.len(),
{
    if effects.len() == 0 {
        0
    } else {
        load(effects.drop_last(), stage) + load_change(effects.last(), stage)
    }
}

/// How often an effect is had.
pub open spec fn times(effects: Seq<Effect<Seq<char>>>, effect: Effect<Seq<char>>) -> int
    decreases effects.len(),
{
    if effects.len() == 0 {
        0
    } else {
        times(effects.drop_last(), effect) + once_if(effects.last() == effect)
    }
}

/// One where something holds, and nought elsewhere.
pub open spec fn once_if(holds: bool) -> int {
    if holds {
        1
    } else {
        0
    }
}

/// What is left of the profiling of a worker: the starts, less the stops.
pub open spec fn profiled(effects: Seq<Effect<Seq<char>>>, url: Seq<char>) -> int {
    times(effects, Effect::StartProfiling(url)) - times(effects, Effect::StopProfiling(url))
}

/// The sums of effects after effects are the sums of both.
pub proof fn lemma_effects_add_up(
    a: Seq<Effect<Seq<char>>>,
    b: Seq<Effect<Seq<char>>>,
    stage: Stage,
    effect: Effect<Seq<char>>,
)
    ensures
        load(a + b, stage) == load(a, stage) + load(b, stage),
        times(a + b, effect) == times(a, effect) + times(b, effect),
    decreases b.len(),
{
    if b.len() == 0 {
        assert(a + b =~= a);
    } else {
        lemma_effects_add_up(a, b.drop_last(), stage, effect);
        assert((a + b).drop_last() =~= a + b.drop_last());
    }
}

/// The sums of one effect.
pub proof fn lemma_one_effect(a: Effect<Seq<char>>, stage: Stage, effect: Effect<Seq<char>>)
    ensures
        load(seq![a], stage) == load_change(a, stage),
        times(seq![a], effect) == once_if(a == effect),
{
    reveal_with_fuel(load, 2);
    reveal_with_fuel(times, 2);
}

/// The sums of two effects.
pub proof fn lemma_two_effects(
    a: Effect<Seq<char>>,
    b: Effect<Seq<char>>,
    stage: Stage,
    effect: Effect<Seq<char>>,
)
    ensures
        load(seq![a, b], stage) == load_change(a, stage) + load_change(b, stage),
        times(seq![a, b], effect) == once_if(a == effect) + once_if(b == effect),
{
    lemma_one_effect(a, stage, effect);
    assert(seq![a, b].drop_last() =~= seq![a]);
}

} // verus!
