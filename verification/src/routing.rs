//! The way of a client request to its two workers: which workers come into question, what the
//! policies are asked, and how the client is refused.
use crate::discovery::{full_url, BasicWorker, WorkerType};
use crate::exchange::{Metric, Stage};
use crate::json::{json_text, json_view, to_text, JsonView};
use crate::router::VllmPDRouter;
use crate::text::{concat, decimal, numeral, same};
use serde_json::Value;
use vstd::prelude::*;
use vstd::string::StringExecFns;

verus! {

/// A refusal of a client request.
pub struct Refusal {
    /// The HTTP status.
    pub status: u16,
    /// The text of the reply.
    pub message: String,
    /// What is to be recorded, if anything.
    pub metric: Option<Metric<String>>,
}

/// The view of a `Refusal`.
pub struct RefusalView {
    pub status: u16,
    pub message: Seq<char>,
    pub metric: Option<Metric<Seq<char>>>,
}

impl View for Refusal {
    type V = RefusalView;

    open spec fn view(&self) -> RefusalView {
        RefusalView {
            status: self.status,
            message: self.message@,
            metric: match self.metric {
                Some(metric) => Some(metric@),
                None => None,
            },
        }
    }
}

impl RefusalView {
    /// No worker could be selected: the service is unavailable, and that is recorded.
    pub open spec fn no_selection(message: Seq<char>) -> RefusalView {
        RefusalView {
            status: 503,
            message,
            metric: Some(Metric::Error("server_selection"@)),
        }
    }

    /// A failure of the router.
    pub open spec fn internal(message: Seq<char>) -> RefusalView {
        RefusalView { status: 500, message, metric: None }
    }
}

/// The ways that a client request can go.
#[derive(Clone, Copy, PartialEq, Eq, Structural, Debug)]
pub enum RouteKind {
    /// To workers that service discovery announces.
    Discovery,
    /// To workers of known URLs.
    Direct,
    /// To those workers of known URLs that are available.
    TransparentProxy,
}

impl RouteKind {
    /// How the lack of workers is told to the client, up to the numbers.
    pub open spec fn lack_text(self) -> Seq<char> {
        match self {
            RouteKind::Discovery => "No workers available via service discovery: "@,
            RouteKind::Direct => "No workers available: "@,
            RouteKind::TransparentProxy => "No available workers: "@,
        }
    }

    /// How a failure of the exchange with the workers is told to the client, up to its text.
    pub open spec fn failure_text(self) -> Seq<char> {
        match self {
            RouteKind::TransparentProxy => "Transparent proxy request failed: "@,
            _ => "Request processing failed: "@,
        }
    }

    /// The refusal for a lack of prefill or decode workers.
    pub open spec fn lack(self, prefill: nat, decode: nat) -> RefusalView {
        RefusalView::no_selection(
            self.lack_text() + decimal(prefill) + " prefill, "@ + decimal(decode) + " decode"@,
        )
    }

    /// The refusal for a failure of the exchange with the workers.
    pub fn failure(self, error: &str) -> (refusal: Refusal)
        ensures
            refusal@ == RefusalView::internal(self.failure_text() + error@),
    {
        let prefix = match self {
            RouteKind::TransparentProxy => "Transparent proxy request failed: ",
            _ => "Request processing failed: ",
        };
        Refusal { status: 500, message: concat(prefix, error), metric: None }
    }

    /// The refusal for a lack of prefill or decode workers.
    fn refuse_for_lack(self, prefill: usize, decode: usize) -> (refusal: Refusal)
        ensures
            refusal@ == self.lack(prefill as nat, decode as nat),
    {
        let prefix = match self {
            RouteKind::Discovery => "No workers available via service discovery: ",
            RouteKind::Direct => "No workers available: ",
            RouteKind::TransparentProxy => "No available workers: ",
        };
        let mut message = prefix.to_owned();
        message.append(numeral(prefill).as_str());
        message.append(" prefill, ");
        message.append(numeral(decode).as_str());
        message.append(" decode");
        no_selection(message)
    }
}

/// The refusal where no worker could be selected.
fn no_selection(message: String) -> (refusal: Refusal)
    ensures
        refusal@ == RefusalView::no_selection(message@),
{
    Refusal { status: 503, message, metric: Some(Metric::Error("server_selection".to_owned())) }
}

/// The refusal of a request that could not be turned into JSON.
pub fn serialization_refusal(error: &str) -> (refusal: Refusal)
    ensures
        refusal@ == RefusalView::internal("Serialization error: "@ + error@),
{
    Refusal { status: 500, message: concat("Serialization error: ", error), metric: None }
}

/// A client request on its way.
pub struct Route {
    pub kind: RouteKind,
    pub path: String,
    pub request: Value,
}

/// The view of a `Route`.
pub struct RouteView {
    pub kind: RouteKind,
    pub path: Seq<char>,
    pub request: JsonView,
}

impl View for Route {
    type V = RouteView;

    open spec fn view(&self) -> RouteView {
        RouteView { kind: self.kind, path: self.path@, request: json_view(self.request) }
    }
}

/// The way of a request to a known endpoint.
pub open spec fn endpoint_kind(use_discovery: bool) -> RouteKind {
    if use_discovery {
        RouteKind::Discovery
    } else {
        RouteKind::Direct
    }
}

/// The way of a request on any path.
pub open spec fn proxy_kind(use_discovery: bool) -> RouteKind {
    if use_discovery {
        RouteKind::Discovery
    } else {
        RouteKind::TransparentProxy
    }
}

impl VllmPDRouter {
    /// Sends a chat request on its way.
    pub fn route_chat(&self, request: Value) -> (route: Route)
        ensures
            route@ == (RouteView {
                kind: endpoint_kind(self@.use_discovery),
                path: "/v1/chat/completions"@,
                request: json_view(request),
            }),
    {
        self.route_endpoint("/v1/chat/completions", request)
    }

    /// Sends a completion request on its way.
    pub fn route_completion(&self, request: Value) -> (route: Route)
        ensures
            route@ == (RouteView {
                kind: endpoint_kind(self@.use_discovery),
                path: "/v1/completions"@,
                request: json_view(request),
            }),
    {
        self.route_endpoint("/v1/completions", request)
    }

    /// Sends a request to a known endpoint on its way.
    fn route_endpoint(&self, path: &str, request: Value) -> (route: Route)
        ensures
            route@ == (RouteView {
                kind: endpoint_kind(self@.use_discovery),
                path: path@,
                request: json_view(request),
            }),
    {
        let kind = if self.uses_discovery() {
            RouteKind::Discovery
        } else {
            RouteKind::Direct
        };
        Route { kind, path: path.to_owned(), request }
    }

    /// Sends a request of the Responses API on its way.
    pub fn route_responses(&self, request: Value) -> (route: Result<Route, Refusal>)
        ensures
            route matches Ok(route) && route@ == (RouteView {
                kind: proxy_kind(self@.use_discovery),
                path: "/v1/responses"@,
                request: json_view(request),
            }),
    {
        self.route_transparent("/v1/responses", "POST", request)
    }

    /// Sends a request on any path on its way. Only what is posted goes to workers.
    pub fn route_transparent(&self, path: &str, method: &str, body: Value) -> (route: Result<
        Route,
        Refusal,
    >)
        ensures
            match route {
                Ok(route) => method@ == "POST"@ && route@ == (RouteView {
                    kind: proxy_kind(self@.use_discovery),
                    path: path@,
                    request: json_view(body),
                }),
                Err(refusal) => method@ != "POST"@ && refusal@ == (RefusalView {
                    status: 405,
                    message: "Only POST requests are supported for transparent proxy"@,
                    metric: None,
                }),
            },
    {
        if !same(method, "POST") {
            return Err(
                Refusal {
                    status: 405,
                    message: "Only POST requests are supported for transparent proxy".to_owned(),
                    metric: None,
                },
            );
        }
        let kind = if self.uses_discovery() {
            RouteKind::Discovery
        } else {
            RouteKind::TransparentProxy
        };
        Ok(Route { kind, path: path.to_owned(), request: body })
    }

    /// Which policy is asked to choose among announced workers, and which workers it is shown;
    /// nothing where there are none.
    pub fn policy_query(instances: &Vec<(String, String)>, is_prefill: bool) -> (query: Option<
        (Stage, Vec<BasicWorker>),
    >)
        ensures
            match query {
                Some((stage, workers)) => {
                    &&& instances.len() > 0
                    &&& stage == if is_prefill {
                        Stage::Prefill
                    } else {
                        Stage::Decode
                    }
                    &&& workers.len() == instances.len()
                    &&& forall|i: int|
                        0 <= i < workers.len() ==> (#[trigger] workers[i]).url@ == full_url(
                            instances[i].0@,
                        ) && workers[i].worker_type == WorkerType::Regular
                },
                None => instances.len() == 0,
            },
    {
        if instances.len() == 0 {
            return None;
        }
        let stage = if is_prefill {
            Stage::Prefill
        } else {
            Stage::Decode
        };
        Some((stage, Self::instances_to_workers(instances)))
    }
}

/// The positions of the workers that come into question, in order.
pub open spec fn positions(available: Seq<bool>, kind: RouteKind) -> Seq<usize> {
    Seq::new(available.len(), |i: int| i as usize).filter(
        |i: usize| kind == RouteKind::TransparentProxy ==> available[i as int],
    )
}

/// The workers that a policy is to choose from, once it is sure that there are some of both
/// kinds.
pub struct Selection<C> {
    pub route: Route,
    pub prefill: Vec<C>,
    pub decode: Vec<C>,
    /// The text of the request, as the policies see it.
    pub request_text: Option<String>,
}

/// The workers that are left to choose from, once the prefill worker has been chosen.
pub struct DecodeSelection<C> {
    pub route: Route,
    pub prefill: C,
    pub decode: Vec<C>,
    /// The text of the request, as the policies see it.
    pub request_text: Option<String>,
}

/// A client request with its two workers.
pub struct Selected<C> {
    pub route: Route,
    pub prefill: C,
    pub decode: C,
}

/// The text of a request, as the policies see it: none where it cannot be written.
pub open spec fn policy_text(request: JsonView) -> Option<Seq<char>> {
    match json_text(request) {
        Ok(text) => Some(text),
        Err(_) => None,
    }
}

impl Route {
    /// The positions of those workers of known URLs that come into question: all of them, or
    /// those that are available, in order.
    pub fn candidates(&self, available: &Vec<bool>) -> (chosen: Vec<usize>)
        ensures
            chosen@ == positions(available@, self.kind),
    {
        let mut chosen: Vec<usize> = Vec::new();
        let ghost all = Seq::new(available@.len(), |i: int| i as usize);
        let ghost keep = |i: usize|
            self.kind == RouteKind::TransparentProxy ==> available@[i as int];
        assert(chosen@ =~= all.take(0).filter(keep)) by {
            reveal(Seq::filter);
        }
        let only_available = match self.kind {
            RouteKind::TransparentProxy => true,
            _ => false,
        };
        for i in 0..available.len()
            invariant
                all == Seq::new(available@.len(), |i: int| i as usize),
                keep == (|i: usize|
                    self.kind == RouteKind::TransparentProxy ==> available@[i as int]),
                only_available == (self.kind == RouteKind::TransparentProxy),
                chosen@ == all.take(i as int).filter(keep),
        {
            let comes_into_question = !only_available || available[i];
            if comes_into_question {
                chosen.push(i);
            }
            proof {
                reveal(Seq::filter);
                assert(all.take(i + 1).drop_last() =~= all.take(i as int));
                assert(comes_into_question == keep(all[i as int]));
            }
        }
        assert(all.take(available.len() as int) =~= all);
        chosen
    }

    /// Goes on to the policies, where there are prefill and decode workers; refuses the client
    /// where there are none of either.
    pub fn select<C>(self, prefill: Vec<C>, decode: Vec<C>) -> (selection: Result<
        Selection<C>,
        Refusal,
    >)
        ensures
            match selection {
                Ok(selection) => {
                    &&& prefill.len() > 0 && decode.len() > 0
                    &&& selection.route == self
                    &&& selection.prefill == prefill
                    &&& selection.decode == decode
                    &&& match selection.request_text {
                        Some(text) => policy_text(self@.request) == Some(text@),
                        None => policy_text(self@.request) is None,
                    }
                },
                Err(refusal) => {
                    &&& prefill.len() == 0 || decode.len() == 0
                    &&& refusal@ == self.kind.lack(prefill@.len(), decode@.len())
                },
            },
    {
        if prefill.len() == 0 || decode.len() == 0 {
            return Err(self.kind.refuse_for_lack(prefill.len(), decode.len()));
        }
        let written = to_text(&self.request);
        Ok(self.with_text(prefill, decode, written))
    }

    /// The workers that the policies are to choose from, once the text of the request has been
    /// written, or could not be.
    pub fn with_text<C>(
        self,
        prefill: Vec<C>,
        decode: Vec<C>,
        written: Result<String, String>,
    ) -> (selection: Selection<C>)
        ensures
            selection.route == self,
            selection.prefill == prefill,
            selection.decode == decode,
            match written {
                Ok(text) => selection.request_text == Some(text),
                Err(_) => selection.request_text is None,
            },
    {
        let request_text = match written {
            Ok(text) => Some(text),
            Err(_) => None,
        };
        Selection { route: self, prefill, decode, request_text }
    }
}

impl<C> Selection<C> {
    /// Goes on with the prefill worker that the prefill policy chose; refuses the client where
    /// it chose none.
    pub fn choose_prefill(self, choice: Option<usize>) -> (next: Result<DecodeSelection<C>, Refusal>)
        requires
            choice matches Some(i) ==> i < self.prefill.len(),
        ensures
            match choice {
                Some(i) => {
                    &&& next matches Ok(next)
                    &&& next.route == self.route
                    &&& next.prefill == self.prefill[i as int]
                    &&& next.decode == self.decode
                    &&& next.request_text == self.request_text
                },
                None => next matches Err(refusal) && refusal@ == RefusalView::no_selection(
                    "Prefill policy failed to select a worker"@,
                ),
            },
    {
        match choice {
            Some(i) => {
                let mut workers = self.prefill;
                let prefill = workers.remove(i);
                Ok(
                    DecodeSelection {
                        route: self.route,
                        prefill,
                        decode: self.decode,
                        request_text: self.request_text,
                    },
                )
            },
            None => Err(no_selection("Prefill policy failed to select a worker".to_owned())),
        }
    }
}

impl<C> DecodeSelection<C> {
    /// Goes on with the decode worker that the decode policy chose; refuses the client where it
    /// chose none.
    pub fn choose_decode(self, choice: Option<usize>) -> (next: Result<Selected<C>, Refusal>)
        requires
            choice matches Some(i) ==> i < self.decode.len(),
        ensures
            match choice {
                Some(i) => {
                    &&& next matches Ok(next)
                    &&& next.route == self.route
                    &&& next.prefill == self.prefill
                    &&& next.decode == self.decode[i as int]
                },
                None => next matches Err(refusal) && refusal@ == RefusalView::no_selection(
                    "Decode policy failed to select a worker"@,
                ),
            },
    {
        match choice {
            Some(i) => {
                let mut workers = self.decode;
                let decode = workers.remove(i);
                Ok(Selected { route: self.route, prefill: self.prefill, decode })
            },
            None => Err(no_selection("Decode policy failed to select a worker".to_owned())),
        }
    }
}

/// The candidates are positions in the list of workers, in rising order: every position, or, for
/// a transparent proxy, that of every available worker and of no other.
pub proof fn law_candidates_come_into_question(available: Seq<bool>, kind: RouteKind)
    requires
        available.len() <= usize::MAX,
    ensures
        ({
            let chosen = positions(available, kind);
            &&& forall|i: int, j: int|
                0 <= i < j < chosen.len() ==> #[trigger] chosen[i] < #[trigger] chosen[j]
            &&& forall|p: usize| #[trigger]
                chosen.contains(p) <==> p < available.len() && (kind == RouteKind::TransparentProxy
                    ==> available[p as int])
        }),
{
    let all = Seq::new(available.len(), |i: int| i as usize);
    let keep = |i: usize| kind == RouteKind::TransparentProxy ==> available[i as int];
    lemma_filter_of_rising(all, keep);
    assert(positions(available, kind) == all.filter(keep));
    assert forall|p: usize| #[trigger] positions(available, kind).contains(p) <==> p < available.len() && (kind
        == RouteKind::TransparentProxy ==> available[p as int]) by {
        if p < available.len() {
            assert(all[p as int] == p);
        }
    }
}

/// A filter keeps a rising list rising, and keeps what passes it and nothing else.
proof fn lemma_filter_of_rising(all: Seq<usize>, keep: spec_fn(usize) -> bool)
    requires
        forall|i: int, j: int| 0 <= i < j < all.len() ==> #[trigger] all[i] < #[trigger] all[j],
    ensures
        forall|i: int, j: int|
            0 <= i < j < all.filter(keep).len() ==> #[trigger] all.filter(keep)[i]
                < #[trigger] all.filter(keep)[j],
        forall|p: usize| #[trigger]
            all.filter(keep).contains(p) <==> all.contains(p) && keep(p),
    decreases all.len(),
{
    reveal(Seq::filter);
    if all.len() > 0 {
        let rest = all.drop_last();
        lemma_filter_of_rising(rest, keep);
        assert forall|i: int| 0 <= i < rest.filter(keep).len() implies #[trigger] rest.filter(
            keep,
        )[i] < all.last() by {
            assert(rest.filter(keep).contains(rest.filter(keep)[i]));
            assert(rest.contains(rest.filter(keep)[i]));
        }
        assert forall|p: usize| #[trigger]
            all.filter(keep).contains(p) <==> all.contains(p) && keep(p) by {
            if all.contains(p) && p != all.last() {
                assert(rest.contains(p)) by {
                    let i = choose|i: int| 0 <= i < all.len() && all[i] == p;
                    assert(rest[i] == p);
                }
            }
            if rest.contains(p) {
                let i = choose|i: int| 0 <= i < rest.len() && rest[i] == p;
                assert(all[i] == p);
            }
            if keep(all.last()) {
                let kept = rest.filter(keep).push(all.last());
                assert(kept[kept.len() - 1] == all.last());
                assert(all[all.len() - 1] == all.last());
                if rest.filter(keep).contains(p) {
                    let i = choose|i: int|
                        0 <= i < rest.filter(keep).len() && rest.filter(keep)[i] == p;
                    assert(kept[i] == p);
                }
            }
        }
    }
}

} // verus!
