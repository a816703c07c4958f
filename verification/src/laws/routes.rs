//! Laws on the ways of client requests, on refusals, and on the start of a router.
use crate::discovery::{full_url, BasicWorker};
use crate::exchange::{Metric, Stage};
use crate::json::{json_text, json_view};
use crate::router::VllmPDRouter;
use crate::routing::{
    law_candidates_come_into_question, serialization_refusal, DecodeSelection, Refusal, Route,
    RouteKind, Selected, Selection,
};
use crate::startup::{plan_startup, Settings, StartupPlan};
use crate::text::numeral;
use serde_json::Value;
use vstd::prelude::*;

verus! {

/// Whether a refusal says that the service is unavailable, and is recorded as a failure to select a
/// worker.
pub open spec fn is_unavailable(refusal: Refusal, message: Seq<char>) -> bool {
    &&& refusal.status == 503
    &&& refusal.message@ == message
    &&& refusal.metric matches Some(Metric::Error(kind)) && kind@ == "server_selection"@
}

/// Whether a refusal tells of a failure, and is not recorded.
pub open spec fn is_failure(refusal: Refusal, message: Seq<char>) -> bool {
    refusal.status == 500 && refusal.message@ == message && refusal.metric is None
}

/// Chat and completion requests go on their own paths, as they are: to announced workers where the
/// router uses service discovery, and elsewhere to all workers of known URLs.
pub proof fn law_endpoints_have_their_paths(
    router: &VllmPDRouter,
    request: Value,
    chat: Route,
    completion: Route,
)
    requires
        call_ensures(VllmPDRouter::route_chat, (router, request), chat),
        call_ensures(VllmPDRouter::route_completion, (router, request), completion),
    ensures
        chat.path@ == "/v1/chat/completions"@,
        completion.path@ == "/v1/completions"@,
        json_view(chat.request) == json_view(request),
        json_view(completion.request) == json_view(request),
        chat.kind == completion.kind,
        router@.use_discovery ==> chat.kind == RouteKind::Discovery,
        !router@.use_discovery ==> chat.kind == RouteKind::Direct,
{
}

/// What is posted goes on, as it is and on its path: to announced workers where the router uses
/// service discovery, and elsewhere to available workers of known URLs. What comes by any other
/// method is refused. Requests of the Responses API go the way of what is posted to their path.
pub proof fn law_only_posts_are_proxied(
    router: &VllmPDRouter,
    path: &str,
    method: &str,
    body: Value,
    route: Result<Route, Refusal>,
    responses: Result<Route, Refusal>,
)
    requires
        call_ensures(VllmPDRouter::route_transparent, (router, path, method, body), route),
        call_ensures(VllmPDRouter::route_responses, (router, body), responses),
    ensures
        route is Ok <==> method@ == "POST"@,
        route matches Ok(way) ==> {
            &&& way.path@ == path@
            &&& json_view(way.request) == json_view(body)
            &&& router@.use_discovery ==> way.kind == RouteKind::Discovery
            &&& !router@.use_discovery ==> way.kind == RouteKind::TransparentProxy
        },
        route matches Err(refusal) ==> {
            &&& refusal.status == 405
            &&& refusal.message@ == "Only POST requests are supported for transparent proxy"@
            &&& refusal.metric is None
        },
        responses matches Ok(way) && {
            &&& way.path@ == "/v1/responses"@
            &&& json_view(way.request) == json_view(body)
            &&& router@.use_discovery ==> way.kind == RouteKind::Discovery
            &&& !router@.use_discovery ==> way.kind == RouteKind::TransparentProxy
        },
{
}

/// The candidates are positions in the list of workers, in rising order: every position, or, for a
/// transparent proxy, that of every available worker and of no other.
pub proof fn law_candidates_are_the_workers_in_question(
    route: &Route,
    available: &Vec<bool>,
    chosen: Vec<usize>,
    position: usize,
)
    requires
        call_ensures(Route::candidates, (route, available), chosen),
        available@.len() <= usize::MAX,
    ensures
        forall|i: int, j: int|
            0 <= i < j < chosen@.len() ==> #[trigger] chosen@[i] < #[trigger] chosen@[j],
        route.kind == RouteKind::TransparentProxy ==> (chosen@.contains(position) <==> position
            < available@.len() && available@[position as int]),
        route.kind != RouteKind::TransparentProxy ==> (chosen@.contains(position) <==> position
            < available@.len()),
{
    law_candidates_come_into_question(available@, route.kind);
}

/// A request goes on to the policies, as it is and with all its candidates, where it has some of
/// both kinds; elsewhere it is refused, and told how many of each there are. Policies see its text.
pub proof fn law_requests_need_workers_of_both_kinds<C>(
    route: Route,
    prefill: Vec<C>,
    decode: Vec<C>,
    selection: Result<Selection<C>, Refusal>,
    count: usize,
    other_count: usize,
    prefills: String,
    decodes: String,
)
    requires
        call_ensures(Route::select::<C>, (route, prefill, decode), selection),
        count == prefill@.len(),
        other_count == decode@.len(),
        call_ensures(numeral, (count,), prefills),
        call_ensures(numeral, (other_count,), decodes),
    ensures
        selection is Ok <==> prefill@.len() >= 1 && decode@.len() >= 1,
        selection matches Ok(goes) ==> {
            &&& goes.route == route
            &&& goes.prefill@ == prefill@
            &&& goes.decode@ == decode@
            &&& match json_text(json_view(route.request)) {
                Ok(text) => goes.request_text matches Some(seen) && seen@ == text,
                Err(_) => goes.request_text is None,
            }
        },
        selection matches Err(refusal) ==> is_unavailable(
            refusal,
            (match route.kind {
                RouteKind::Discovery => "No workers available via service discovery: "@,
                RouteKind::Direct => "No workers available: "@,
                RouteKind::TransparentProxy => "No available workers: "@,
            }) + prefills@ + " prefill, "@ + decodes@ + " decode"@,
        ),
{
}

/// A request whose text is at hand goes on to the policies as it is, with all its candidates; where
/// the text could not be written, the policies see none.
pub proof fn law_policies_see_the_text_at_hand<C>(
    route: Route,
    prefill: Vec<C>,
    decode: Vec<C>,
    written: Result<String, String>,
    selection: Selection<C>,
)
    requires
        call_ensures(Route::with_text::<C>, (route, prefill, decode, written), selection),
    ensures
        selection.route == route,
        selection.prefill@ == prefill@,
        selection.decode@ == decode@,
        match written {
            Ok(text) => selection.request_text == Some(text),
            Err(_) => selection.request_text is None,
        },
{
}

/// The two workers that a request is served by are those that the two policies chose, each among
/// its own candidates, and the request is the one that was selected for. Where a policy chose none,
/// the request is refused.
pub proof fn law_chosen_workers_serve_the_request<C>(
    selection: Selection<C>,
    first: Option<usize>,
    next: Result<DecodeSelection<C>, Refusal>,
    second: Option<usize>,
    last: Result<Selected<C>, Refusal>,
)
    requires
        first matches Some(i) ==> i < selection.prefill@.len(),
        second matches Some(i) ==> i < selection.decode@.len(),
        call_ensures(Selection::<C>::choose_prefill, (selection, first), next),
        next matches Ok(chosen) ==> call_ensures(
            DecodeSelection::<C>::choose_decode,
            (chosen, second),
            last,
        ),
    ensures
        next is Ok <==> first is Some,
        next matches Err(refusal) ==> is_unavailable(
            refusal,
            "Prefill policy failed to select a worker"@,
        ),
        next matches Ok(chosen) ==> {
            &&& chosen.decode@ == selection.decode@
            &&& chosen.request_text == selection.request_text
            &&& last is Ok <==> second is Some
            &&& last matches Err(refusal) ==> is_unavailable(
                refusal,
                "Decode policy failed to select a worker"@,
            )
            &&& last matches Ok(selected) ==> {
                &&& selected.route == selection.route
                &&& selected.prefill == selection.prefill@[first->0 as int]
                &&& selected.decode == selection.decode@[second->0 as int]
            }
        },
{
}

/// The policy of a stage is asked about all announced workers of the stage, and about none where
/// there are none.
pub proof fn law_policies_are_asked_about_every_instance(
    instances: &Vec<(String, String)>,
    is_prefill: bool,
    query: Option<(Stage, Vec<BasicWorker>)>,
    workers: Vec<BasicWorker>,
    i: int,
)
    requires
        call_ensures(VllmPDRouter::policy_query, (instances, is_prefill), query),
        call_ensures(VllmPDRouter::instances_to_workers, (instances,), workers),
    ensures
        query is Some <==> instances@.len() >= 1,
        query matches Some((stage, asked)) ==> {
            &&& is_prefill ==> stage == Stage::Prefill
            &&& !is_prefill ==> stage == Stage::Decode
            &&& asked@.len() == workers@.len()
            &&& 0 <= i < asked@.len() ==> asked@[i].url@ == workers@[i].url@
                && asked@[i].worker_type == workers@[i].worker_type
        },
{
    if let Some((stage, asked)) = query {
        if 0 <= i < asked@.len() {
            assert(asked[i].url@ == full_url(instances[i].0@));
            assert(workers[i].url@ == full_url(instances[i].0@));
        }
    }
}

/// A failure is told to the client with its text, behind words that say what has failed.
pub proof fn law_failures_are_told(
    kind: RouteKind,
    error: &str,
    failure: Refusal,
    unserialized: Refusal,
)
    requires
        call_ensures(RouteKind::failure, (kind, error), failure),
        call_ensures(serialization_refusal, (error,), unserialized),
    ensures
        kind == RouteKind::TransparentProxy ==> is_failure(
            failure,
            "Transparent proxy request failed: "@ + error@,
        ),
        kind != RouteKind::TransparentProxy ==> is_failure(
            failure,
            "Request processing failed: "@ + error@,
        ),
        is_failure(unserialized, "Serialization error: "@ + error@),
{
}

/// A router with an address for service discovery listens there and registers no worker; one
/// without registers all the workers that it was given, and does not listen.
pub proof fn law_a_router_listens_or_knows_its_workers(
    prefill_urls: Vec<(String, Option<u16>)>,
    decode_urls: Vec<String>,
    discovery_address: Option<String>,
    plan: StartupPlan,
)
    requires
        call_ensures(plan_startup, (prefill_urls, decode_urls, discovery_address), plan),
    ensures
        match discovery_address {
            Some(address) => {
                &&& plan.listen_on == Some(address)
                &&& plan.prefill_urls@.len() == 0
                &&& plan.decode_urls@.len() == 0
            },
            None => {
                &&& plan.listen_on is None
                &&& plan.prefill_urls@ == prefill_urls@
                &&& plan.decode_urls@ == decode_urls@
            },
        },
{
}

/// A router starts where its workers could be registered and, if it is to listen, it listens; it
/// then has its settings and no profiling task. Otherwise what went wrong first is told.
pub proof fn law_a_router_starts_with_its_settings(
    use_discovery: bool,
    settings: Settings,
    registered: Result<(), String>,
    listening: Result<(), String>,
    started: Result<VllmPDRouter, String>,
)
    requires
        call_ensures(VllmPDRouter::new, (use_discovery, settings, registered, listening), started),
    ensures
        started is Ok <==> registered is Ok && (use_discovery ==> listening is Ok),
        started matches Ok(router) ==> {
            &&& router@.use_discovery == use_discovery
            &&& router@.enable_profiling == settings.enable_profiling
            &&& router@.profile_timeout_secs == settings.profile_timeout_secs
            &&& router@.intra_node_data_parallel_size == settings.intra_node_data_parallel_size
            &&& router@.profiling_tasks.dom() == Set::<Seq<char>>::empty()
            &&& router.wf()
        },
        started matches Err(message) ==> match registered {
            Err(error) => message@ == error@,
            Ok(_) => listening matches Err(error) && message@
                == "Failed to start service discovery: "@ + error@,
        },
{
}

/// At the start, those policies that ask for it are given the workers of their stage, the prefill
/// policy first, and none where workers are announced.
pub proof fn law_policies_that_ask_are_initialized(
    router: &VllmPDRouter,
    prefill_asks: bool,
    decode_asks: bool,
    stages: Vec<Stage>,
    discovers: bool,
    ranks: bool,
    name: &'static str,
)
    requires
        call_ensures(
            VllmPDRouter::policies_to_initialize,
            (router, prefill_asks, decode_asks),
            stages,
        ),
        call_ensures(VllmPDRouter::uses_discovery, (router,), discovers),
        call_ensures(VllmPDRouter::is_dp_aware, (router,), ranks),
        call_ensures(VllmPDRouter::router_type, (router,), name),
    ensures
        discovers == router@.use_discovery,
        ranks <==> router@.intra_node_data_parallel_size >= 2,
        name@ == "vllm_pd"@,
        discovers ==> stages@.len() == 0,
        !discovers ==> {
            &&& stages@.len() == (if prefill_asks {
                1int
            } else {
                0
            }) + (if decode_asks {
                1int
            } else {
                0
            })
            &&& prefill_asks ==> stages@[0] == Stage::Prefill
            &&& decode_asks ==> stages@[stages@.len() - 1] == Stage::Decode
        },
{
}

} // verus!
