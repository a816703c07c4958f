//! Addresses of workers: URLs with and without their scheme, and the workers that service
//! discovery announces.
use crate::router::VllmPDRouter;
use crate::text::{erase, erased, lemma_erased_absent, lemma_erased_prefix, occurs, occurs_at, starts_with};
use vstd::prelude::*;
use vstd::string::StringExecFns;

verus! {

/// The kind of a worker that a load-balancing policy chooses among.
#[derive(Clone, Copy, PartialEq, Eq, Structural, Debug)]
pub enum WorkerType {
    Regular,
}

/// A worker as a load-balancing policy sees it.
#[derive(Debug)]
pub struct BasicWorker {
    pub url: String,
    pub worker_type: WorkerType,
}

/// `url` without its scheme.
pub open spec fn schemeless(url: Seq<char>) -> Seq<char> {
    erased(erased(url, "http://"@), "https://"@)
}

/// Whether `address` begins with a scheme.
pub open spec fn has_scheme(address: Seq<char>) -> bool {
    occurs_at(address, "http://"@, 0) || occurs_at(address, "https://"@, 0)
}

/// The URL of an announced address: HTTP, unless the address names its scheme.
pub open spec fn full_url(address: Seq<char>) -> Seq<char> {
    if has_scheme(address) {
        address
    } else {
        "http://"@ + address
    }
}

/// The ZMQ address of a worker: the announced one, or its HTTP address where none is known.
pub open spec fn zmq_address(http_url: Seq<char>, announced: Option<Seq<char>>) -> Seq<char> {
    match announced {
        Some(address) => address,
        None => schemeless(http_url),
    }
}

/// The view of an optional text.
pub open spec fn optional_text(text: Option<String>) -> Option<Seq<char>> {
    match text {
        Some(text) => Some(text@),
        None => None,
    }
}

/// The host and port of a worker URL, under which service discovery knows the worker.
pub fn http_address(http_url: &str) -> (address: String)
    ensures
        address@ == schemeless(http_url@),
{
    proof {
        reveal_strlit("http://");
        reveal_strlit("https://");
    }
    let without_http = erase(http_url, "http://");
    erase(without_http.as_str(), "https://")
}

/// `http://` and `address`.
pub fn http_url(address: &str) -> (url: String)
    ensures
        url@ == "http://"@ + address@,
{
    let mut url = "http://".to_owned();
    url.append(address);
    url
}

impl VllmPDRouter {
    /// The ZMQ address of a worker: what service discovery `announced` for its `http_address`,
    /// or else that address itself.
    pub fn get_zmq_address(http_url: &str, announced: Option<String>) -> (address: String)
        ensures
            address@ == zmq_address(http_url@, optional_text(announced)),
    {
        match announced {
            Some(address) => address,
            None => http_address(http_url),
        }
    }

    /// The workers that service discovery announces, each by its HTTP and its ZMQ address, as
    /// a policy chooses among them.
    pub fn instances_to_workers(instances: &Vec<(String, String)>) -> (workers: Vec<BasicWorker>)
        ensures
            workers.len() == instances.len(),
            forall|i: int|
                0 <= i < workers.len() ==> (#[trigger] workers[i]).url@ == full_url(
                    instances[i].0@,
                ),
            forall|i: int| 0 <= i < workers.len() ==> (#[trigger] workers[i]).worker_type == WorkerType::Regular,
    {
        let mut workers: Vec<BasicWorker> = Vec::new();
        for i in 0..instances.len()
            invariant
                workers.len() == i,
                forall|j: int|
                    0 <= j < i ==> (#[trigger] workers[j]).url@ == full_url(instances[j].0@),
                forall|j: int| 0 <= j < i ==> (#[trigger] workers[j]).worker_type == WorkerType::Regular,
        {
            let address = instances[i].0.as_str();
            let url = if starts_with(address, "http://") || starts_with(address, "https://") {
                address.to_owned()
            } else {
                http_url(address)
            };
            workers.push(BasicWorker { url, worker_type: WorkerType::Regular });
        }
        workers
    }
}

/// The URL of an announced worker always has a scheme, and is its own URL.
pub proof fn law_full_url_has_scheme(address: Seq<char>)
    ensures
        has_scheme(full_url(address)),
        full_url(full_url(address)) == full_url(address),
{
    if !has_scheme(address) {
        assert(("http://"@ + address).subrange(0, "http://"@.len() as int) =~= "http://"@);
    }
}

/// An address without a scheme in it is what is left of its HTTP and of its HTTPS URL, and is
/// itself left as it is.
pub proof fn law_schemeless_undoes_the_scheme(address: Seq<char>)
    requires
        !occurs(address, "http://"@),
        !occurs(address, "https://"@),
    ensures
        schemeless(address) == address,
        schemeless("http://"@ + address) == address,
        schemeless("https://"@ + address) == address,
{
    reveal_strlit("http://");
    reveal_strlit("https://");
    lemma_erased_absent(address, "http://"@);
    lemma_erased_absent(address, "https://"@);
    lemma_erased_prefix("http://"@, address);
    lemma_erased_prefix("https://"@, address);
    let url = "https://"@ + address;
    let http = "http://"@;
    assert forall|at: int| !occurs_at(url, http, at) by {
        if occurs_at(url, http, at) {
            let found = url.subrange(at, at + http.len());
            assert(found[0] == url[at] && found[4] == url[at + 4]);
            assert(http[0] == 'h' && http[4] == ':');
            if at < "https://"@.len() {
                assert(url[at] == "https://"@[at]);
                assert("https://"@[4] == 's');
                assert(at == 0);
                assert(url[4] == 's');
            } else {
                let inner = at - "https://"@.len();
                assert(address.subrange(inner, inner + http.len()) =~= found);
                assert(occurs_at(address, http, inner));
            }
        }
    }
    lemma_erased_absent(url, http);
}

} // verus!
