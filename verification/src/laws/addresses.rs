//! Laws on the addresses of workers, and on the ids that hold them.
use crate::discovery::{
    full_url, has_scheme, http_address, http_url, law_schemeless_undoes_the_scheme, optional_text, schemeless,
    zmq_address, BasicWorker, WorkerType,
};
use crate::laws::requests::{lemma_stands_at, lemma_stands_in};
use crate::laws::texts::lemma_erased_character;
use crate::laws::words::{stands_at, stands_in};
use crate::request_id::{is_random_uuid, law_request_id_ends_in_digits, request_id};
use crate::router::VllmPDRouter;
use crate::text::erase;
use vstd::prelude::*;

verus! {

/// Whether no scheme stands in an address.
pub open spec fn is_bare(address: Seq<char>) -> bool {
    !stands_in(address, "http://"@) && !stands_in(address, "https://"@)
}

/// Whether every character of a text is a hexadecimal digit in lower case.
pub open spec fn all_digits(text: Seq<char>) -> bool {
    forall|i: int|
        0 <= i < text.len() ==> ('0' <= #[trigger] text[i] && text[i] <= '9') || ('a' <= text[i]
            && text[i] <= 'f')
}

/// Whether an id names two addresses, and ends in thirty-two digits.
pub open spec fn is_request_id(id: Seq<char>, prefill: Seq<char>, decode: Seq<char>) -> bool {
    exists|digits: Seq<char>| #[trigger]
        all_digits(digits) && digits.len() == 32 && id == "___prefill_addr_"@ + prefill
            + "___decode_addr_"@ + decode + "_"@ + digits
}

/// Whether an address is that of a worker: the announced one, or else the URL without its scheme,
/// where that leaves a bare address.
pub open spec fn is_zmq_address(
    address: Seq<char>,
    url: Seq<char>,
    announced: Option<String>,
) -> bool {
    match announced {
        Some(text) => address == text@,
        None => forall|bare: Seq<char>| #[trigger]
            is_bare(bare) && (url == bare || url == "http://"@ + bare || url == "https://"@ + bare)
                ==> address == bare,
    }
}

/// What is left of the URL of a bare address is the address.
pub proof fn lemma_bare(bare: Seq<char>)
    ensures
        is_bare(bare) ==> schemeless(bare) == bare && schemeless("http://"@ + bare) == bare
            && schemeless("https://"@ + bare) == bare,
{
    if is_bare(bare) {
        lemma_stands_in(bare, "http://"@);
        lemma_stands_in(bare, "https://"@);
        law_schemeless_undoes_the_scheme(bare);
    }
}

/// The ZMQ address of a worker is its address.
pub proof fn lemma_zmq_address(url: Seq<char>, announced: Option<String>) -> (address: Seq<char>)
    ensures
        address == zmq_address(url, optional_text(announced)),
        is_zmq_address(address, url, announced),
{
    assert forall|bare: Seq<char>| #[trigger]
        is_bare(bare) && (url == bare || url == "http://"@ + bare || url == "https://"@
            + bare) implies schemeless(url) == bare by {
        lemma_bare(bare);
    }
    zmq_address(url, optional_text(announced))
}

/// The id of two addresses and a UUID names the two addresses.
pub proof fn lemma_request_id(prefill: Seq<char>, decode: Seq<char>)
    ensures
        forall|uuid: Seq<char>|
            is_random_uuid(uuid) ==> is_request_id(
                #[trigger] request_id(prefill, decode, uuid),
                prefill,
                decode,
            ),
{
    assert forall|uuid: Seq<char>| is_random_uuid(uuid) implies is_request_id(
        #[trigger] request_id(prefill, decode, uuid),
        prefill,
        decode,
    ) by {
        law_request_id_ends_in_digits(prefill, decode, uuid);
        let digits = uuid.subrange(0, 8) + uuid.subrange(9, 13) + uuid.subrange(14, 18)
            + uuid.subrange(19, 23) + uuid.subrange(24, 36);
        assert(all_digits(digits));
    }
}

/// A new id names the two addresses that it was made for, in their order, and ends in thirty-two
/// digits.
pub proof fn law_new_id_names_the_addresses(prefill_addr: &str, decode_addr: &str, id: String)
    requires
        call_ensures(VllmPDRouter::generate_vllm_request_id, (prefill_addr, decode_addr), id),
    ensures
        is_request_id(id@, prefill_addr@, decode_addr@),
{
    lemma_request_id(prefill_addr@, decode_addr@);
}

/// An id at hand names the two addresses that it is made for, in their order, and ends in the
/// characters of the UUID that are no hyphens, in their order.
pub proof fn law_id_ends_in_the_uuid(prefill_addr: &str, decode_addr: &str, uuid: &str, id: String)
    requires
        call_ensures(VllmPDRouter::format_vllm_request_id, (prefill_addr, decode_addr, uuid), id),
    ensures
        id@ == "___prefill_addr_"@ + prefill_addr@ + "___decode_addr_"@ + decode_addr@ + "_"@
            + uuid@.filter(|c: char| c != '-'),
{
    reveal_strlit("-");
    assert("-"@ =~= seq!['-']);
    lemma_erased_character(uuid@, '-');
}

/// The ZMQ address of a worker is the announced one, or else its URL without a scheme.
pub proof fn law_announced_address_goes_first(
    url: &str,
    announced: Option<String>,
    address: String,
    fallback: String,
)
    requires
        call_ensures(VllmPDRouter::get_zmq_address, (url, announced), address),
        call_ensures(http_address, (url,), fallback),
    ensures
        match announced {
            Some(text) => address@ == text@,
            None => address@ == fallback@,
        },
        is_zmq_address(address@, url@, announced),
{
    let _ = lemma_zmq_address(url@, announced);
}

/// The address in a URL is what is left of it once `http://` and then `https://` have been taken
/// out of it wherever they stand.
pub proof fn law_address_is_what_the_schemes_leave(
    url: &str,
    http: &str,
    rest: String,
    bare: &str,
    https: &str,
    address: String,
    last: String,
)
    requires
        http@ == "http://"@,
        https@ == "https://"@,
        call_ensures(http_address, (url,), address),
        call_ensures(erase, (url, http), rest),
        bare@ == rest@,
        call_ensures(erase, (bare, https), last),
    ensures
        address@ == last@,
        is_bare(url@) ==> address@ == url@,
{
    lemma_bare(url@);
}

/// The HTTP URL of an address is that address behind `http://`, and the address in it is the
/// address where that is bare.
pub proof fn law_url_and_address_belong_together(
    address: &str,
    url: String,
    text: &str,
    back: String,
)
    requires
        call_ensures(http_url, (address,), url),
        text@ == url@,
        call_ensures(http_address, (text,), back),
    ensures
        url@ == "http://"@ + address@,
        is_bare(address@) ==> back@ == address@,
{
    lemma_bare(address@);
}

/// Policies see one worker for each announced instance, in their order: by the instance's HTTP
/// address where that begins with a scheme, and by its HTTP URL elsewhere.
pub proof fn law_policies_see_every_instance(
    instances: &Vec<(String, String)>,
    workers: Vec<BasicWorker>,
)
    requires
        call_ensures(VllmPDRouter::instances_to_workers, (instances,), workers),
    ensures
        workers@.len() == instances@.len(),
        forall|i: int|
            0 <= i < workers@.len() ==> {
                let address = instances@[i].0@;
                let named = stands_at(address, "http://"@, 0) || stands_at(address, "https://"@, 0);
                &&& (#[trigger] workers@[i]).worker_type == WorkerType::Regular
                &&& workers@[i].url@ == if named {
                    address
                } else {
                    "http://"@ + address
                }
            },
{
    assert forall|i: int| 0 <= i < workers@.len() implies has_scheme(
        (#[trigger] instances@[i]).0@,
    ) == (stands_at(instances@[i].0@, "http://"@, 0) || stands_at(instances@[i].0@, "https://"@, 0)) by {
        lemma_stands_at(instances@[i].0@, "http://"@, 0);
        lemma_stands_at(instances@[i].0@, "https://"@, 0);
    }
    assert forall|i: int| 0 <= i < workers@.len() implies {
        let address = instances@[i].0@;
        let named = stands_at(address, "http://"@, 0) || stands_at(address, "https://"@, 0);
        &&& (#[trigger] workers@[i]).worker_type == WorkerType::Regular
        &&& workers@[i].url@ == if named {
            address
        } else {
            "http://"@ + address
        }
    } by {
        assert(workers[i].url@ == full_url(instances[i].0@));
    }
}

} // verus!
