//! The id that one client request carries to both workers, by which they find each other.
use crate::router::VllmPDRouter;
use crate::text::{erase, erased, lemma_erased_absent, lemma_erased_before};
use uuid::Uuid;
use vstd::prelude::*;
use vstd::string::StringExecFns;

verus! {

/// A hexadecimal digit in lower case.
pub open spec fn is_hex_digit(c: char) -> bool {
    '0' <= c <= '9' || 'a' <= c <= 'f'
}

/// The text of a random (version four) UUID: five groups of digits with hyphens between them.
pub open spec fn is_random_uuid(text: Seq<char>) -> bool {
    &&& text.len() == 36
    &&& text[8] == '-' && text[13] == '-' && text[18] == '-' && text[23] == '-'
    &&& forall|i: int|
        0 <= i < 36 && i != 8 && i != 13 && i != 18 && i != 23 ==> is_hex_digit(#[trigger] text[i])
    &&& text[14] == '4'
    &&& text[19] == '8' || text[19] == '9' || text[19] == 'a' || text[19] == 'b'
}

/// The request id of two worker addresses and the text of a UUID.
pub open spec fn request_id(prefill_addr: Seq<char>, decode_addr: Seq<char>, uuid: Seq<char>) -> Seq<
    char,
> {
    "___prefill_addr_"@ + prefill_addr + "___decode_addr_"@ + decode_addr + "_"@ + erased(
        uuid,
        "-"@,
    )
}

/// `Uuid::new_v4` and its `Display`: a UUID made at random, in its hyphenated form. Which one
/// comes is left to chance; the call does not return where the system has no random numbers.
#[verifier::external_body]
fn random_uuid() -> (text: String)
    ensures
        is_random_uuid(text@),
{
    Uuid::new_v4().to_string()
}

impl VllmPDRouter {
    /// A new request id with the addresses of both workers.
    pub fn generate_vllm_request_id(prefill_addr: &str, decode_addr: &str) -> (id: String)
        ensures
            exists|uuid: Seq<char>|
                is_random_uuid(uuid) && id@ == request_id(prefill_addr@, decode_addr@, uuid),
    {
        let uuid = random_uuid();
        Self::format_vllm_request_id(prefill_addr, decode_addr, uuid.as_str())
    }

    /// The request id with the addresses of both workers and the digits of a UUID.
    pub fn format_vllm_request_id(prefill_addr: &str, decode_addr: &str, uuid: &str) -> (id: String)
        ensures
            id@ == request_id(prefill_addr@, decode_addr@, uuid@),
    {
        proof {
            reveal_strlit("-");
        }
        let mut id = "___prefill_addr_".to_owned();
        id.append(prefill_addr);
        id.append("___decode_addr_");
        id.append(decode_addr);
        id.append("_");
        id.append(erase(uuid, "-").as_str());
        id
    }
}

/// A request id ends in the thirty-two digits of its UUID, without the hyphens.
pub proof fn law_request_id_ends_in_digits(
    prefill_addr: Seq<char>,
    decode_addr: Seq<char>,
    uuid: Seq<char>,
)
    requires
        is_random_uuid(uuid),
    ensures
        ({
            let id = request_id(prefill_addr, decode_addr, uuid);
            let digits = uuid.subrange(0, 8) + uuid.subrange(9, 13) + uuid.subrange(14, 18)
                + uuid.subrange(19, 23) + uuid.subrange(24, 36);
            &&& id == "___prefill_addr_"@ + prefill_addr + "___decode_addr_"@ + decode_addr
                + "_"@ + digits
            &&& digits.len() == 32
            &&& forall|i: int| 0 <= i < 32 ==> is_hex_digit(#[trigger] digits[i])
        }),
{
    reveal_strlit("-");
    let hyphen = "-"@;
    assert(hyphen.len() == 1 && hyphen[0] == '-');
    let g1 = uuid.subrange(0, 8);
    let g2 = uuid.subrange(9, 13);
    let g3 = uuid.subrange(14, 18);
    let g4 = uuid.subrange(19, 23);
    let g5 = uuid.subrange(24, 36);
    let r4 = g4 + hyphen + g5;
    let r3 = g3 + hyphen + r4;
    let r2 = g2 + hyphen + r3;
    assert(uuid =~= g1 + hyphen + r2);
    lemma_erased_before(g1, '-', r2);
    lemma_erased_before(g2, '-', r3);
    lemma_erased_before(g3, '-', r4);
    lemma_erased_before(g4, '-', g5);
    lemma_erased_absent(g5, hyphen);
    assert(hyphen =~= seq!['-']);
    assert(erased(uuid, hyphen) =~= g1 + g2 + g3 + g4 + g5);
}

} // verus!
