//! The start of the router: with workers of known URLs, or with those that service discovery
//! announces.
use vstd::prelude::*;

verus! {

/// The settings that the router goes by.
#[derive(Clone, Copy, Debug)]
pub struct Settings {
    pub enable_profiling: bool,
    pub profile_timeout_secs: u64,
    pub intra_node_data_parallel_size: usize,
}

/// What is to be set up before the router can start.
pub struct StartupPlan {
    /// The prefill workers to register, each with its bootstrap port if it has one.
    pub prefill_urls: Vec<(String, Option<u16>)>,
    /// The decode workers to register.
    pub decode_urls: Vec<String>,
    /// The address on which to listen for announcements, if any.
    pub listen_on: Option<String>,
}

/// What is to be set up: the workers of known URLs, or else, where there is an address for
/// service discovery, a listener on it and no worker yet.
pub fn plan_startup(
    prefill_urls: Vec<(String, Option<u16>)>,
    decode_urls: Vec<String>,
    discovery_address: Option<String>,
) -> (plan: StartupPlan)
    ensures
        plan.listen_on == discovery_address,
        match discovery_address {
            Some(_) => plan.prefill_urls@.len() == 0 && plan.decode_urls@.len() == 0,
            None => plan.prefill_urls == prefill_urls && plan.decode_urls == decode_urls,
        },
{
    match discovery_address {
        Some(address) => StartupPlan {
            prefill_urls: Vec::new(),
            decode_urls: Vec::new(),
            listen_on: Some(address),
        },
        None => StartupPlan { prefill_urls, decode_urls, listen_on: None },
    }
}

} // verus!
