//! Routing of inference requests to pairs of workers: a prefill worker, which computes the prompt,
//! and a decode worker, which produces the output from there.
//!
//! The library decides, and does no input or output of its own. `startup` and `router` set a
//! router up, `routing` finds the two workers of a client request, and `direct` and `discovered`
//! carry the exchange with them on, event by event: with workers of known URLs, or with workers
//! that service discovery announced. `request` makes the two requests out of the client's one.
//! `laws` says what calls of these are good for, in terms of what goes in and what comes out.
pub mod direct;
pub mod discovered;
pub mod discovery;
pub mod exchange;
pub mod headers;
pub mod json;
pub mod laws;
pub mod profiling;
pub mod request;
pub mod request_id;
pub mod router;
pub mod routing;
pub mod startup;
pub mod table;
pub mod text;
