//! What the operations of the library are for: laws on their calls, in terms of what goes in and
//! what comes out, and of nothing in between.
pub mod addresses;
pub mod direct;
pub mod discovered;
pub mod headers;
pub mod profiling;
pub mod requests;
pub mod routes;
pub mod texts;
pub mod words;
