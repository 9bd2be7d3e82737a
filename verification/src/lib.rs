//! A choir of agents behind one question.
//!
//! The library holds what is decided when a request is orchestrated across
//! several calls to a completion provider:
//!
//! - who may call ([`utils::webutils`]): bearer tokens, privilege rings, and
//!   the rule of admission;
//! - how many calls run at once ([`modules::gate`]): a fixed number of
//!   permits, handed to waiting callers first come, first served;
//! - which tools can be called and what comes of a call ([`ai_functions`]);
//! - the tool-calling conversation ([`modules::tool_loop`]) and the five-stage
//!   run of the choir ([`modules::choir`]), both as state machines: they say
//!   what is to be done next and take what came of it.
//!
//! Talking to the provider, fetching pages and serving HTTP are left to the
//! program around the library. Contracts are stated over the mathematical
//! views of the values involved; what `serde_json`, `regex`, `chrono` and
//! `urlencoding` compute is called through small functions whose contracts
//! are taken on trust.

pub mod ai_functions;
pub mod config;
pub mod json;
pub mod modules;
pub mod response;
pub mod routes;
pub mod text;
pub mod types;
pub mod utils;
