//! The configuration that the process starts with.

use crate::text::{parse_i32, spec_parse_i32};
use vstd::prelude::*;

verus! {

/// The port that is served where the configured one is no number.
pub const DEFAULT_PORT: i32 = 8081;

/// The configuration of the process. It is read once, at the start, and
/// handed to whoever needs it.
#[derive(Clone, Debug, PartialEq, Eq)]
pub struct EnvConfig {
    pub port: i32,
    pub api_key: String,
    pub oai_key: String,
    pub firecrawl_key: String,
}

/// The port that a configured number stands for.
pub open spec fn spec_port(configured: Option<i32>) -> i32 {
    match configured {
        Some(port) => port,
        None => DEFAULT_PORT,
    }
}

impl EnvConfig {
    /// The configuration with the given port, or the default where none is
    /// given.
    pub fn from_parts(
        port: Option<i32>,
        api_key: String,
        oai_key: String,
        firecrawl_key: String,
    ) -> (r: Self)
        ensures
            r.port == spec_port(port),
            r.api_key == api_key,
            r.oai_key == oai_key,
            r.firecrawl_key == firecrawl_key,
    {
        let port = match port {
            Some(port) => port,
            None => DEFAULT_PORT,
        };
        EnvConfig { port, api_key, oai_key, firecrawl_key }
    }

    /// The configuration from the values of the environment: the port is the
    /// number that `port` spells, and the default where it spells none.
    pub fn from_values(port: &str, api_key: String, oai_key: String, firecrawl_key: String) -> (r:
        Self)
        ensures
            r.port == spec_port(spec_parse_i32(port@)),
            r.api_key == api_key,
            r.oai_key == oai_key,
            r.firecrawl_key == firecrawl_key,
    {
        Self::from_parts(parse_i32(port), api_key, oai_key, firecrawl_key)
    }
}

} // verus!
