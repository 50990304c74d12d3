//! Server configuration.
//!
//! The two settings come from the process environment; reading the
//! environment is the binary's job, and the decision of what to accept
//! and what to default is made here.

use vstd::prelude::*;

use crate::error::{McpError, McpErrorV};

verus! {

/// Connection settings for the Logseq HTTP API.
#[derive(Debug, PartialEq)]
pub struct Config {
    /// Bearer token for authenticating with the Logseq HTTP API.
    pub logseq_api_token: String,
    /// Base URL for the Logseq HTTP API endpoint.
    pub logseq_api_url: String,
}

impl Config {
    /// Decides the configuration from the raw environment values: the
    /// token is required, and a missing URL falls back to the local
    /// default.
    pub fn resolve(token: Option<String>, url: Option<String>) -> (r: Result<Config, McpError>)
        ensures
            match r {
                Ok(c) => token is Some && c.logseq_api_token@ == token->0@
                    && c.logseq_api_url@ == match url {
                    Some(u) => u@,
                    None => "http://localhost:12315"@,
                },
                Err(e) => token is None && e@ == McpErrorV::Config("LOGSEQ_API_TOKEN not set"@),
            },
    {
        let logseq_api_token = match token {
            Some(t) => t,
            None => {
                return Err(McpError::config("LOGSEQ_API_TOKEN not set"));
            },
        };
        let logseq_api_url = match url {
            Some(u) => u,
            None => String::from_str("http://localhost:12315"),
        };
        Ok(Config { logseq_api_token, logseq_api_url })
    }
}

} // verus!
