//! The library's error vocabulary.

use vstd::prelude::*;

verus! {

/// The error classes of the server, each carrying a message.
#[derive(Debug, PartialEq)]
pub enum McpError {
    /// Configuration-related errors.
    Config(String),
    /// Logseq API errors.
    LogseqApi(String),
    /// Protocol-level (JSON-RPC) errors.
    Protocol(String),
    /// Tool execution errors.
    ToolExecution(String),
    /// Parameter validation errors.
    InvalidParams(String),
    /// Any other error.
    Other(String),
}

/// Model of an error.
#[verifier::ext_equal]
pub enum McpErrorV {
    Config(Seq<char>),
    LogseqApi(Seq<char>),
    Protocol(Seq<char>),
    ToolExecution(Seq<char>),
    InvalidParams(Seq<char>),
    Other(Seq<char>),
}

impl View for McpError {
    type V = McpErrorV;

    open spec fn view(&self) -> McpErrorV {
        match self {
            McpError::Config(m) => McpErrorV::Config(m@),
            McpError::LogseqApi(m) => McpErrorV::LogseqApi(m@),
            McpError::Protocol(m) => McpErrorV::Protocol(m@),
            McpError::ToolExecution(m) => McpErrorV::ToolExecution(m@),
            McpError::InvalidParams(m) => McpErrorV::InvalidParams(m@),
            McpError::Other(m) => McpErrorV::Other(m@),
        }
    }
}

/// Result type alias using the library's error.
pub type McpResult<T> = Result<T, McpError>;

/// What `message` reports for each error class.
pub open spec fn spec_message(e: McpErrorV) -> Seq<char> {
    match e {
        McpErrorV::Config(m) => "Configuration error: "@ + m,
        McpErrorV::LogseqApi(m) => "Logseq API error: "@ + m,
        McpErrorV::Protocol(m) => "Protocol error: "@ + m,
        McpErrorV::ToolExecution(m) => "Tool execution error: "@ + m,
        McpErrorV::InvalidParams(m) => "Invalid parameters: "@ + m,
        McpErrorV::Other(m) => m,
    }
}

impl McpError {
    pub fn config(msg: &str) -> (r: Self)
        ensures
            r@ == McpErrorV::Config(msg@),
    {
        McpError::Config(String::from_str(msg))
    }

    pub fn logseq_api(msg: &str) -> (r: Self)
        ensures
            r@ == McpErrorV::LogseqApi(msg@),
    {
        McpError::LogseqApi(String::from_str(msg))
    }

    pub fn protocol(msg: &str) -> (r: Self)
        ensures
            r@ == McpErrorV::Protocol(msg@),
    {
        McpError::Protocol(String::from_str(msg))
    }

    pub fn tool_execution(msg: &str) -> (r: Self)
        ensures
            r@ == McpErrorV::ToolExecution(msg@),
    {
        McpError::ToolExecution(String::from_str(msg))
    }

    pub fn invalid_params(msg: &str) -> (r: Self)
        ensures
            r@ == McpErrorV::InvalidParams(msg@),
    {
        McpError::InvalidParams(String::from_str(msg))
    }

    /// The human-readable description of this error, with its class as a
    /// prefix.
    pub fn message(&self) -> (r: String)
        ensures
            r@ == spec_message(self@),
    {
        match self {
            McpError::Config(m) => {
                let mut s = String::from_str("Configuration error: ");
                s.append(m.as_str());
                s
            },
            McpError::LogseqApi(m) => {
                let mut s = String::from_str("Logseq API error: ");
                s.append(m.as_str());
                s
            },
            McpError::Protocol(m) => {
                let mut s = String::from_str("Protocol error: ");
                s.append(m.as_str());
                s
            },
            McpError::ToolExecution(m) => {
                let mut s = String::from_str("Tool execution error: ");
                s.append(m.as_str());
                s
            },
            McpError::InvalidParams(m) => {
                let mut s = String::from_str("Invalid parameters: ");
                s.append(m.as_str());
                s
            },
            McpError::Other(m) => m.clone(),
        }
    }
}

} // verus!
