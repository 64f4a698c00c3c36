use vstd::prelude::*;

verus! {

/// The kind of failure that a tool call is answered with. The variants follow the
/// JSON-RPC error codes that MCP clients understand.
#[derive(Clone, Copy, Debug, PartialEq, Eq, Structural)]
pub enum ErrorCode {
    /// The request may not be served in the server's current mode.
    InvalidRequest,
    /// A parameter of the request has a value that the tool does not accept.
    InvalidParams,
    /// The Miniflux instance, or the handling of its answer, failed.
    InternalError,
}

/// The error that a tool call is answered with: a code and a human-readable message.
#[derive(Debug)]
pub struct ToolError {
    pub code: ErrorCode,
    pub message: String,
}

/// A tool error as contracts speak of it: its code and the characters of its message.
pub struct ToolErrorView {
    pub code: ErrorCode,
    pub message: Seq<char>,
}

impl View for ToolError {
    type V = ToolErrorView;

    open spec fn view(&self) -> ToolErrorView {
        ToolErrorView { code: self.code, message: self.message@ }
    }
}

/// A result whose error is a `ToolError`, with the error taken by its view.
pub open spec fn result_view<T>(r: Result<T, ToolError>) -> Result<T, ToolErrorView> {
    match r {
        Ok(v) => Ok(v),
        Err(e) => Err(e@),
    }
}

/// The error view with the given code and message.
pub open spec fn tool_error(code: ErrorCode, message: Seq<char>) -> ToolErrorView {
    ToolErrorView { code, message }
}

impl ToolError {
    /// An error for a parameter value that the tool does not accept.
    pub fn invalid_params(message: String) -> (e: ToolError)
        ensures
            e@ == tool_error(ErrorCode::InvalidParams, message@),
    {
        ToolError { code: ErrorCode::InvalidParams, message }
    }

    /// An error for a request that the server's mode forbids.
    pub fn invalid_request(message: String) -> (e: ToolError)
        ensures
            e@ == tool_error(ErrorCode::InvalidRequest, message@),
    {
        ToolError { code: ErrorCode::InvalidRequest, message }
    }

    /// An error for a failure of the Miniflux instance or of the handling of its answer.
    pub fn internal_error(message: String) -> (e: ToolError)
        ensures
            e@ == tool_error(ErrorCode::InternalError, message@),
    {
        ToolError { code: ErrorCode::InternalError, message }
    }
}

} // verus!
