//! What the MCP server does with each request it reads: the method decides
//! the kind of reply, and the error replies carry these texts.

use vstd::prelude::*;

use crate::daemon::rpc::METHOD_NOT_FOUND;
use crate::text::{str_equals, str_to_string};

verus! {

/// The kinds of MCP request the server tells apart by their method.
#[derive(Debug, PartialEq, Eq, Structural)]
pub enum McpRequest {
    /// `initialize`: answered with the protocol version and server info.
    Initialize,
    /// `notifications/initialized`: a notification, not answered.
    Initialized,
    /// `tools/list`: answered with the tool definitions.
    ListTools,
    /// `tools/call`: the tool is run through its daemon method.
    CallTool,
    /// Any other method: answered with a method-not-found error.
    Unknown,
}

/// The kind of request a method names.
pub open spec fn mcp_request_of(method: Seq<char>) -> McpRequest {
    if method == "initialize"@ {
        McpRequest::Initialize
    } else if method == "notifications/initialized"@ {
        McpRequest::Initialized
    } else if method == "tools/list"@ {
        McpRequest::ListTools
    } else if method == "tools/call"@ {
        McpRequest::CallTool
    } else {
        McpRequest::Unknown
    }
}

/// Tell an MCP request's kind from its method (a missing method counts as
/// the empty one).
pub fn route_mcp_request(method: &str) -> (r: McpRequest)
    ensures
        r == mcp_request_of(method@),
{
    if str_equals(method, "initialize") {
        McpRequest::Initialize
    } else if str_equals(method, "notifications/initialized") {
        McpRequest::Initialized
    } else if str_equals(method, "tools/list") {
        McpRequest::ListTools
    } else if str_equals(method, "tools/call") {
        McpRequest::CallTool
    } else {
        McpRequest::Unknown
    }
}

/// Whether a request of this kind gets a reply: every one but the
/// notification.
pub fn expects_reply(kind: &McpRequest) -> (r: bool)
    ensures
        r == !(*kind is Initialized),
{
    match kind {
        McpRequest::Initialized => false,
        _ => true,
    }
}

/// The MCP protocol version the server speaks.
pub fn protocol_version() -> (r: &'static str)
    ensures
        r@ == "2024-11-05"@,
{
    "2024-11-05"
}

/// The JSON-RPC error code of an unknown method or tool.
pub fn not_found_code() -> (r: i32)
    ensures
        r == METHOD_NOT_FOUND,
{
    METHOD_NOT_FOUND
}

fn prefixed(prefix: &str, rest: &str) -> (r: String)
    ensures
        r@ == prefix@ + rest@,
{
    let mut r = str_to_string(prefix);
    r.append(rest);
    r
}

/// The error message for a method the server does not know.
pub fn method_not_found_message(method: &str) -> (r: String)
    ensures
        r@ == "Method not found: "@ + method@,
{
    prefixed("Method not found: ", method)
}

/// The error message for a tool the server does not offer.
pub fn unknown_tool_message(tool_name: &str) -> (r: String)
    ensures
        r@ == "Unknown tool: "@ + tool_name@,
{
    prefixed("Unknown tool: ", tool_name)
}

/// The text of a tool call whose daemon call failed with `error`.
pub fn tool_error_text(error: &str) -> (r: String)
    ensures
        r@ == "Error: "@ + error@,
{
    prefixed("Error: ", error)
}

} // verus!
