//! What the bridge does with a tool call once its JSON has been read.
use vstd::prelude::*;

use crate::apperror::AppError;
use crate::metadata::{ToolCall, WebParams, WebPayloadParallel};

verus! {

/// The two tools that the bridge answers.
#[derive(Debug, Clone, Copy, PartialEq, Eq, Structural)]
pub enum Tool {
    WebSearch,
    WebFetch,
}

/// The message of the error that answers any other tool name.
pub open spec fn unknown_tool_message() -> Seq<char> {
    "Unknown tool call. Only web_search and web_fetch allowed."@
}

/// The text of the unknown-tool error.
pub proof fn unknown_tool_message_text()
    ensures
        unknown_tool_message() == "Unknown tool call. Only web_search and web_fetch allowed."@,
{
}

/// Which tool a call names, or `BadRequest` with `unknown_tool_message()` for
/// any name other than "web_search" and "web_fetch".
pub fn select_tool(name: &str) -> (r: Result<Tool, AppError>)
    ensures
        name@ == "web_search"@ ==> r == Ok::<Tool, AppError>(Tool::WebSearch),
        name@ == "web_fetch"@ ==> r == Ok::<Tool, AppError>(Tool::WebFetch),
        name@ != "web_search"@ && name@ != "web_fetch"@ ==> (r matches Err(
            AppError::BadRequest(m),
        ) && m@ == unknown_tool_message()),
{
    proof {
        reveal_strlit("web_search");
        reveal_strlit("web_fetch");
        assert("web_search"@.len() != "web_fetch"@.len());
    }
    let given = name.to_owned();
    if given == String::from_str("web_search") {
        Ok(Tool::WebSearch)
    } else if given == String::from_str("web_fetch") {
        Ok(Tool::WebFetch)
    } else {
        Err(AppError::BadRequest(String::from_str("Unknown tool call. Only web_search and web_fetch allowed.")))
    }
}

impl ToolCall {
    /// The `tools/call` request that forwards this call, with its arguments
    /// already read, to the Parallel MCP server.
    pub fn build_payload<T>(self, args: T) -> (r: WebPayloadParallel<T>)
        ensures
            r.jsonrpc@ == "2.0"@,
            r.id == 1,
            r.method@ == "tools/call"@,
            r.params.name == self.name,
            r.params.arguments == args,
    {
        WebPayloadParallel {
            jsonrpc: String::from_str("2.0"),
            id: 1,
            method: String::from_str("tools/call"),
            params: WebParams { name: self.name, arguments: args },
        }
    }
}

} // verus!
