use web_tools::apperror::{require, AppError};
use web_tools::metadata::{SearchArgsParallel, ToolCall};
use web_tools::text::join_with_newlines;
use web_tools::tool_call_parser::{select_tool, Tool};

#[test]
fn select_tool_knows_both_tools() {
    assert_eq!(select_tool("web_search").unwrap(), Tool::WebSearch);
    assert_eq!(select_tool("web_fetch").unwrap(), Tool::WebFetch);
}

#[test]
fn select_tool_refuses_other_names() {
    for name in ["", "web_searc", "Web_search", "web_fetch ", "calculator"] {
        match select_tool(name) {
            Err(AppError::BadRequest(m)) => {
                assert_eq!(m, "Unknown tool call. Only web_search and web_fetch allowed.")
            }
            other => panic!("unexpected {:?}", other),
        }
    }
}

#[test]
fn build_payload_wraps_arguments_in_a_tools_call() {
    let call = ToolCall {
        id: "call_1".into(),
        name: "web_search".into(),
        arguments: "{}".into(),
    };
    let args = SearchArgsParallel { objective: "o".into(), search_queries: vec!["q".into()] };
    let payload = call.build_payload(args);
    assert_eq!(payload.jsonrpc, "2.0");
    assert_eq!(payload.id, 1);
    assert_eq!(payload.method, "tools/call");
    assert_eq!(payload.params.name, "web_search");
    assert_eq!(payload.params.arguments.objective, "o");
    assert_eq!(payload.params.arguments.search_queries, vec!["q".to_string()]);
}

#[test]
fn require_passes_or_reports() {
    assert!(require(true, "never shown".to_string()).is_ok());
    match require(false, "broken".to_string()) {
        Err(AppError::BadRequest(m)) => assert_eq!(m, "broken"),
        other => panic!("unexpected {:?}", other),
    }
}

#[test]
fn error_from_text_is_bad_request() {
    match AppError::from("no such thing") {
        AppError::BadRequest(m) => assert_eq!(m, "no such thing"),
        other => panic!("unexpected {:?}", other),
    }
}

#[test]
fn error_from_json_error_keeps_it() {
    let e = serde_json::from_str::<serde_json::Value>("{").unwrap_err();
    let text = e.to_string();
    match AppError::from(e) {
        AppError::SerdeJson(inner) => assert_eq!(inner.to_string(), text),
        other => panic!("unexpected {:?}", other),
    }
}

#[test]
fn join_with_newlines_cases() {
    assert_eq!(join_with_newlines(&vec![]), "");
    assert_eq!(join_with_newlines(&vec!["a".to_string()]), "a");
    assert_eq!(
        join_with_newlines(&vec!["a".to_string(), "".to_string(), "c".to_string()]),
        "a\n\nc"
    );
    let parts = vec!["x".to_string(), "y".to_string()];
    assert_eq!(join_with_newlines(&parts), parts.join("\n"));
}

#[test]
fn bad_request_text_names_the_message() {
    assert_eq!(AppError::from("oops").message(), "BadRequest: oops");
    let e = require(false, "bad input".to_string()).unwrap_err();
    assert_eq!(e.message(), "BadRequest: bad input");
    match select_tool("web_crawl") {
        Err(e) => assert_eq!(
            e.message(),
            "BadRequest: Unknown tool call. Only web_search and web_fetch allowed."
        ),
        Ok(t) => panic!("unexpected {:?}", t),
    }
}

#[test]
fn wrapped_error_text_is_the_inner_text() {
    let e = serde_json::from_str::<serde_json::Value>("[1,").unwrap_err();
    let text = e.to_string();
    assert_eq!(AppError::from(e).message(), text);
}
