use agent_notifier::json::JsonValue;
use agent_notifier::protocol::{
    jsonrpc_error, jsonrpc_success, keep_alive_comment, mcp_call_response, mcp_post,
    notify_tool_descriptor, plan_mcp_get, McpOutcome, SsePlan, SSE_KEEP_ALIVE_SECS,
};

fn jstr(s: &str) -> JsonValue {
    JsonValue::Str(s.to_owned())
}

fn jobj(pairs: Vec<(&str, JsonValue)>) -> JsonValue {
    JsonValue::Obj(pairs.into_iter().map(|(k, v)| (k.to_owned(), v)).collect())
}

fn request(id: i64, method: &str, params: Option<JsonValue>) -> JsonValue {
    let mut pairs = vec![
        ("jsonrpc", jstr("2.0")),
        ("id", JsonValue::Int(id)),
        ("method", jstr(method)),
    ];
    if let Some(p) = params {
        pairs.push(("params", p));
    }
    jobj(pairs)
}

fn call_params(name: &str, args: Option<JsonValue>) -> JsonValue {
    let mut pairs = vec![("name", jstr(name))];
    if let Some(a) = args {
        pairs.push(("arguments", a));
    }
    jobj(pairs)
}

fn notify_args(title: &str, content: &str, agent: &str) -> JsonValue {
    jobj(vec![
        ("title", jstr(title)),
        ("content", jstr(content)),
        ("agent", jstr(agent)),
    ])
}

fn expect_reply(outcome: McpOutcome) -> JsonValue {
    match outcome {
        McpOutcome::Reply(v) => v,
        McpOutcome::Unavailable => panic!("expected a reply, got 503"),
        McpOutcome::Accepted => panic!("expected a reply, got 202"),
        McpOutcome::CallNotify { .. } => panic!("expected a reply, got a dispatch request"),
    }
}

fn error_code_of(reply: &JsonValue) -> i64 {
    match reply.get("error").expect("an error member").get("code") {
        Some(JsonValue::Int(c)) => *c,
        _ => panic!("error.code should be an integer"),
    }
}

#[test]
fn initialize_reports_fixed_version_and_capabilities() {
    let body = request(1, "initialize", None);
    let outcome = mcp_post(true, body);
    assert_eq!(outcome.http_status(), 200);
    let reply = expect_reply(outcome);
    assert_eq!(reply.get("jsonrpc"), Some(&jstr("2.0")));
    assert_eq!(reply.get("id"), Some(&JsonValue::Int(1)));
    let result = reply.get("result").expect("a result member");
    assert_eq!(result.get("protocolVersion"), Some(&jstr("2025-11-25")));
    let caps = result.get("capabilities").expect("capabilities");
    let tools = caps.get("tools").expect("capabilities.tools");
    assert_eq!(tools.get("listChanged"), Some(&JsonValue::Bool(false)));
    let info = result.get("serverInfo").expect("serverInfo");
    assert_eq!(info.get("name"), Some(&jstr("agent-notifications")));
}

#[test]
fn tools_list_reports_exactly_one_notify_tool() {
    let body = request(7, "tools/list", None);
    let reply = expect_reply(mcp_post(true, body));
    assert_eq!(reply.get("id"), Some(&JsonValue::Int(7)));
    let result = reply.get("result").expect("a result member");
    match result.get("tools") {
        Some(JsonValue::Arr(items)) => {
            assert_eq!(items.len(), 1);
            assert_eq!(items[0].get("name"), Some(&jstr("notify")));
            let schema = items[0].get("inputSchema").expect("inputSchema");
            assert_eq!(schema.get("type"), Some(&jstr("object")));
            assert_eq!(schema.get("additionalProperties"), Some(&JsonValue::Bool(false)));
            let props = schema.get("properties").expect("properties");
            for field in ["title", "content", "agent"] {
                let prop = props.get(field).expect("each field has a property");
                assert_eq!(prop.get("type"), Some(&jstr("string")));
                assert_eq!(prop.get("minLength"), Some(&JsonValue::Int(1)));
            }
            let content = props.get("content").expect("content property");
            assert_eq!(content.get("maxLength"), Some(&JsonValue::Int(950)));
        }
        _ => panic!("result.tools should be an array"),
    }
    assert_eq!(result.get("nextCursor"), Some(&JsonValue::Null));
}

#[test]
fn tool_descriptor_names_notify() {
    let d = notify_tool_descriptor();
    assert_eq!(d.get("name"), Some(&jstr("notify")));
    assert_eq!(
        d.get("description"),
        Some(&jstr(
            "Send a desktop notification via the Agent Notifications app with title, content, and agent label."
        ))
    );
}

#[test]
fn tool_descriptor_is_the_same_value_on_every_call() {
    assert_eq!(notify_tool_descriptor(), notify_tool_descriptor());
}

#[test]
fn unknown_tool_name_is_method_not_found() {
    let args = notify_args("T", "C", "A");
    let body = request(2, "tools/call", Some(call_params("other", Some(args))));
    let reply = expect_reply(mcp_post(true, body));
    assert_eq!(error_code_of(&reply), -32601);
    let msg = reply.get("error").unwrap().get("message");
    assert_eq!(msg, Some(&jstr("Tool not found")));
}

#[test]
fn unknown_tool_name_ignores_arguments() {
    // No arguments at all: the name decides first.
    let body = request(3, "tools/call", Some(call_params("other", None)));
    let reply = expect_reply(mcp_post(true, body));
    assert_eq!(error_code_of(&reply), -32601);
}

#[test]
fn body_without_method_is_accepted() {
    let body = jobj(vec![("jsonrpc", jstr("2.0")), ("id", JsonValue::Int(1))]);
    let outcome = mcp_post(true, body);
    assert!(matches!(outcome, McpOutcome::Accepted));
    assert_eq!(outcome.http_status(), 202);
}

#[test]
fn non_object_body_is_accepted() {
    let outcome = mcp_post(true, jstr("ping"));
    assert!(matches!(outcome, McpOutcome::Accepted));
}

#[test]
fn method_without_id_is_accepted() {
    let body = jobj(vec![
        ("jsonrpc", jstr("2.0")),
        ("method", jstr("notifications/initialized")),
    ]);
    let outcome = mcp_post(true, body);
    assert!(matches!(outcome, McpOutcome::Accepted));
}

#[test]
fn non_string_method_is_invalid_request() {
    let body = jobj(vec![
        ("jsonrpc", jstr("2.0")),
        ("id", JsonValue::Int(4)),
        ("method", JsonValue::Int(9)),
    ]);
    let reply = expect_reply(mcp_post(true, body));
    assert_eq!(error_code_of(&reply), -32600);
    assert_eq!(reply.get("id"), Some(&JsonValue::Null));
}

#[test]
fn unknown_method_is_method_not_found() {
    let body = request(5, "tools/other", None);
    let reply = expect_reply(mcp_post(true, body));
    assert_eq!(error_code_of(&reply), -32601);
    assert_eq!(reply.get("id"), Some(&JsonValue::Int(5)));
}

#[test]
fn call_without_params_is_invalid_params() {
    let body = request(6, "tools/call", None);
    let reply = expect_reply(mcp_post(true, body));
    assert_eq!(error_code_of(&reply), -32602);
}

#[test]
fn call_with_non_object_params_is_invalid_params() {
    let body = request(6, "tools/call", Some(jstr("notify")));
    let reply = expect_reply(mcp_post(true, body));
    assert_eq!(error_code_of(&reply), -32602);
}

#[test]
fn call_without_tool_name_is_invalid_params() {
    let body = request(6, "tools/call", Some(jobj(vec![])));
    let reply = expect_reply(mcp_post(true, body));
    assert_eq!(error_code_of(&reply), -32602);
}

#[test]
fn call_without_arguments_is_invalid_params() {
    let body = request(6, "tools/call", Some(call_params("notify", None)));
    let reply = expect_reply(mcp_post(true, body));
    assert_eq!(error_code_of(&reply), -32602);
}

#[test]
fn call_with_blank_fields_is_invalid_params() {
    let args = notify_args("  ", "C", "A");
    let body = request(6, "tools/call", Some(call_params("notify", Some(args))));
    let reply = expect_reply(mcp_post(true, body));
    assert_eq!(error_code_of(&reply), -32602);
}

#[test]
fn call_with_over_long_content_is_invalid_params() {
    let long = "x".repeat(951);
    let args = notify_args("T", &long, "A");
    let body = request(6, "tools/call", Some(call_params("notify", Some(args))));
    let reply = expect_reply(mcp_post(true, body));
    assert_eq!(error_code_of(&reply), -32602);
}

#[test]
fn valid_call_requests_dispatch_and_reports_sent() {
    let args = notify_args("T", "C", "A");
    let body = request(1, "tools/call", Some(call_params("notify", Some(args))));
    let outcome = mcp_post(true, body);
    assert_eq!(outcome.http_status(), 200);
    match outcome {
        McpOutcome::CallNotify { id, title, content, agent } => {
            assert_eq!(id, JsonValue::Int(1));
            assert_eq!(title, "T");
            assert_eq!(content, "C");
            assert_eq!(agent, "A");
            let reply = mcp_call_response(id, &title, true);
            assert_eq!(reply.get("id"), Some(&JsonValue::Int(1)));
            let result = reply.get("result").expect("a result member");
            match result.get("content") {
                Some(JsonValue::Arr(items)) => {
                    assert_eq!(items.len(), 1);
                    assert_eq!(items[0].get("type"), Some(&jstr("text")));
                    assert_eq!(items[0].get("text"), Some(&jstr("Notification sent: T")));
                }
                _ => panic!("result.content should be an array"),
            }
            assert_eq!(result.get("isError"), Some(&JsonValue::Bool(false)));
        }
        _ => panic!("a valid call should request a dispatch"),
    }
}

#[test]
fn call_arguments_are_trimmed_before_dispatch() {
    let args = notify_args(" T ", "\tC\n", " A ");
    let body = request(1, "tools/call", Some(call_params("notify", Some(args))));
    match mcp_post(true, body) {
        McpOutcome::CallNotify { title, content, agent, .. } => {
            assert_eq!(title, "T");
            assert_eq!(content, "C");
            assert_eq!(agent, "A");
        }
        _ => panic!("a valid call should request a dispatch"),
    }
}

#[test]
fn failed_dispatch_reports_internal_error() {
    let reply = mcp_call_response(JsonValue::Int(1), "T", false);
    assert_eq!(error_code_of(&reply), -32000);
    let msg = reply.get("error").unwrap().get("message");
    assert_eq!(msg, Some(&jstr("Failed to dispatch notification")));
}

#[test]
fn closed_gate_rejects_post_before_parsing() {
    let body = request(1, "initialize", None);
    let outcome = mcp_post(false, body);
    assert!(matches!(outcome, McpOutcome::Unavailable));
    assert_eq!(outcome.http_status(), 503);
    // Even a body that would otherwise be malformed is not parsed.
    let outcome = mcp_post(false, jstr("not an envelope"));
    assert!(matches!(outcome, McpOutcome::Unavailable));
}

#[test]
fn closed_gate_rejects_stream() {
    assert!(matches!(plan_mcp_get(false), SsePlan::Unavailable));
    assert!(matches!(plan_mcp_get(true), SsePlan::OpenStream));
    assert_eq!(SSE_KEEP_ALIVE_SECS, 25);
    assert_eq!(keep_alive_comment(), "keep-alive");
}

#[test]
fn success_and_error_envelopes_are_tagged() {
    let ok = jsonrpc_success(JsonValue::Int(3), JsonValue::Bool(true));
    assert_eq!(ok.get("jsonrpc"), Some(&jstr("2.0")));
    assert_eq!(ok.get("id"), Some(&JsonValue::Int(3)));
    assert_eq!(ok.get("result"), Some(&JsonValue::Bool(true)));
    assert!(ok.get("error").is_none());

    let err = jsonrpc_error(JsonValue::Null, -32601, "Method not found");
    assert_eq!(err.get("jsonrpc"), Some(&jstr("2.0")));
    assert_eq!(err.get("id"), Some(&JsonValue::Null));
    assert!(err.get("result").is_none());
    assert_eq!(error_code_of(&err), -32601);
}

#[test]
fn duplicate_keys_read_first_member() {
    // Object lookup takes the first member with the key, as the model says.
    let body = JsonValue::Obj(vec![
        ("method".to_owned(), jstr("initialize")),
        ("method".to_owned(), jstr("tools/list")),
        ("id".to_owned(), JsonValue::Int(1)),
    ]);
    let reply = expect_reply(mcp_post(true, body));
    assert!(reply.get("result").is_some());
    let result = reply.get("result").unwrap();
    assert!(result.get("protocolVersion").is_some());
}
