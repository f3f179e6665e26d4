//! The MCP protocol engine: JSON-RPC envelopes and the method dispatch
//! for `initialize`, `tools/list` and `tools/call`.

use vstd::prelude::*;
use crate::json::{
    arr1, arr3, is_jstr, jget, obj1, obj2, obj3, obj4, obj_find, seq_get, lemma_seq_get_remove,
    JsonValue,
};
use crate::validate::{validate_notification_fields, validate_spec, ValidateError};

verus! {

/// The protocol revision this server speaks.
pub fn protocol_version() -> (s: &'static str)
    ensures
        s@ == "2025-11-25"@,
{
    "2025-11-25"
}

/// The name the server reports in `initialize`.
pub fn server_name() -> (s: &'static str)
    ensures
        s@ == "agent-notifications"@,
{
    "agent-notifications"
}

/// The version the server reports in `initialize`.
pub fn server_version() -> (s: &'static str)
    ensures
        s@ == "0.1.0"@,
{
    "0.1.0"
}

/// The reply carries the JSON-RPC version tag.
pub open spec fn envelope_tagged(r: JsonValue) -> bool {
    jget(r, "jsonrpc"@) matches Some(v) && is_jstr(v, "2.0"@)
}

/// The `id` member of a reply.
pub open spec fn envelope_id(r: JsonValue) -> Option<JsonValue> {
    jget(r, "id"@)
}

/// The `result` member of a reply.
pub open spec fn envelope_result(r: JsonValue) -> Option<JsonValue> {
    jget(r, "result"@)
}

/// The `error` member of a reply.
pub open spec fn envelope_error(r: JsonValue) -> Option<JsonValue> {
    jget(r, "error"@)
}

/// The numeric code of a reply's error member, if it is well-formed.
pub open spec fn error_code(r: JsonValue) -> Option<int> {
    match envelope_error(r) {
        Some(e) => match jget(e, "code"@) {
            Some(c) => match c {
                JsonValue::Int(n) => Some(n as int),
                _ => None,
            },
            None => None,
        },
        None => None,
    }
}

/// The message of a reply's error member, if it is well-formed.
pub open spec fn error_message(r: JsonValue) -> Option<Seq<char>> {
    match envelope_error(r) {
        Some(e) => match jget(e, "message"@) {
            Some(m) => match m {
                JsonValue::Str(s) => Some(s@),
                _ => None,
            },
            None => None,
        },
        None => None,
    }
}

/// `r` is a success envelope answering `id`: tagged, carrying that id
/// and a result, and carrying no error.
pub open spec fn is_success_envelope(r: JsonValue, id: JsonValue) -> bool {
    &&& envelope_tagged(r)
    &&& envelope_id(r) == Some(id)
    &&& envelope_result(r) is Some
    &&& envelope_error(r) is None
}

/// `r` is an error envelope answering `id` with code `code`: tagged,
/// carrying that id and an error with a message, and carrying no result.
pub open spec fn is_error_envelope(r: JsonValue, id: JsonValue, code: int) -> bool {
    &&& envelope_tagged(r)
    &&& envelope_id(r) == Some(id)
    &&& envelope_result(r) is None
    &&& error_code(r) == Some(code)
    &&& error_message(r) is Some
}

/// The envelope member keys and the version tag are pairwise distinct.
proof fn lemma_envelope_keys()
    ensures
        "jsonrpc"@ != "id"@,
        "jsonrpc"@ != "result"@,
        "jsonrpc"@ != "error"@,
        "id"@ != "result"@,
        "id"@ != "error"@,
        "result"@ != "error"@,
        "code"@ != "message"@,
{
    reveal_strlit("jsonrpc");
    reveal_strlit("id");
    reveal_strlit("result");
    reveal_strlit("error");
    reveal_strlit("code");
    reveal_strlit("message");
    assert("jsonrpc"@.len() == 7);
    assert("id"@.len() == 2);
    assert("result"@.len() == 6);
    assert("error"@.len() == 5);
    assert("code"@.len() == 4);
    assert("message"@.len() == 7);
}

/// A JSON-RPC success reply: `{jsonrpc: "2.0", id, result}`.
pub fn jsonrpc_success(id: JsonValue, result: JsonValue) -> (r: JsonValue)
    ensures
        is_success_envelope(r, id),
        envelope_result(r) == Some(result),
{
    proof {
        lemma_envelope_keys();
    }
    obj3("jsonrpc", JsonValue::string_of("2.0"), "id", id, "result", result)
}

/// A JSON-RPC error reply: `{jsonrpc: "2.0", id, error: {code, message}}`.
pub fn jsonrpc_error(id: JsonValue, code: i64, message: &str) -> (r: JsonValue)
    ensures
        is_error_envelope(r, id, code as int),
        error_message(r) == Some(message@),
{
    proof {
        lemma_envelope_keys();
    }
    let err = obj2("code", JsonValue::Int(code), "message", JsonValue::string_of(message));
    obj3("jsonrpc", JsonValue::string_of("2.0"), "id", id, "error", err)
}

/// The member keys of the method results are pairwise distinct where
/// they share an object.
proof fn lemma_result_keys()
    ensures
        "protocolVersion"@ != "serverInfo"@,
        "protocolVersion"@ != "capabilities"@,
        "serverInfo"@ != "capabilities"@,
        "name"@ != "version"@,
        "name"@ != "description"@,
        "name"@ != "inputSchema"@,
        "description"@ != "inputSchema"@,
        "type"@ != "properties"@,
        "type"@ != "required"@,
        "type"@ != "additionalProperties"@,
        "properties"@ != "required"@,
        "properties"@ != "additionalProperties"@,
        "required"@ != "additionalProperties"@,
        "title"@ != "content"@,
        "title"@ != "agent"@,
        "content"@ != "agent"@,
        "type"@ != "minLength"@,
        "type"@ != "maxLength"@,
        "minLength"@ != "maxLength"@,
        "tools"@ != "nextCursor"@,
        "content"@ != "isError"@,
        "type"@ != "text"@,
{
    reveal_strlit("protocolVersion");
    reveal_strlit("serverInfo");
    reveal_strlit("capabilities");
    reveal_strlit("name");
    reveal_strlit("version");
    reveal_strlit("description");
    reveal_strlit("inputSchema");
    reveal_strlit("type");
    reveal_strlit("properties");
    reveal_strlit("required");
    reveal_strlit("additionalProperties");
    reveal_strlit("title");
    reveal_strlit("content");
    reveal_strlit("agent");
    reveal_strlit("minLength");
    reveal_strlit("maxLength");
    reveal_strlit("tools");
    reveal_strlit("nextCursor");
    reveal_strlit("isError");
    reveal_strlit("text");
    assert("protocolVersion"@.len() == 15);
    assert("serverInfo"@.len() == 10);
    assert("capabilities"@.len() == 12);
    assert("name"@.len() == 4);
    assert("version"@.len() == 7);
    assert("description"@.len() == 11);
    assert("inputSchema"@.len() == 11);
    assert("description"@[0] == 'd');
    assert("inputSchema"@[0] == 'i');
    assert("type"@.len() == 4);
    assert("properties"@.len() == 10);
    assert("required"@.len() == 8);
    assert("additionalProperties"@.len() == 20);
    assert("title"@.len() == 5);
    assert("content"@.len() == 7);
    assert("agent"@.len() == 5);
    assert("title"@[0] == 't');
    assert("agent"@[0] == 'a');
    assert("minLength"@.len() == 9);
    assert("maxLength"@.len() == 9);
    assert("minLength"@[1] == 'i');
    assert("maxLength"@[1] == 'a');
    assert("tools"@.len() == 5);
    assert("nextCursor"@.len() == 10);
    assert("isError"@.len() == 7);
    assert("content"@[0] == 'c');
    assert("isError"@[0] == 'i');
    assert("text"@.len() == 4);
    assert("type"@[1] == 'y');
    assert("text"@[1] == 'e');
}

/// The `initialize` result is well-formed: the fixed protocol version,
/// the server's name, and the capability flag `tools.listChanged: false`.
pub open spec fn initialize_result_ok(r: JsonValue) -> bool {
    envelope_result(r) matches Some(res) && ({
        &&& jget(res, "protocolVersion"@) matches Some(pv) && is_jstr(pv, "2025-11-25"@)
        &&& jget(res, "serverInfo"@) matches Some(si) && (jget(si, "name"@) matches Some(n)
            && is_jstr(n, "agent-notifications"@)) && (jget(si, "version"@) matches Some(sv)
            && sv is Str)
        &&& jget(res, "capabilities"@) matches Some(c) && (jget(c, "tools"@) matches Some(t)
            && jget(t, "listChanged"@) == Some(JsonValue::Bool(false)))
    })
}

/// The reply to `initialize`.
pub fn initialize_reply(id: JsonValue) -> (r: JsonValue)
    ensures
        is_success_envelope(r, id),
        initialize_result_ok(r),
{
    proof {
        lemma_result_keys();
    }
    let caps_tools = obj1("listChanged", JsonValue::Bool(false));
    let caps = obj1("tools", caps_tools);
    let sinfo = obj2(
        "name",
        JsonValue::string_of(server_name()),
        "version",
        JsonValue::string_of(server_version()),
    );
    let result = obj3(
        "protocolVersion",
        JsonValue::string_of(protocol_version()),
        "serverInfo",
        sinfo,
        "capabilities",
        caps,
    );
    jsonrpc_success(id, result)
}

/// `p` describes a required string field: `type: "string"` and
/// `minLength: 1`.
pub open spec fn string_property_ok(p: JsonValue) -> bool {
    &&& jget(p, "type"@) matches Some(t) && is_jstr(t, "string"@)
    &&& jget(p, "minLength"@) == Some(JsonValue::Int(1))
}

/// `d` is the descriptor of the one `notify` tool: its name, its fixed
/// description, and an object schema that requires the three non-empty
/// string fields and bounds the content's length — the same value on
/// every call.
pub open spec fn tool_descriptor_ok(d: JsonValue) -> bool {
    &&& jget(d, "name"@) matches Some(n) && is_jstr(n, "notify"@)
    &&& jget(d, "description"@) matches Some(ds) && is_jstr(
        ds,
        "Send a desktop notification via the Agent Notifications app with title, content, and agent label."@,
    )
    &&& jget(d, "inputSchema"@) matches Some(s) && ({
        &&& jget(s, "type"@) matches Some(t) && is_jstr(t, "object"@)
        &&& jget(s, "required"@) matches Some(req) && (req matches JsonValue::Arr(items)
            && items@.len() == 3 && is_jstr(items@[0], "title"@) && is_jstr(items@[1], "content"@)
            && is_jstr(items@[2], "agent"@))
        &&& jget(s, "properties"@) matches Some(props) && ({
            &&& jget(props, "title"@) matches Some(tp) && string_property_ok(tp)
            &&& jget(props, "content"@) matches Some(cp) && string_property_ok(cp) && jget(
                cp,
                "maxLength"@,
            ) == Some(JsonValue::Int(950))
            &&& jget(props, "agent"@) matches Some(ap) && string_property_ok(ap)
        })
        &&& jget(s, "additionalProperties"@) == Some(JsonValue::Bool(false))
    })
}

/// The descriptor of the `notify` tool, as `tools/list` reports it.
pub fn notify_tool_descriptor() -> (d: JsonValue)
    ensures
        tool_descriptor_ok(d),
{
    proof {
        lemma_result_keys();
    }
    let title_prop = obj2("type", JsonValue::string_of("string"), "minLength", JsonValue::Int(1));
    let content_prop = obj3(
        "type",
        JsonValue::string_of("string"),
        "minLength",
        JsonValue::Int(1),
        "maxLength",
        JsonValue::Int(950),
    );
    let agent_prop = obj2("type", JsonValue::string_of("string"), "minLength", JsonValue::Int(1));
    let props = obj3("title", title_prop, "content", content_prop, "agent", agent_prop);
    let required = arr3(
        JsonValue::string_of("title"),
        JsonValue::string_of("content"),
        JsonValue::string_of("agent"),
    );
    let schema = obj4(
        "type",
        JsonValue::string_of("object"),
        "properties",
        props,
        "required",
        required,
        "additionalProperties",
        JsonValue::Bool(false),
    );
    obj3(
        "name",
        JsonValue::string_of("notify"),
        "description",
        JsonValue::string_of(
            "Send a desktop notification via the Agent Notifications app with title, content, and agent label.",
        ),
        "inputSchema",
        schema,
    )
}

/// The `tools/list` result is well-formed: exactly one tool, the
/// `notify` descriptor, and no pagination cursor.
pub open spec fn tools_list_result_ok(r: JsonValue) -> bool {
    envelope_result(r) matches Some(res) && ({
        &&& jget(res, "tools"@) matches Some(ts) && (ts matches JsonValue::Arr(items)
            && items@.len() == 1 && tool_descriptor_ok(items@[0]))
        &&& jget(res, "nextCursor"@) == Some(JsonValue::Null)
    })
}

/// The reply to `tools/list`.
pub fn tools_list_reply(id: JsonValue) -> (r: JsonValue)
    ensures
        is_success_envelope(r, id),
        tools_list_result_ok(r),
{
    proof {
        lemma_result_keys();
    }
    let result = obj2("tools", arr1(notify_tool_descriptor()), "nextCursor", JsonValue::Null);
    jsonrpc_success(id, result)
}

/// The `tools/call` success result is well-formed: one text content
/// item reading `Notification sent: {title}`, and `isError: false`.
pub open spec fn call_result_ok(r: JsonValue, title: Seq<char>) -> bool {
    envelope_result(r) matches Some(res) && ({
        &&& jget(res, "content"@) matches Some(cs) && (cs matches JsonValue::Arr(items)
            && items@.len() == 1 && ({
            &&& jget(items@[0], "type"@) matches Some(t) && is_jstr(t, "text"@)
            &&& jget(items@[0], "text"@) matches Some(x) && is_jstr(
                x,
                "Notification sent: "@ + title,
            )
        }))
        &&& jget(res, "isError"@) == Some(JsonValue::Bool(false))
    })
}

/// The reply to a `tools/call` of the notify tool, given whether the
/// dispatch succeeded.  A failure is replaced with a generic error: the
/// detail is logged locally, never returned to the caller.
pub fn mcp_call_response(id: JsonValue, title: &str, dispatched_ok: bool) -> (r: JsonValue)
    ensures
        dispatched_ok ==> is_success_envelope(r, id) && call_result_ok(r, title@),
        !dispatched_ok ==> is_error_envelope(r, id, -32000) && error_message(r) == Some(
            "Failed to dispatch notification"@,
        ),
{
    proof {
        lemma_result_keys();
    }
    if dispatched_ok {
        let sent = String::from_str("Notification sent: ").concat(title);
        let item = obj2("type", JsonValue::string_of("text"), "text", JsonValue::Str(sent));
        let result = obj2("content", arr1(item), "isError", JsonValue::Bool(false));
        jsonrpc_success(id, result)
    } else {
        jsonrpc_error(id, -32000, "Failed to dispatch notification")
    }
}

/// The `method` member of an inbound body.
pub open spec fn req_method(body: JsonValue) -> Option<JsonValue> {
    jget(body, "method"@)
}

/// The `id` member of an inbound body.
pub open spec fn req_id(body: JsonValue) -> Option<JsonValue> {
    jget(body, "id"@)
}

/// The `params` member of an inbound body.
pub open spec fn req_params(body: JsonValue) -> Option<JsonValue> {
    jget(body, "params"@)
}

/// The body is a response or one-way notification the server does not
/// act on: it has no `method` member, or a `method` but no `id`.
pub open spec fn is_notification(body: JsonValue) -> bool {
    req_method(body) is None || req_id(body) is None
}

/// The body's `method` member is the string reading `name`.
pub open spec fn method_is(body: JsonValue, name: Seq<char>) -> bool {
    req_method(body) matches Some(m) && is_jstr(m, name)
}

/// The body's `method` member is present and is a string.
pub open spec fn method_is_string(body: JsonValue) -> bool {
    req_method(body) matches Some(m) && m is Str
}

/// The body names one of the methods this server implements.
pub open spec fn known_method(body: JsonValue) -> bool {
    method_is(body, "initialize"@) || method_is(body, "tools/list"@) || method_is(
        body,
        "tools/call"@,
    )
}

/// The characters of `v` when it is a JSON string, and nothing
/// otherwise — how a missing or non-string argument reads as a field.
pub open spec fn str_or_empty(v: Option<JsonValue>) -> Seq<char> {
    match v {
        Some(jv) => match jv {
            JsonValue::Str(s) => s@,
            _ => Seq::empty(),
        },
        None => Seq::empty(),
    }
}

/// The notification field `k` of a call's `arguments` member.
pub open spec fn call_field(p: JsonValue, k: Seq<char>) -> Seq<char> {
    match jget(p, "arguments"@) {
        Some(a) => str_or_empty(jget(a, k)),
        None => Seq::empty(),
    }
}

/// What validation decides for the call's three argument fields.
pub open spec fn call_validated(p: JsonValue) -> Result<
    (Seq<char>, Seq<char>, Seq<char>),
    ValidateError,
> {
    validate_spec(call_field(p, "title"@), call_field(p, "content"@), call_field(p, "agent"@))
}

/// How a `tools/call` request is classified.
pub enum CallDecision {
    /// `params` is absent or not an object.
    BadParams,
    /// `params.name` is absent or not a string.
    MissingName,
    /// The named tool is not `notify`.
    UnknownTool,
    /// `params.arguments` is absent or not an object.
    BadArguments,
    /// The argument fields fail validation.
    InvalidFields,
    /// The arguments validate: dispatch the notification.
    Dispatch,
}

/// Classifies a `tools/call` request from its `params` member.
pub open spec fn call_decision(params: Option<JsonValue>) -> CallDecision {
    match params {
        None => CallDecision::BadParams,
        Some(p) => if !(p is Obj) {
            CallDecision::BadParams
        } else if !(jget(p, "name"@) matches Some(n) && n is Str) {
            CallDecision::MissingName
        } else if !(jget(p, "name"@) matches Some(n) && is_jstr(n, "notify"@)) {
            CallDecision::UnknownTool
        } else if !(jget(p, "arguments"@) matches Some(a) && a is Obj) {
            CallDecision::BadArguments
        } else if call_validated(p) is Err {
            CallDecision::InvalidFields
        } else {
            CallDecision::Dispatch
        },
    }
}

/// What the protocol engine asks the shell to do with an inbound POST.
pub enum McpOutcome {
    /// Not listening: reply 503 before any parsing.
    Unavailable,
    /// A response or notification: reply 202 with an empty body.
    Accepted,
    /// Reply 200 with this JSON-RPC envelope.
    Reply(JsonValue),
    /// Dispatch this validated notification, then reply with
    /// [`mcp_call_response`] for the outcome.
    CallNotify { id: JsonValue, title: String, content: String, agent: String },
}

impl McpOutcome {
    /// The HTTP status the outcome is served with (a `CallNotify`
    /// replies 200 whatever the dispatch outcome; failures travel in
    /// the envelope, not the status).
    pub fn http_status(&self) -> (s: u16)
        ensures
            *self is Unavailable ==> s == 503,
            *self is Accepted ==> s == 202,
            *self is Reply ==> s == 200,
            *self is CallNotify ==> s == 200,
    {
        match self {
            McpOutcome::Unavailable => 503,
            McpOutcome::Accepted => 202,
            McpOutcome::Reply(_) => 200,
            McpOutcome::CallNotify { .. } => 200,
        }
    }
}

/// The reply a `tools/call` outcome owes for its classification: each
/// rejection answers `id` with its protocol error code, and validated
/// arguments are handed on for dispatch unchanged.
pub open spec fn tools_call_post(r: McpOutcome, id: JsonValue, params: Option<JsonValue>) -> bool {
    match call_decision(params) {
        CallDecision::BadParams => r matches McpOutcome::Reply(v) && is_error_envelope(
            v,
            id,
            -32602,
        ) && error_message(v) == Some("Invalid params: expected object"@),
        CallDecision::MissingName => r matches McpOutcome::Reply(v) && is_error_envelope(
            v,
            id,
            -32602,
        ) && error_message(v) == Some("Invalid params: missing tool name"@),
        CallDecision::UnknownTool => r matches McpOutcome::Reply(v) && is_error_envelope(
            v,
            id,
            -32601,
        ) && error_message(v) == Some("Tool not found"@),
        CallDecision::BadArguments => r matches McpOutcome::Reply(v) && is_error_envelope(
            v,
            id,
            -32602,
        ) && error_message(v) == Some("Invalid params: 'arguments' must be an object"@),
        CallDecision::InvalidFields => r matches McpOutcome::Reply(v) && is_error_envelope(
            v,
            id,
            -32602,
        ) && error_message(v) == Some(
            "Invalid params: 'title', 'content', and 'agent' are required and must be within limits"@,
        ),
        CallDecision::Dispatch => r matches McpOutcome::CallNotify {
            id: rid,
            title,
            content,
            agent,
        } && rid == id && (params matches Some(p) && call_validated(p) == Ok::<
            (Seq<char>, Seq<char>, Seq<char>),
            ValidateError,
        >((title@, content@, agent@))),
    }
}

/// The string field `key` of `fields`, reading absent or non-string
/// members as empty.
fn get_string_field(fields: &Vec<(String, JsonValue)>, key: &str) -> (r: String)
    ensures
        r@ == str_or_empty(seq_get(fields@, key@)),
{
    match obj_find(fields, key) {
        Some(i) => match &fields[i].1 {
            JsonValue::Str(s) => s.clone(),
            _ => String::new(),
        },
        None => String::new(),
    }
}

/// Handles a `tools/call` request: checks the params shape, the tool
/// name and the arguments, validates the fields, and either reports the
/// protocol error or asks for the dispatch.
pub fn tools_call_outcome(id: JsonValue, params: Option<JsonValue>) -> (r: McpOutcome)
    ensures
        tools_call_post(r, id, params),
{
    let p = match params {
        Some(p) => p,
        None => {
            return McpOutcome::Reply(jsonrpc_error(id, -32602, "Invalid params: expected object"));
        },
    };
    let pfields = match p {
        JsonValue::Obj(f) => f,
        _ => {
            return McpOutcome::Reply(jsonrpc_error(id, -32602, "Invalid params: expected object"));
        },
    };
    let n_idx = match obj_find(&pfields, "name") {
        Some(i) => i,
        None => {
            return McpOutcome::Reply(
                jsonrpc_error(id, -32602, "Invalid params: missing tool name"),
            );
        },
    };
    let name_is_str = match &pfields[n_idx].1 {
        JsonValue::Str(_) => true,
        _ => false,
    };
    if !name_is_str {
        return McpOutcome::Reply(jsonrpc_error(id, -32602, "Invalid params: missing tool name"));
    }
    if !(&pfields[n_idx].1).is_string_eq("notify") {
        return McpOutcome::Reply(jsonrpc_error(id, -32601, "Tool not found"));
    }
    let a_idx = match obj_find(&pfields, "arguments") {
        Some(i) => i,
        None => {
            return McpOutcome::Reply(
                jsonrpc_error(id, -32602, "Invalid params: 'arguments' must be an object"),
            );
        },
    };
    let afields = match &pfields[a_idx].1 {
        JsonValue::Obj(f) => f,
        _ => {
            return McpOutcome::Reply(
                jsonrpc_error(id, -32602, "Invalid params: 'arguments' must be an object"),
            );
        },
    };
    let title = get_string_field(afields, "title");
    let content = get_string_field(afields, "content");
    let agent = get_string_field(afields, "agent");
    match validate_notification_fields(title.as_str(), content.as_str(), agent.as_str()) {
        Ok(valid) => McpOutcome::CallNotify { id, title: valid.0, content: valid.1, agent: valid.2 },
        Err(_) => McpOutcome::Reply(
            jsonrpc_error(
                id,
                -32602,
                "Invalid params: 'title', 'content', and 'agent' are required and must be within limits",
            ),
        ),
    }
}

/// The request member keys that share the body are distinct.
proof fn lemma_request_keys()
    ensures
        "id"@ != "params"@,
{
    reveal_strlit("id");
    reveal_strlit("params");
    assert("id"@.len() == 2);
    assert("params"@.len() == 6);
}

/// The three known method names are pairwise distinct.
proof fn lemma_method_names()
    ensures
        "initialize"@ != "tools/list"@,
        "initialize"@ != "tools/call"@,
        "tools/list"@ != "tools/call"@,
{
    reveal_strlit("initialize");
    reveal_strlit("tools/list");
    reveal_strlit("tools/call");
    assert("initialize"@[0] == 'i');
    assert("tools/list"@[0] == 't');
    assert("tools/call"@[0] == 't');
    assert("tools/list"@[6] == 'l');
    assert("tools/call"@[6] == 'c');
}

/// Dispatches one inbound MCP POST body.  The listening flag decides
/// first, before any parsing; bodies without a `method`, or without an `id`, are
/// acknowledged and not acted on; a non-string `method` is a protocol
/// error; the three known methods are answered, every other method is
/// method-not-found.
pub fn mcp_post(gate_open: bool, body: JsonValue) -> (r: McpOutcome)
    ensures
        !gate_open ==> r is Unavailable,
        gate_open ==> !(r is Unavailable),
        gate_open && is_notification(body) ==> r is Accepted,
        gate_open && !is_notification(body) && !method_is_string(body) ==> (r
            matches McpOutcome::Reply(v) && is_error_envelope(v, JsonValue::Null, -32600)
            && error_message(v) == Some("Invalid request: method must be a string"@)),
        gate_open && !is_notification(body) && method_is(body, "initialize"@) ==> (r
            matches McpOutcome::Reply(v) && (req_id(body) matches Some(i) && is_success_envelope(
            v,
            i,
        )) && initialize_result_ok(v)),
        gate_open && !is_notification(body) && method_is(body, "tools/list"@) ==> (r
            matches McpOutcome::Reply(v) && (req_id(body) matches Some(i) && is_success_envelope(
            v,
            i,
        )) && tools_list_result_ok(v)),
        gate_open && !is_notification(body) && method_is(body, "tools/call"@) ==> (req_id(body)
            matches Some(i) && tools_call_post(r, i, req_params(body))),
        gate_open && !is_notification(body) && method_is_string(body) && !known_method(body) ==> (r
            matches McpOutcome::Reply(v) && (req_id(body) matches Some(i) && is_error_envelope(
            v,
            i,
            -32601,
        )) && error_message(v) == Some("Method not found"@)),
{
    if !gate_open {
        return McpOutcome::Unavailable;
    }
    let mut fields = match body {
        JsonValue::Obj(f) => f,
        _ => {
            return McpOutcome::Accepted;
        },
    };
    let ghost fields0 = fields@;
    let m_idx = match obj_find(&fields, "method") {
        Some(i) => i,
        None => {
            return McpOutcome::Accepted;
        },
    };
    let id_idx = match obj_find(&fields, "id") {
        Some(i) => i,
        None => {
            return McpOutcome::Accepted;
        },
    };
    let (is_init, is_list, is_call): (bool, bool, bool) = match &fields[m_idx].1 {
        JsonValue::Str(_) => {
            let mv = &fields[m_idx].1;
            (
                mv.is_string_eq("initialize"),
                mv.is_string_eq("tools/list"),
                mv.is_string_eq("tools/call"),
            )
        },
        _ => {
            return McpOutcome::Reply(
                jsonrpc_error(JsonValue::Null, -32600, "Invalid request: method must be a string"),
            );
        },
    };
    proof {
        lemma_method_names();
    }
    let id = fields.remove(id_idx).1;
    if is_init {
        return McpOutcome::Reply(initialize_reply(id));
    }
    if is_list {
        return McpOutcome::Reply(tools_list_reply(id));
    }
    if is_call {
        proof {
            lemma_request_keys();
            lemma_seq_get_remove(fields0, id_idx as int, "params"@);
        }
        let params: Option<JsonValue> = match obj_find(&fields, "params") {
            Some(pi) => Some(fields.remove(pi).1),
            None => None,
        };
        return tools_call_outcome(id, params);
    }
    McpOutcome::Reply(jsonrpc_error(id, -32601, "Method not found"))
}

/// How many seconds apart the keep-alive stream ticks.
pub const SSE_KEEP_ALIVE_SECS: u64 = 25;

/// What the shell should do with a GET on the protocol route.
pub enum SsePlan {
    /// Not listening: reply 503 instead of opening the stream.
    Unavailable,
    /// Open the keep-alive stream, one comment event per tick.
    OpenStream,
}

/// Decides a GET on the protocol route: the stream opens exactly when
/// the service is listening.
pub fn plan_mcp_get(gate_open: bool) -> (r: SsePlan)
    ensures
        gate_open <==> r is OpenStream,
        !gate_open <==> r is Unavailable,
{
    if gate_open {
        SsePlan::OpenStream
    } else {
        SsePlan::Unavailable
    }
}

/// The comment carried by every keep-alive event.
pub fn keep_alive_comment() -> (s: &'static str)
    ensures
        s@ == "keep-alive"@,
{
    "keep-alive"
}

} // verus!
