//! The stdio MCP server: what each JSON-RPC message is answered.  A tool
//! call is handed to the caller, which runs it and asks for the reply.

use vstd::prelude::*;
use crate::application::UnicaApplication;
use crate::json::{clone_object, clone_value, entries_same, get_str, json_from_str, json_same, obj_get, obj_has, parse_json, JsonObject, JsonValue};
use crate::text::{concat, i64_to_string, int_text, starts_with, seq_starts_with, trim, trim_seq};
use crate::tools::{tool_views, catalog, ToolSpec};

verus! {

/// Member `key` of a JSON object; `None` for other values.
pub open spec fn at(v: JsonValue, key: Seq<char>) -> Option<JsonValue> {
    match v {
        JsonValue::Object(o) => obj_get(o.entries@, key),
        _ => None,
    }
}

/// A JSON string with the given text.
pub open spec fn is_text(v: Option<JsonValue>, text: Seq<char>) -> bool {
    v matches Some(JsonValue::String(s)) && s@ == text
}

/// The members of an object are exactly `keys`.
pub open spec fn only_keys(v: JsonValue, keys: Seq<Seq<char>>) -> bool {
    v matches JsonValue::Object(o) && forall|k: Seq<char>| #[trigger] obj_has(o.entries@, k) <==> keys.contains(k)
}

fn text(s: &str) -> (v: JsonValue)
    ensures
        v matches JsonValue::String(t) && t@ == s@,
{
    JsonValue::String(s.to_string())
}

fn obj1(k1: &str, v1: JsonValue) -> (r: JsonValue)
    ensures
        at(r, k1@) == Some(v1),
        only_keys(r, seq![k1@]),
{
    let mut o = JsonObject::new();
    o.insert(k1.to_string(), v1);
    proof {
        assert forall|k: Seq<char>| #[trigger] obj_has(o.entries@, k) <==> seq![k1@].contains(k) by {
            if k == k1@ {
                assert(seq![k1@][0] == k);
            }
        }
    }
    JsonValue::Object(o)
}

fn obj2(k1: &str, v1: JsonValue, k2: &str, v2: JsonValue) -> (r: JsonValue)
    requires
        k1@ != k2@,
    ensures
        at(r, k1@) == Some(v1),
        at(r, k2@) == Some(v2),
        only_keys(r, seq![k1@, k2@]),
{
    let mut o = JsonObject::new();
    o.insert(k1.to_string(), v1);
    o.insert(k2.to_string(), v2);
    proof {
        assert forall|k: Seq<char>| #[trigger] obj_has(o.entries@, k) <==> seq![k1@, k2@].contains(k) by {
            if k == k1@ {
                assert(seq![k1@, k2@][0] == k);
            }
            if k == k2@ {
                assert(seq![k1@, k2@][1] == k);
            }
        }
    }
    JsonValue::Object(o)
}

fn obj3(k1: &str, v1: JsonValue, k2: &str, v2: JsonValue, k3: &str, v3: JsonValue) -> (r: JsonValue)
    requires
        k1@ != k2@,
        k1@ != k3@,
        k2@ != k3@,
    ensures
        at(r, k1@) == Some(v1),
        at(r, k2@) == Some(v2),
        at(r, k3@) == Some(v3),
        only_keys(r, seq![k1@, k2@, k3@]),
{
    let mut o = JsonObject::new();
    o.insert(k1.to_string(), v1);
    o.insert(k2.to_string(), v2);
    o.insert(k3.to_string(), v3);
    proof {
        assert forall|k: Seq<char>| #[trigger] obj_has(o.entries@, k) <==> seq![k1@, k2@, k3@].contains(k) by {
            if k == k1@ {
                assert(seq![k1@, k2@, k3@][0] == k);
            }
            if k == k2@ {
                assert(seq![k1@, k2@, k3@][1] == k);
            }
            if k == k3@ {
                assert(seq![k1@, k2@, k3@][2] == k);
            }
        }
    }
    JsonValue::Object(o)
}

/// A JSON-RPC success reply.
pub open spec fn success_ok(r: JsonValue, id: JsonValue, result: JsonValue) -> bool {
    &&& is_text(at(r, "jsonrpc"@), "2.0"@)
    &&& at(r, "id"@) == Some(id)
    &&& at(r, "result"@) == Some(result)
    &&& only_keys(r, seq!["jsonrpc"@, "id"@, "result"@])
}

/// A JSON-RPC error reply.
pub open spec fn error_ok(r: JsonValue, id: JsonValue, code: int, message: Seq<char>) -> bool {
    &&& is_text(at(r, "jsonrpc"@), "2.0"@)
    &&& at(r, "id"@) == Some(id)
    &&& at(r, "error"@) matches Some(e) && {
        &&& at(e, "code"@) matches Some(JsonValue::Number(n)) && n@ == int_text(code)
        &&& is_text(at(e, "message"@), message)
        &&& only_keys(e, seq!["code"@, "message"@])
    }
    &&& only_keys(r, seq!["jsonrpc"@, "id"@, "error"@])
}

pub fn success_response(id: JsonValue, result: JsonValue) -> (r: JsonValue)
    ensures
        success_ok(r, id, result),
{
    proof {
        reveal_strlit("jsonrpc");
        reveal_strlit("id");
        reveal_strlit("result");
        assert("jsonrpc"@[0] != "id"@[0] && "jsonrpc"@[0] != "result"@[0] && "id"@[0] != "result"@[0]);
    }
    obj3("jsonrpc", text("2.0"), "id", id, "result", result)
}

pub fn error_response(id: JsonValue, code: i64, message: &str) -> (r: JsonValue)
    ensures
        error_ok(r, id, code as int, message@),
{
    proof {
        reveal_strlit("jsonrpc");
        reveal_strlit("id");
        reveal_strlit("error");
        reveal_strlit("code");
        reveal_strlit("message");
        assert("jsonrpc"@[0] != "id"@[0] && "jsonrpc"@[0] != "error"@[0] && "id"@[0] != "error"@[0]);
        assert("code"@[0] != "message"@[0]);
    }
    let error = obj2("code", JsonValue::Number(i64_to_string(code)), "message", text(message));
    obj3("jsonrpc", text("2.0"), "id", id, "error", error)
}


// ---------------------------------------------------------------------------
// The tool list
// ---------------------------------------------------------------------------

pub open spec fn dry_run_help() -> Seq<char> {
    "For mutating tools defaults to true. Pass false to execute the operation."@
}

pub open spec fn cwd_help() -> Seq<char> {
    "Working directory for resolving project-relative paths."@
}

pub open spec fn args_help() -> Seq<char> {
    "Optional raw argument vector for internal CLI adapters."@
}

/// A described property of a given JSON type.
pub open spec fn property_ok(p: Option<JsonValue>, ty: Seq<char>, help: Seq<char>) -> bool {
    p matches Some(v) && is_text(at(v, "type"@), ty) && is_text(at(v, "description"@), help)
}

/// The input schema of every tool: an object that admits any member, with
/// `dryRun`, `cwd` and `args` described.
pub open spec fn schema_ok(s: JsonValue) -> bool {
    &&& is_text(at(s, "type"@), "object"@)
    &&& at(s, "additionalProperties"@) == Some(JsonValue::Bool(true))
    &&& at(s, "properties"@) matches Some(p) && {
        &&& property_ok(at(p, "dryRun"@), "boolean"@, dry_run_help())
        &&& only_keys(at(p, "dryRun"@)->0, seq!["type"@, "description"@])
        &&& property_ok(at(p, "cwd"@), "string"@, cwd_help())
        &&& only_keys(at(p, "cwd"@)->0, seq!["type"@, "description"@])
        &&& property_ok(at(p, "args"@), "array"@, args_help())
        &&& at(at(p, "args"@)->0, "items"@) matches Some(i) && is_text(at(i, "type"@), "string"@)
            && only_keys(i, seq!["type"@])
        &&& only_keys(at(p, "args"@)->0, seq!["type"@, "items"@, "description"@])
        &&& only_keys(p, seq!["dryRun"@, "cwd"@, "args"@])
    }
    &&& only_keys(s, seq!["type"@, "additionalProperties"@, "properties"@])
}

fn property(ty: &str, help: &str) -> (r: JsonValue)
    ensures
        property_ok(Some(r), ty@, help@),
        only_keys(r, seq!["type"@, "description"@]),
{
    proof {
        reveal_strlit("type");
        reveal_strlit("description");
        assert("type"@[0] != "description"@[0]);
    }
    obj2("type", text(ty), "description", text(help))
}

pub fn input_schema() -> (s: JsonValue)
    ensures
        schema_ok(s),
{
    proof {
        reveal_strlit("type");
        reveal_strlit("items");
        reveal_strlit("description");
        reveal_strlit("additionalProperties");
        reveal_strlit("properties");
        reveal_strlit("dryRun");
        reveal_strlit("cwd");
        reveal_strlit("args");
        assert("type"@[0] != "items"@[0] && "type"@[0] != "description"@[0] && "items"@[0] != "description"@[0]);
        assert("type"@[0] != "additionalProperties"@[0] && "type"@[0] != "properties"@[0]
            && "additionalProperties"@[0] != "properties"@[0]);
        assert("dryRun"@[0] != "cwd"@[0] && "dryRun"@[0] != "args"@[0] && "cwd"@[0] != "args"@[0]);
    }
    let dry_run = property("boolean", "For mutating tools defaults to true. Pass false to execute the operation.");
    let cwd = property("string", "Working directory for resolving project-relative paths.");
    let items = obj1("type", text("string"));
    let args = obj3(
        "type",
        text("array"),
        "items",
        items,
        "description",
        text("Optional raw argument vector for internal CLI adapters."),
    );
    let properties = obj3("dryRun", dry_run, "cwd", cwd, "args", args);
    obj3("type", text("object"), "additionalProperties", JsonValue::Bool(true), "properties", properties)
}

/// How a tool is listed: its name, description and input schema.
pub open spec fn tool_entry_ok(e: JsonValue, tool: crate::tools::ToolView) -> bool {
    &&& is_text(at(e, "name"@), tool.name)
    &&& is_text(at(e, "description"@), tool.description)
    &&& at(e, "inputSchema"@) matches Some(s) && schema_ok(s)
    &&& only_keys(e, seq!["name"@, "description"@, "inputSchema"@])
}

pub fn list_tools(tools: &Vec<ToolSpec>) -> (r: Vec<JsonValue>)
    ensures
        r@.len() == tools@.len(),
        forall|i: int| 0 <= i < r@.len() ==> tool_entry_ok(#[trigger] r@[i], tools@[i]@),
{
    proof {
        reveal_strlit("name");
        reveal_strlit("description");
        reveal_strlit("inputSchema");
        assert("name"@[0] != "description"@[0] && "name"@[0] != "inputSchema"@[0] && "description"@[0]
            != "inputSchema"@[0]);
    }
    let mut r: Vec<JsonValue> = Vec::new();
    let mut i: usize = 0;
    while i < tools.len()
        invariant
            i <= tools@.len(),
            r@.len() == i,
            "name"@ != "description"@,
            "name"@ != "inputSchema"@,
            "description"@ != "inputSchema"@,
            forall|j: int| 0 <= j < i ==> tool_entry_ok(#[trigger] r@[j], tools@[j]@),
        decreases tools@.len() - i,
    {
        let tool = &tools[i];
        let entry = obj3("name", text(tool.name), "description", text(tool.description), "inputSchema", input_schema());
        r.push(entry);
        i += 1;
    }
    r
}

// ---------------------------------------------------------------------------
// Messages
// ---------------------------------------------------------------------------

/// What the server does with a message: nothing (a notification), reply,
/// or run a tool and then reply (see [`tool_call_reply`]).
pub enum McpAction {
    Ignore,
    Reply(JsonValue),
    CallTool { id: JsonValue, name: String, arguments: JsonObject },
}

pub open spec fn protocol_version() -> Seq<char> {
    "2024-11-05"@
}

/// The version that the server reports: this package's.
pub open spec fn server_version() -> Seq<char> {
    "0.1.0"@
}

/// The answer to `initialize`.
pub open spec fn initialize_ok(r: JsonValue) -> bool {
    &&& is_text(at(r, "protocolVersion"@), protocol_version())
    &&& at(r, "capabilities"@) matches Some(c) && at(c, "tools"@) matches Some(t) && at(t, "listChanged"@)
        == Some(JsonValue::Bool(false)) && only_keys(c, seq!["tools"@]) && only_keys(t, seq!["listChanged"@])
    &&& at(r, "serverInfo"@) matches Some(si) && is_text(at(si, "name"@), "unica"@) && is_text(
        at(si, "version"@),
        server_version(),
    ) && only_keys(si, seq!["name"@, "version"@])
    &&& only_keys(r, seq!["protocolVersion"@, "capabilities"@, "serverInfo"@])
}

fn initialize_result() -> (r: JsonValue)
    ensures
        initialize_ok(r),
{
    proof {
        reveal_strlit("protocolVersion");
        reveal_strlit("capabilities");
        reveal_strlit("serverInfo");
        reveal_strlit("name");
        reveal_strlit("version");
        assert("protocolVersion"@[0] != "capabilities"@[0] && "protocolVersion"@[0] != "serverInfo"@[0]
            && "capabilities"@[0] != "serverInfo"@[0]);
        assert("name"@[0] != "version"@[0]);
    }
    let list_changed = obj1("listChanged", JsonValue::Bool(false));
    let capabilities = obj1("tools", list_changed);
    let server_info = obj2("name", text("unica"), "version", text("0.1.0"));
    obj3("protocolVersion", text("2024-11-05"), "capabilities", capabilities, "serverInfo", server_info)
}

/// The id of a message, `null` when it has none.
pub open spec fn message_id(m: JsonValue) -> JsonValue {
    match at(m, "id"@) {
        Some(v) => v,
        None => JsonValue::Null,
    }
}

/// The method of a message, empty when it names none.
pub open spec fn message_method(m: JsonValue) -> Seq<char> {
    match at(m, "method"@) {
        Some(JsonValue::String(s)) => s@,
        _ => seq![],
    }
}

/// A reply to the message with id `id`: a success with `result` (when
/// `result` is `Some`), or an error.
pub open spec fn reply_head_ok(r: JsonValue, id: JsonValue) -> bool {
    &&& is_text(at(r, "jsonrpc"@), "2.0"@)
    &&& at(r, "id"@) matches Some(i) && json_same(id, i)
}

pub open spec fn error_reply_ok(r: JsonValue, id: JsonValue, code: int, message: Seq<char>) -> bool {
    &&& reply_head_ok(r, id)
    &&& at(r, "error"@) matches Some(e) && {
        &&& at(e, "code"@) matches Some(JsonValue::Number(n)) && n@ == int_text(code)
        &&& is_text(at(e, "message"@), message)
        &&& only_keys(e, seq!["code"@, "message"@])
    }
    &&& only_keys(r, seq!["jsonrpc"@, "id"@, "error"@])
}

pub open spec fn success_head_ok(r: JsonValue, id: JsonValue) -> bool {
    &&& reply_head_ok(r, id)
    &&& at(r, "result"@) is Some
    &&& only_keys(r, seq!["jsonrpc"@, "id"@, "result"@])
}

/// What a `tools/call` message asks for: the tool's name and its arguments
/// (an empty object when none are given).
pub open spec fn call_request_ok(r: Result<(String, JsonObject), (i64, String)>, m: JsonValue) -> bool {
    match at(m, "params"@) {
        None => r matches Err((c, e)) && c == -32602 && e@ == "missing params"@,
        Some(p) => match at(p, "name"@) {
            Some(JsonValue::String(n)) => r matches Ok((name, args)) && name@ == n@ && match at(
                p,
                "arguments"@,
            ) {
                Some(JsonValue::Object(a)) => entries_same(a.entries@, args.entries@),
                _ => args.entries@.len() == 0,
            },
            _ => r matches Err((c, e)) && c == -32602 && e@ == "missing tool name"@,
        },
    }
}

pub fn call_request(message: &JsonValue) -> (r: Result<(String, JsonObject), (i64, String)>)
    ensures
        call_request_ok(r, *message),
{
    let params = match message.get("params") {
        Some(p) => p,
        None => {
            return Err((-32602, "missing params".to_string()));
        },
    };
    let name = match params.get("name") {
        Some(JsonValue::String(n)) => n.clone(),
        _ => {
            return Err((-32602, "missing tool name".to_string()));
        },
    };
    let args = match params.get("arguments") {
        Some(JsonValue::Object(a)) => clone_object(a),
        _ => JsonObject::new(),
    };
    Ok((name, args))
}

/// The reply to a tool call: the result's text as text content, or the
/// error with its code.
pub open spec fn tool_call_reply_ok(r: JsonValue, id: JsonValue, result: Result<String, (i64, String)>) -> bool {
    match result {
        Ok(t) => {
            &&& success_ok(r, id, at(r, "result"@)->0)
            &&& at(at(r, "result"@)->0, "content"@) matches Some(JsonValue::Array(items)) && {
                &&& items@.len() == 1
                &&& is_text(at(items@[0], "type"@), "text"@)
                &&& is_text(at(items@[0], "text"@), t@)
                &&& only_keys(items@[0], seq!["type"@, "text"@])
            }
            &&& only_keys(at(r, "result"@)->0, seq!["content"@])
        },
        Err((code, message)) => error_ok(r, id, code as int, message@),
    }
}

pub fn tool_call_reply(id: JsonValue, result: Result<String, (i64, String)>) -> (r: JsonValue)
    ensures
        tool_call_reply_ok(r, id, result),
{
    match result {
        Ok(t) => {
            proof {
                reveal_strlit("type");
                reveal_strlit("text");
                assert("type"@[1] != "text"@[1]);
            }
            let item = obj2("type", text("text"), "text", JsonValue::String(t));
            let mut items: Vec<JsonValue> = Vec::new();
            items.push(item);
            let result = obj1("content", JsonValue::Array(items));
            success_response(id, result)
        },
        Err((code, message)) => error_response(id, code, message.as_str()),
    }
}

/// The answer to `tools/list`: every tool of the catalogue, in order.
pub open spec fn tool_list_ok(result: JsonValue) -> bool {
    &&& only_keys(result, seq!["tools"@])
    &&& match at(result, "tools"@) {
        Some(JsonValue::Array(list)) => list@.len() == catalog().len() && forall|i: int|
            0 <= i < list@.len() ==> tool_entry_ok(#[trigger] list@[i], catalog()[i]),
        _ => false,
    }
}

/// What every message is answered.
pub open spec fn handle_ok(a: McpAction, m: JsonValue) -> bool {
    let method = message_method(m);
    let id = message_id(m);
    if seq_starts_with(method, "notifications/"@) {
        a is Ignore
    } else if method == "initialize"@ {
        a matches McpAction::Reply(r) && success_head_ok(r, id) && initialize_ok(at(r, "result"@)->0)
    } else if method == "ping"@ {
        a matches McpAction::Reply(r) && success_head_ok(r, id) && only_keys(at(r, "result"@)->0, seq![])
    } else if method == "tools/list"@ {
        a matches McpAction::Reply(r) && success_head_ok(r, id) && tool_list_ok(at(r, "result"@)->0)
    } else if method == "tools/call"@ {
        exists|r: Result<(String, JsonObject), (i64, String)>|
            #[trigger] call_request_ok(r, m) && match r {
                Ok((name, args)) => a matches McpAction::CallTool { id: i, name: n, arguments: g } && json_same(
                    id,
                    i,
                ) && n@ == name@ && g == args,
                Err((code, e)) => a matches McpAction::Reply(reply) && error_reply_ok(
                    reply,
                    id,
                    code as int,
                    e@,
                ),
            }
    } else {
        a matches McpAction::Reply(r) && error_reply_ok(r, id, -32601, "method not found: "@ + method)
    }
}

fn id_of(message: &JsonValue) -> (id: JsonValue)
    ensures
        json_same(message_id(*message), id),
{
    match message.get("id") {
        Some(v) => clone_value(v),
        None => JsonValue::Null,
    }
}

/// The action for one JSON-RPC message.
pub fn handle_message(app: &UnicaApplication, message: JsonValue) -> (a: McpAction)
    ensures
        handle_ok(a, message),
{
    proof {
        reveal_strlit("initialize");
        reveal_strlit("ping");
        reveal_strlit("tools/list");
        reveal_strlit("tools/call");
        reveal_strlit("notifications/");
    }
    let id = id_of(&message);
    let method = match message.get("method") {
        Some(JsonValue::String(s)) => s.clone(),
        _ => String::new(),
    };
    if starts_with(method.as_str(), "notifications/") {
        return McpAction::Ignore;
    }
    if crate::text::str_eq(method.as_str(), "initialize") {
        let r = success_response(id, initialize_result());
        return McpAction::Reply(r);
    }
    if crate::text::str_eq(method.as_str(), "ping") {
        let empty = JsonObject::new();
        let result = JsonValue::Object(empty);
        proof {
            assert forall|k: Seq<char>| #[trigger] obj_has(empty.entries@, k) <==> seq![].contains(k) by {}
        }
        let r = success_response(id, result);
        return McpAction::Reply(r);
    }
    if crate::text::str_eq(method.as_str(), "tools/list") {
        proof {
            reveal_strlit("tools");
        }
        let tools = app.tools();
        let list = list_tools(&tools);
        let r = success_response(id, obj1("tools", JsonValue::Array(list)));
        proof {
            assert forall|i: int| 0 <= i < list@.len() implies tool_entry_ok(#[trigger] list@[i], catalog()[i]) by {
                assert(tool_views(tools@)[i] == tools@[i]@);
            }
        }
        return McpAction::Reply(r);
    }
    if crate::text::str_eq(method.as_str(), "tools/call") {
        let request = call_request(&message);
        return match request {
            Ok((name, arguments)) => McpAction::CallTool { id, name, arguments },
            Err((code, e)) => McpAction::Reply(error_response(id, code, e.as_str())),
        };
    }
    let text = concat("method not found: ", method.as_str());
    McpAction::Reply(error_response(id, -32601, text.as_str()))
}


/// Every message but a notification is answered, and the answer carries
/// the message's id (`null` when it has none): either a reply, or a tool
/// call whose reply (see [`tool_call_reply`]) is built from that id.
/// Notifications are never answered.
pub proof fn lemma_requests_are_answered_with_their_id(a: McpAction, m: JsonValue)
    requires
        handle_ok(a, m),
    ensures
        seq_starts_with(message_method(m), "notifications/"@) <==> a is Ignore,
        a matches McpAction::Reply(r) ==> reply_head_ok(r, message_id(m)),
        a matches McpAction::CallTool { id, .. } ==> json_same(message_id(m), id),
{
}

/// What a line read from the client is answered: a blank line nothing, a
/// line that is not JSON a parse error, any other line as its message.
pub open spec fn line_ok(a: McpAction, line: Seq<char>) -> bool {
    if trim_seq(line).len() == 0 {
        a is Ignore
    } else {
        match json_from_str(line) {
            Err(e) => a matches McpAction::Reply(r) && error_ok(r, JsonValue::Null, -32700, "parse error: "@ + e),
            Ok(m) => handle_ok(a, m),
        }
    }
}

pub fn handle_line(app: &UnicaApplication, line: &str) -> (a: McpAction)
    ensures
        line_ok(a, line@),
{
    let trimmed = trim(line);
    if trimmed.as_str().is_empty() {
        return McpAction::Ignore;
    }
    match parse_json(line) {
        Ok(message) => handle_message(app, message),
        Err(e) => {
            let text = concat("parse error: ", e.as_str());
            McpAction::Reply(error_response(JsonValue::Null, -32700, text.as_str()))
        },
    }
}

} // verus!
