use unica_coder::application::UnicaApplication;
use unica_coder::json::{JsonObject, JsonValue};
use unica_coder::mcp::{
    call_request, error_response, handle_line, handle_message, input_schema, list_tools,
    success_response, tool_call_reply, McpAction,
};
use unica_coder::tools::tools;

fn text(s: &str) -> JsonValue {
    JsonValue::String(s.to_string())
}

fn number(s: &str) -> JsonValue {
    JsonValue::Number(s.to_string())
}

fn object(pairs: Vec<(&str, JsonValue)>) -> JsonValue {
    let mut o = JsonObject::new();
    for (k, v) in pairs {
        o.insert(k.to_string(), v);
    }
    JsonValue::Object(o)
}

fn reply(action: McpAction) -> JsonValue {
    match action {
        McpAction::Reply(v) => v,
        _ => panic!("expected a reply"),
    }
}

fn path<'a>(v: &'a JsonValue, keys: &[&str]) -> Option<&'a JsonValue> {
    let mut cur = v;
    for k in keys {
        cur = cur.get(k)?;
    }
    Some(cur)
}

fn text_at<'a>(v: &'a JsonValue, keys: &[&str]) -> Option<&'a str> {
    path(v, keys).and_then(|x| x.as_str())
}

fn number_at(v: &JsonValue, keys: &[&str]) -> Option<String> {
    match path(v, keys) {
        Some(JsonValue::Number(n)) => Some(n.clone()),
        _ => None,
    }
}

#[test]
fn initialize_uses_single_public_server_name() {
    let app = UnicaApplication::new();
    let request = object(vec![("jsonrpc", text("2.0")), ("id", number("1")), ("method", text("initialize"))]);
    let response = reply(handle_message(&app, request));
    assert_eq!(text_at(&response, &["result", "serverInfo", "name"]), Some("unica"));
}

#[test]
fn initialize_reports_protocol_and_capabilities() {
    let app = UnicaApplication::new();
    let request = object(vec![("id", number("7")), ("method", text("initialize"))]);
    let response = reply(handle_message(&app, request));
    assert_eq!(text_at(&response, &["jsonrpc"]), Some("2.0"));
    assert_eq!(number_at(&response, &["id"]).as_deref(), Some("7"));
    assert_eq!(text_at(&response, &["result", "protocolVersion"]), Some("2024-11-05"));
    assert_eq!(text_at(&response, &["result", "serverInfo", "version"]), Some("0.1.0"));
    assert_eq!(
        path(&response, &["result", "capabilities", "tools", "listChanged"]).and_then(|v| v.as_bool()),
        Some(false)
    );
}

#[test]
fn tools_list_contains_orchestrated_tool_names() {
    let app = UnicaApplication::new();
    let request = object(vec![("jsonrpc", text("2.0")), ("id", number("1")), ("method", text("tools/list"))]);
    let response = reply(handle_message(&app, request));
    let listed = match path(&response, &["result", "tools"]) {
        Some(JsonValue::Array(items)) => items,
        _ => panic!("tools are missing"),
    };
    assert_eq!(text_at(&listed[0], &["name"]), Some("unica.cf.edit"));
    assert!(listed.iter().any(|tool| text_at(tool, &["name"]) == Some("unica.project.status")));
    assert!(listed.iter().any(|tool| text_at(tool, &["name"]) == Some("unica.standards.explain")));
}

#[test]
fn listed_tools_carry_the_common_input_schema() {
    let listed = list_tools(&tools());
    assert_eq!(listed.len(), 50);
    let schema = input_schema();
    assert_eq!(text_at(&schema, &["type"]), Some("object"));
    assert_eq!(path(&schema, &["additionalProperties"]).and_then(|v| v.as_bool()), Some(true));
    assert_eq!(text_at(&schema, &["properties", "dryRun", "type"]), Some("boolean"));
    assert_eq!(text_at(&schema, &["properties", "args", "items", "type"]), Some("string"));
    assert_eq!(text_at(&listed[1], &["inputSchema", "properties", "cwd", "type"]), Some("string"));
    assert!(text_at(&listed[1], &["description"]).is_some());
}

#[test]
fn ping_and_notifications() {
    let app = UnicaApplication::new();
    let ping = reply(handle_message(&app, object(vec![("id", text("a")), ("method", text("ping"))])));
    match path(&ping, &["result"]) {
        Some(JsonValue::Object(o)) => assert!(o.entries.is_empty()),
        _ => panic!("ping result is not an empty object"),
    }
    assert_eq!(text_at(&ping, &["id"]), Some("a"));
    match handle_message(&app, object(vec![("method", text("notifications/initialized"))])) {
        McpAction::Ignore => {}
        _ => panic!("notifications are not answered"),
    }
}

#[test]
fn unknown_method_is_an_error_with_null_id_when_missing() {
    let app = UnicaApplication::new();
    let response = reply(handle_message(&app, object(vec![("method", text("resources/list"))])));
    assert!(path(&response, &["id"]).unwrap().is_null());
    assert_eq!(number_at(&response, &["error", "code"]).as_deref(), Some("-32601"));
    assert_eq!(text_at(&response, &["error", "message"]), Some("method not found: resources/list"));
    let nothing = reply(handle_message(&app, object(vec![("id", number("3"))])));
    assert_eq!(text_at(&nothing, &["error", "message"]), Some("method not found: "));
}

#[test]
fn tools_call_is_handed_to_the_caller() {
    let app = UnicaApplication::new();
    let message = object(vec![
        ("id", number("5")),
        ("method", text("tools/call")),
        ("params", object(vec![("name", text("unica.project.status")), ("arguments", object(vec![("cwd", text("/w"))]))])),
    ]);
    match handle_message(&app, message) {
        McpAction::CallTool { id, name, arguments } => {
            assert_eq!(name, "unica.project.status");
            assert_eq!(arguments.get("cwd").and_then(|v| v.as_str()), Some("/w"));
            match id {
                JsonValue::Number(n) => assert_eq!(n, "5"),
                _ => panic!("id changed"),
            }
        }
        _ => panic!("expected a tool call"),
    }
}

#[test]
fn tools_call_without_params_or_name_is_invalid() {
    let app = UnicaApplication::new();
    let missing = reply(handle_message(&app, object(vec![("id", number("1")), ("method", text("tools/call"))])));
    assert_eq!(number_at(&missing, &["error", "code"]).as_deref(), Some("-32602"));
    assert_eq!(text_at(&missing, &["error", "message"]), Some("missing params"));
    let message = object(vec![("method", text("tools/call")), ("params", object(vec![("name", number("1"))]))]);
    match call_request(&message) {
        Err((code, m)) => {
            assert_eq!(code, -32602);
            assert_eq!(m, "missing tool name");
        }
        Ok(_) => panic!("expected an error"),
    }
    let no_args = object(vec![("params", object(vec![("name", text("t")), ("arguments", text("x"))]))]);
    let (name, args) = call_request(&no_args).unwrap();
    assert_eq!(name, "t");
    assert!(args.entries.is_empty());
}

#[test]
fn tool_call_replies() {
    let ok = tool_call_reply(number("9"), Ok("{\"ok\":true}".to_string()));
    match path(&ok, &["result", "content"]) {
        Some(JsonValue::Array(items)) => {
            assert_eq!(items.len(), 1);
            assert_eq!(text_at(&items[0], &["type"]), Some("text"));
            assert_eq!(text_at(&items[0], &["text"]), Some("{\"ok\":true}"));
        }
        _ => panic!("content is missing"),
    }
    let failed = tool_call_reply(number("9"), Err((-32000, "unknown unica tool: x".to_string())));
    assert_eq!(number_at(&failed, &["error", "code"]).as_deref(), Some("-32000"));
    assert_eq!(text_at(&failed, &["error", "message"]), Some("unknown unica tool: x"));
}

#[test]
fn lines_are_parsed_before_they_are_handled() {
    let app = UnicaApplication::new();
    match handle_line(&app, "   ") {
        McpAction::Ignore => {}
        _ => panic!("blank lines are skipped"),
    }
    let parse_error = reply(handle_line(&app, "{not json"));
    assert!(path(&parse_error, &["id"]).unwrap().is_null());
    assert_eq!(number_at(&parse_error, &["error", "code"]).as_deref(), Some("-32700"));
    assert!(text_at(&parse_error, &["error", "message"]).unwrap().starts_with("parse error: "));
    let init = reply(handle_line(&app, r#"{"jsonrpc":"2.0","id":1,"method":"initialize"}"#));
    assert_eq!(text_at(&init, &["result", "serverInfo", "name"]), Some("unica"));
    assert_eq!(number_at(&init, &["id"]).as_deref(), Some("1"));
}

#[test]
fn response_builders() {
    let s = success_response(JsonValue::Null, text("r"));
    assert_eq!(text_at(&s, &["result"]), Some("r"));
    let e = error_response(number("2"), -32603, "boom");
    assert_eq!(number_at(&e, &["error", "code"]).as_deref(), Some("-32603"));
    assert_eq!(text_at(&e, &["error", "message"]), Some("boom"));
}
