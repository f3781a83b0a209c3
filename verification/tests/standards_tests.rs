use std::cell::RefCell;
use unica_coder::json::{JsonObject, JsonValue};
use unica_coder::standards::{
    normalize_mcp_http_body, outcome_from_reply, select_params, sse_data, standards_payload,
    HttpClient, StandardsAdapter,
};

fn text(s: &str) -> JsonValue {
    JsonValue::String(s.to_string())
}

fn number(s: &str) -> JsonValue {
    JsonValue::Number(s.to_string())
}

fn object(pairs: Vec<(&str, JsonValue)>) -> JsonObject {
    let mut o = JsonObject::new();
    for (k, v) in pairs {
        o.insert(k.to_string(), v);
    }
    o
}

fn str_at<'a>(v: &'a JsonValue, key: &str) -> Option<&'a str> {
    v.get(key).and_then(|x| x.as_str())
}

fn number_at(v: &JsonValue, key: &str) -> Option<String> {
    match v.get(key) {
        Some(JsonValue::Number(n)) => Some(n.clone()),
        _ => None,
    }
}

#[test]
fn standards_search_maps_to_v8std_search_request() {
    let args = object(vec![("query", text("modal windows")), ("limit", number("3"))]);

    let request = StandardsAdapter::request_for("search", &args).ok().unwrap();

    assert_eq!(request.method, "v8std_search");
    assert_eq!(str_at(&request.params, "query"), Some("modal windows"));
    assert_eq!(number_at(&request.params, "limit").as_deref(), Some("3"));
}

#[test]
fn standards_explain_prefers_diagnostics_codes() {
    let args = object(vec![
        ("codes", JsonValue::Array(vec![text("acc:142")])),
        ("query", text("ignored when codes are present")),
    ]);

    let request = StandardsAdapter::request_for("explain", &args).ok().unwrap();

    assert_eq!(request.method, "v8std_explain_diagnostics");
    match request.params.get("codes") {
        Some(JsonValue::Array(codes)) => assert_eq!(codes[0].as_str(), Some("acc:142")),
        _ => panic!("codes are missing"),
    }
    assert!(request.params.get("query").is_none());
}

#[test]
fn explain_order_snippet_then_page_then_query() {
    let snippet = object(vec![("snippet", text("Сообщить()")), ("language", text("bsl")), ("id", text("x"))]);
    let r = StandardsAdapter::request_for("explain", &snippet).ok().unwrap();
    assert_eq!(r.method, "v8std_explain_snippet");
    assert_eq!(str_at(&r.params, "language"), Some("bsl"));
    assert!(r.params.get("id").is_none());

    let page = object(vec![("id", text("std-1")), ("idOrAliasOrUrl", text("alias")), ("body_limit", number("100"))]);
    let r = StandardsAdapter::request_for("explain", &page).ok().unwrap();
    assert_eq!(r.method, "v8std_get_page");
    assert_eq!(str_at(&r.params, "id_or_alias_or_url"), Some("alias"));
    assert_eq!(number_at(&r.params, "body_limit").as_deref(), Some("100"));

    let query = object(vec![("query", text("q")), ("mode", text("fast"))]);
    let r = StandardsAdapter::request_for("explain", &query).ok().unwrap();
    assert_eq!(r.method, "v8std_search");
    assert_eq!(str_at(&r.params, "mode"), Some("fast"));
}

#[test]
fn explain_without_subject_and_unknown_operation_are_refused() {
    match StandardsAdapter::request_for("explain", &JsonObject::new()) {
        Err(e) => assert_eq!(e, "unica.standards.explain requires one of: codes, snippet, id, idOrAliasOrUrl, query"),
        Ok(_) => panic!("expected an error"),
    }
    match StandardsAdapter::request_for("browse", &JsonObject::new()) {
        Err(e) => assert_eq!(e, "unknown standards operation: browse"),
        Ok(_) => panic!("expected an error"),
    }
}

#[test]
fn select_params_keeps_only_named_members() {
    let args = object(vec![("query", text("a")), ("other", text("b")), ("types", JsonValue::Array(vec![]))]);
    let params = select_params(&args, &["query", "limit", "types", "mode"]);
    match &params {
        JsonValue::Object(o) => {
            assert_eq!(o.entries.len(), 2);
            assert_eq!(o.entries[0].0, "query");
            assert_eq!(o.entries[1].0, "types");
        }
        _ => panic!("not an object"),
    }
}

#[test]
fn page_request_members_stand_in_key_order() {
    let args = object(vec![("idOrAliasOrUrl", text("page-1")), ("bodyLimit", JsonValue::Number("500".to_string()))]);
    match StandardsAdapter::request_for("explain", &args) {
        Ok(q) => {
            assert_eq!(q.method, "v8std_get_page");
            match &q.params {
                JsonValue::Object(o) => {
                    let keys: Vec<&str> = o.entries.iter().map(|(k, _)| k.as_str()).collect();
                    assert_eq!(keys, vec!["body_limit", "id_or_alias_or_url"]);
                    assert_eq!(o.get("id_or_alias_or_url").and_then(|v| v.as_str()), Some("page-1"));
                }
                _ => panic!("not an object"),
            }
        }
        Err(e) => panic!("unexpected error: {e}"),
    }
}

#[test]
fn standards_mcp_error_body_is_reported_as_failure() {
    let outcome = StandardsAdapter::outcome_from_http_body(
        "explain",
        "https://example.test/mcp",
        "v8std_get_page",
        r#"{"jsonrpc":"2.0","id":1,"error":{"code":-32602,"message":"bad id"}}"#,
    );

    assert!(!outcome.ok);
    assert!(outcome.errors.iter().any(|error| error.contains("bad id")));
    assert!(outcome.stdout.is_none());
}

#[test]
fn standards_sse_body_extracts_structured_json_result() {
    let outcome = StandardsAdapter::outcome_from_http_body(
        "search",
        "https://example.test/mcp",
        "v8std_search",
        "event: message\ndata: {\"jsonrpc\":\"2.0\",\"id\":1,\"result\":{\"ok\":true}}\n\n",
    );

    assert!(outcome.ok);
    assert_eq!(
        outcome.stdout.as_deref(),
        Some(r#"{"jsonrpc":"2.0","id":1,"result":{"ok":true}}"#)
    );
}

#[test]
fn standards_protocol_mismatch_is_failure() {
    let outcome = StandardsAdapter::outcome_from_http_body(
        "search",
        "https://example.test/mcp",
        "v8std_search",
        r#"{"not":"json-rpc"}"#,
    );

    assert!(!outcome.ok);
    assert!(outcome
        .errors
        .iter()
        .any(|error| error.contains("missing JSON-RPC")));
}

#[test]
fn reply_bodies_map_to_outcomes() {
    let ok = StandardsAdapter::outcome_from_http_body("search", "e", "m", "  {\"result\":[]}  ");
    assert!(ok.ok);
    assert_eq!(ok.summary, "unica.standards.search completed through internal v8std MCP proxy");
    assert_eq!(ok.stdout.as_deref(), Some("{\"result\":[]}"));
    assert_eq!(ok.artifacts, vec!["e", "m"]);

    let no_message = StandardsAdapter::outcome_from_http_body("search", "e", "m", "{\"error\":{}}");
    assert_eq!(no_message.errors, vec!["remote JSON-RPC error"]);
    assert_eq!(no_message.summary, "unica.standards.search failed through internal v8std MCP proxy");

    let not_json = StandardsAdapter::outcome_from_http_body("search", "e", "m", "<html>");
    assert!(!not_json.ok);
    assert_eq!(not_json.summary, "unica.standards.search received invalid v8std MCP JSON");

    let array = StandardsAdapter::outcome_from_http_body("search", "e", "m", "[1]");
    assert_eq!(array.errors, vec!["missing JSON-RPC result or error"]);

    let bad_sse = StandardsAdapter::outcome_from_http_body("search", "e", "m", "data: {oops");
    assert!(!bad_sse.ok);
    assert_eq!(bad_sse.summary, "unica.standards.search received invalid v8std MCP response");
    assert!(bad_sse.errors[0].starts_with("invalid JSON-RPC SSE data: "));
}

#[test]
fn event_stream_data_lines_are_joined() {
    assert_eq!(sse_data("event: x\ndata: {\"a\":\ndata:  1}\r\ndata:   \n").as_deref(), Some("{\"a\":\n1}"));
    assert_eq!(sse_data("{\"a\":1}"), None);
    assert_eq!(normalize_mcp_http_body("  {\"a\":1}\n").unwrap(), "{\"a\":1}");
    assert_eq!(normalize_mcp_http_body("data: {\"a\":1}").unwrap(), "{\"a\":1}");
}

#[test]
fn transport_errors_are_failures_through_the_proxy() {
    let outcome = outcome_from_reply("explain", "e", "v8std_get_page", Err("connection refused".to_string()));
    assert!(!outcome.ok);
    assert_eq!(outcome.summary, "unica.standards.explain failed through internal v8std MCP proxy");
    assert_eq!(outcome.errors, vec!["connection refused"]);
    assert_eq!(outcome.artifacts, vec!["e", "v8std_get_page"]);
}

#[test]
fn payload_is_a_tools_call() {
    let request = StandardsAdapter::request_for("search", &object(vec![("query", text("q"))])).ok().unwrap();
    let payload = standards_payload(request);
    assert_eq!(str_at(&payload, "jsonrpc"), Some("2.0"));
    assert_eq!(number_at(&payload, "id").as_deref(), Some("1"));
    assert_eq!(str_at(&payload, "method"), Some("tools/call"));
    let params = payload.get("params").unwrap();
    assert_eq!(str_at(params, "name"), Some("v8std_search"));
    assert_eq!(str_at(params.get("arguments").unwrap(), "query"), Some("q"));
}

struct FakeHttpClient {
    payloads: RefCell<Vec<(String, Option<String>, Option<String>, Option<String>, Option<String>)>>,
    response: String,
}

impl HttpClient for FakeHttpClient {
    fn post_json(&self, endpoint: &str, payload: &JsonValue) -> Result<String, String> {
        let params = payload.get("params");
        let arguments = params.and_then(|p| p.get("arguments"));
        self.payloads.borrow_mut().push((
            endpoint.to_string(),
            str_at(payload, "method").map(|s| s.to_string()),
            params.and_then(|p| str_at(p, "name")).map(|s| s.to_string()),
            arguments.and_then(|a| str_at(a, "query")).map(|s| s.to_string()),
            arguments.and_then(|a| number_at(a, "limit")),
        ));
        Ok(self.response.clone())
    }
}

#[test]
fn standards_adapter_uses_fake_http_client_for_json_rpc_mapping() {
    let client = FakeHttpClient {
        payloads: RefCell::new(Vec::new()),
        response: r#"{"jsonrpc":"2.0","id":1,"result":{"content":[]}}"#.to_string(),
    };
    let args = object(vec![("query", text("модальные окна")), ("limit", number("2"))]);

    let outcome = StandardsAdapter::invoke_with_client("search", &args, "https://ai.v8std.ru/mcp", &client);

    assert!(outcome.ok);
    let payloads = client.payloads.borrow();
    assert_eq!(payloads.len(), 1);
    assert_eq!(payloads[0].1.as_deref(), Some("tools/call"));
    assert_eq!(payloads[0].2.as_deref(), Some("v8std_search"));
    assert_eq!(payloads[0].3.as_deref(), Some("модальные окна"));
    assert_eq!(payloads[0].4.as_deref(), Some("2"));
}

#[test]
fn invalid_arguments_are_refused_before_sending() {
    let client = FakeHttpClient { payloads: RefCell::new(Vec::new()), response: String::new() };
    let outcome = StandardsAdapter::invoke_with_client("explain", &JsonObject::new(), "https://e", &client);
    assert!(!outcome.ok);
    assert_eq!(outcome.summary, "unica.standards.explain rejected invalid arguments");
    assert_eq!(outcome.artifacts, vec!["https://e"]);
    assert!(client.payloads.borrow().is_empty());
}
