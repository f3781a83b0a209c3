//! `unica.standards.*`: tool calls forwarded to the v8std MCP service as
//! JSON-RPC `tools/call` requests, and the service's replies read back.

use vstd::prelude::*;
use crate::json::{
    clone_value, entries_same, json_from_str, json_same, keys_sorted, obj_get, obj_has, parse_json,
    JsonObject, JsonValue,
};
use crate::outcome::AdapterOutcome;
use crate::text::{
    chars_of, concat, concat3, join, join_seq, lines, lines_seq, seq_starts_with, slice_string,
    starts_with, trim, trim_seq, views,
};

verus! {

/// A remote tool call: the v8std tool and its arguments.
pub struct StandardsRequest {
    pub method: &'static str,
    pub params: JsonValue,
}

/// `params` is an object whose members stand in key order and are exactly
/// the members of `args` named in `keys`, each the same value as in `args`.
pub open spec fn selected(params: JsonValue, args: Seq<(String, JsonValue)>, keys: Seq<Seq<char>>) -> bool {
    params matches JsonValue::Object(o) && {
        &&& keys_sorted(o.entries@)
        &&& forall|k: Seq<char>|
            #[trigger] obj_has(o.entries@, k) <==> (keys.contains(k) && obj_has(args, k))
        &&& forall|k: Seq<char>|
            #[trigger] obj_has(o.entries@, k) ==> json_same(
                obj_get(args, k)->0,
                obj_get(o.entries@, k)->0,
            )
    }
}

pub open spec fn static_keys(keys: Seq<&'static str>) -> Seq<Seq<char>> {
    keys.map_values(|k: &'static str| k@)
}

/// The members of `args` named in `keys`, as a JSON object.
pub fn select_params(args: &JsonObject, keys: &'static [&'static str]) -> (r: JsonValue)
    ensures
        selected(r, args.entries@, static_keys(keys@)),
{
    let ghost ks = static_keys(keys@);
    let mut params = JsonObject::new();
    let mut i: usize = 0;
    while i < keys.len()
        invariant
            i <= keys@.len(),
            ks == static_keys(keys@),
            keys_sorted(params.entries@),
            forall|k: Seq<char>|
                #[trigger] obj_has(params.entries@, k) <==> (ks.take(i as int).contains(k)
                    && obj_has(args.entries@, k)),
            forall|k: Seq<char>|
                #[trigger] obj_has(params.entries@, k) ==> json_same(
                    obj_get(args.entries@, k)->0,
                    obj_get(params.entries@, k)->0,
                ),
        decreases keys@.len() - i,
    {
        let key = keys[i];
        let ghost before = params.entries@;
        let ghost t0 = ks.take(i as int);
        let ghost t1 = ks.take(i + 1);
        proof {
            assert forall|k: Seq<char>| t1.contains(k) <==> (t0.contains(k) || k == key@) by {
                if t1.contains(k) {
                    let j = choose|j: int| 0 <= j < t1.len() && #[trigger] t1[j] == k;
                    if j < i {
                        assert(t0[j] == k);
                    }
                }
                if t0.contains(k) {
                    let j = choose|j: int| 0 <= j < t0.len() && #[trigger] t0[j] == k;
                    assert(t1[j] == k);
                }
                if k == key@ {
                    assert(t1[i as int] == k);
                }
            }
        }
        match args.get(key) {
            Some(v) => {
                let c = clone_value(v);
                params.insert(key.to_string(), c);
            },
            None => {},
        }
        proof {
            assert forall|k: Seq<char>| #[trigger] obj_has(params.entries@, k) <==> (t1.contains(k)
                && obj_has(args.entries@, k)) by {
                assert(obj_has(before, k) <==> (t0.contains(k) && obj_has(args.entries@, k)));
            }
            assert forall|k: Seq<char>| #[trigger] obj_has(params.entries@, k) implies json_same(
                obj_get(args.entries@, k)->0,
                obj_get(params.entries@, k)->0,
            ) by {
                if k != key@ || !obj_has(args.entries@, key@) {
                    assert(obj_has(before, k));
                }
            }
        }
        i += 1;
    }
    assert(ks.take(keys@.len() as int) =~= ks);
    JsonValue::Object(params)
}

/// The error of an `explain` call that names nothing to explain.
pub open spec fn explain_needs_subject() -> Seq<char> {
    "unica.standards.explain requires one of: codes, snippet, id, idOrAliasOrUrl, query"@
}

/// The arguments of a page request: the page, from `idOrAliasOrUrl` or else
/// `id`, and the body limit, from `bodyLimit` or else `body_limit`, as an
/// object whose members stand in key order.
pub open spec fn page_params(params: JsonValue, args: Seq<(String, JsonValue)>) -> bool {
    params matches JsonValue::Object(o) && {
        let id = if obj_has(args, "idOrAliasOrUrl"@) {
            obj_get(args, "idOrAliasOrUrl"@)->0
        } else {
            obj_get(args, "id"@)->0
        };
        let limit = if obj_has(args, "bodyLimit"@) {
            obj_get(args, "bodyLimit"@)
        } else {
            obj_get(args, "body_limit"@)
        };
        &&& keys_sorted(o.entries@)
        &&& obj_get(o.entries@, "id_or_alias_or_url"@) matches Some(v) && json_same(id, v)
        &&& obj_has(o.entries@, "body_limit"@) == limit is Some
        &&& limit matches Some(l) ==> json_same(l, obj_get(o.entries@, "body_limit"@)->0)
        &&& forall|k: Seq<char>|
            #[trigger] obj_has(o.entries@, k) ==> k == "id_or_alias_or_url"@ || k == "body_limit"@
    }
}

/// Which remote tool an operation calls, and with which arguments.
pub open spec fn request_ok(r: Result<StandardsRequest, String>, operation: Seq<char>, args: Seq<(String, JsonValue)>) -> bool {
    let search_keys = seq!["query"@, "limit"@, "types"@, "mode"@];
    if operation == "search"@ {
        r matches Ok(q) && q.method@ == "v8std_search"@ && selected(q.params, args, search_keys)
    } else if operation == "explain"@ {
        if obj_has(args, "codes"@) {
            r matches Ok(q) && q.method@ == "v8std_explain_diagnostics"@ && selected(
                q.params,
                args,
                seq!["codes"@],
            )
        } else if obj_has(args, "snippet"@) {
            r matches Ok(q) && q.method@ == "v8std_explain_snippet"@ && selected(
                q.params,
                args,
                seq!["snippet"@, "language"@, "limit"@],
            )
        } else if obj_has(args, "id"@) || obj_has(args, "idOrAliasOrUrl"@) {
            r matches Ok(q) && q.method@ == "v8std_get_page"@ && page_params(q.params, args)
        } else if obj_has(args, "query"@) {
            r matches Ok(q) && q.method@ == "v8std_search"@ && selected(q.params, args, search_keys)
        } else {
            r matches Err(e) && e@ == explain_needs_subject()
        }
    } else {
        r matches Err(e) && e@ == "unknown standards operation: "@ + operation
    }
}

fn page_request(args: &JsonObject) -> (r: StandardsRequest)
    requires
        obj_has(args.entries@, "id"@) || obj_has(args.entries@, "idOrAliasOrUrl"@),
    ensures
        r.method@ == "v8std_get_page"@,
        page_params(r.params, args.entries@),
{
    let id = match args.get("idOrAliasOrUrl") {
        Some(v) => clone_value(v),
        None => match args.get("id") {
            Some(v) => clone_value(v),
            None => JsonValue::Null,
        },
    };
    let ghost id_value = id;
    let mut params = JsonObject::new();
    let ghost p0 = params.entries@;
    params.insert("id_or_alias_or_url".to_string(), id);
    let ghost p1 = params.entries@;
    let limit = match args.get("bodyLimit") {
        Some(v) => Some(v),
        None => args.get("body_limit"),
    };
    proof {
        reveal_strlit("id_or_alias_or_url");
        reveal_strlit("body_limit");
        assert("id_or_alias_or_url"@[0] != "body_limit"@[0]);
    }
    match limit {
        Some(v) => {
            let c = clone_value(v);
            params.insert("body_limit".to_string(), c);
        },
        None => {},
    }
    proof {
        assert(obj_get(params.entries@, "id_or_alias_or_url"@) == Some(id_value));
        assert forall|k: Seq<char>| #[trigger] obj_has(params.entries@, k) implies k
            == "id_or_alias_or_url"@ || k == "body_limit"@ by {
            if k != "id_or_alias_or_url"@ && k != "body_limit"@ {
                assert(obj_get(params.entries@, k) == obj_get(p1, k));
                assert(obj_get(p1, k) == obj_get(p0, k));
            }
        }
    }
    StandardsRequest { method: "v8std_get_page", params: JsonValue::Object(params) }
}

/// The parameters of a search: `query`, `limit`, `types` and `mode`.
fn search_request(args: &JsonObject) -> (r: StandardsRequest)
    ensures
        r.method@ == "v8std_search"@,
        selected(r.params, args.entries@, seq!["query"@, "limit"@, "types"@, "mode"@]),
{
    let params = select_params(args, &["query", "limit", "types", "mode"]);
    assert(static_keys(seq!["query", "limit", "types", "mode"]) =~= seq![
        "query"@,
        "limit"@,
        "types"@,
        "mode"@,
    ]);
    StandardsRequest { method: "v8std_search", params }
}

/// The parameters of a diagnostics explanation: `codes`.
fn diagnostics_request(args: &JsonObject) -> (r: StandardsRequest)
    ensures
        r.method@ == "v8std_explain_diagnostics"@,
        selected(r.params, args.entries@, seq!["codes"@]),
{
    let keys: &'static [&'static str] = &["codes"];
    assert(keys@ =~= seq!["codes"]);
    let params = select_params(args, keys);
    assert(static_keys(keys@) =~= seq!["codes"@]);
    StandardsRequest { method: "v8std_explain_diagnostics", params }
}

/// The parameters of a snippet explanation: `snippet`, `language` and
/// `limit`.
fn snippet_request(args: &JsonObject) -> (r: StandardsRequest)
    ensures
        r.method@ == "v8std_explain_snippet"@,
        selected(r.params, args.entries@, seq!["snippet"@, "language"@, "limit"@]),
{
    let params = select_params(args, &["snippet", "language", "limit"]);
    assert(static_keys(seq!["snippet", "language", "limit"]) =~= seq![
        "snippet"@,
        "language"@,
        "limit"@,
    ]);
    StandardsRequest { method: "v8std_explain_snippet", params }
}

/// The adapter of `unica.standards.search` and `unica.standards.explain`.
#[derive(Debug, Clone, Copy)]
pub struct StandardsAdapter;

impl StandardsAdapter {
    /// The remote call for an operation.  `explain` looks, in this order,
    /// for diagnostic codes, a code snippet, a page id, and a query.
    pub fn request_for(operation: &str, args: &JsonObject) -> (r: Result<StandardsRequest, String>)
        ensures
            request_ok(r, operation@, args.entries@),
    {
        proof {
            reveal_strlit("search");
            reveal_strlit("explain");
        }
        if crate::text::str_eq(operation, "search") {
            return Ok(search_request(args));
        }
        if !crate::text::str_eq(operation, "explain") {
            return Err(concat("unknown standards operation: ", operation));
        }
        if args.contains_key("codes") {
            Ok(diagnostics_request(args))
        } else if args.contains_key("snippet") {
            Ok(snippet_request(args))
        } else if args.contains_key("id") || args.contains_key("idOrAliasOrUrl") {
            Ok(page_request(args))
        } else if args.contains_key("query") {
            Ok(search_request(args))
        } else {
            Err(
                "unica.standards.explain requires one of: codes, snippet, id, idOrAliasOrUrl, query".to_string(),
            )
        }
    }
}


// ---------------------------------------------------------------------------
// Replies
// ---------------------------------------------------------------------------

/// The data of a server-sent-events line: what follows `data:`, trimmed,
/// when that is not empty.
pub open spec fn data_payload(line: Seq<char>) -> Option<Seq<char>> {
    if seq_starts_with(line, "data:"@) && trim_seq(line.subrange("data:"@.len() as int, line.len() as int)).len() > 0 {
        Some(trim_seq(line.subrange("data:"@.len() as int, line.len() as int)))
    } else {
        None
    }
}

/// The data lines of a reply, in order.
pub open spec fn data_lines(lines: Seq<Seq<char>>) -> Seq<Seq<char>>
    decreases lines.len(),
{
    if lines.len() == 0 {
        seq![]
    } else {
        let rest = data_lines(lines.drop_last());
        match data_payload(lines.last()) {
            Some(d) => rest.push(d),
            None => rest,
        }
    }
}

/// The JSON text of a reply.  A reply with data lines is an event stream:
/// its data lines joined by line feeds, which must parse as JSON.  Any
/// other reply is its body, trimmed.
pub open spec fn normalized_spec(text: Seq<char>) -> Result<Seq<char>, Seq<char>> {
    let d = data_lines(lines_seq(text));
    if d.len() == 0 {
        Ok(trim_seq(text))
    } else {
        match json_from_str(join_seq(d, "\n"@)) {
            Ok(_) => Ok(join_seq(d, "\n"@)),
            Err(e) => Err("invalid JSON-RPC SSE data: "@ + e),
        }
    }
}

fn data_payload_of(line: &str) -> (r: Option<String>)
    ensures
        match r {
            Some(d) => data_payload(line@) == Some(d@),
            None => data_payload(line@) is None,
        },
{
    proof {
        reveal_strlit("data:");
    }
    if !starts_with(line, "data:") {
        return None;
    }
    let v = chars_of(line);
    let rest = slice_string(v.as_slice(), 5, v.len());
    let d = trim(rest.as_str());
    if d.as_str().is_empty() {
        None
    } else {
        Some(d)
    }
}

/// The data lines of a reply joined by line feeds, when it has any.
pub fn sse_data(text: &str) -> (r: Option<String>)
    ensures
        match r {
            Some(j) => data_lines(lines_seq(text@)).len() > 0 && j@ == join_seq(
                data_lines(lines_seq(text@)),
                "\n"@,
            ),
            None => data_lines(lines_seq(text@)).len() == 0,
        },
{
    let ls = lines(text);
    let ghost all = lines_seq(text@);
    let mut data: Vec<String> = Vec::new();
    let mut i: usize = 0;
    while i < ls.len()
        invariant
            all == lines_seq(text@),
            ls@.len() == all.len(),
            forall|j: int| 0 <= j < ls@.len() ==> #[trigger] ls@[j]@ == all[j],
            i <= ls@.len(),
            views(data@) == data_lines(all.take(i as int)),
        decreases ls@.len() - i,
    {
        assert(all.take(i + 1).drop_last() =~= all.take(i as int));
        assert(all.take(i + 1).last() == ls@[i as int]@);
        match data_payload_of(ls[i].as_str()) {
            Some(d) => {
                let ghost before = data@;
                data.push(d);
                proof {
                    crate::argv::lemma_views_push(before, data@.last());
                }
            },
            None => {},
        }
        i += 1;
    }
    assert(all.take(ls@.len() as int) =~= all);
    if data.len() == 0 {
        None
    } else {
        Some(join(&data, "\n"))
    }
}

/// The JSON text of a reply (see [`normalized_spec`]).
pub fn normalize_mcp_http_body(text: &str) -> (r: Result<String, String>)
    ensures
        match r {
            Ok(t) => normalized_spec(text@) == Ok::<Seq<char>, Seq<char>>(t@),
            Err(e) => normalized_spec(text@) == Err::<Seq<char>, Seq<char>>(e@),
        },
{
    match sse_data(text) {
        None => Ok(trim(text)),
        Some(joined) => match parse_json(joined.as_str()) {
            Ok(_) => Ok(joined),
            Err(e) => Err(concat("invalid JSON-RPC SSE data: ", e.as_str())),
        },
    }
}

/// `unica.standards.<operation>`, as summaries name the tool.
pub open spec fn tool_title(operation: Seq<char>) -> Seq<char> {
    "unica.standards."@ + operation
}

/// A failed outcome naming the endpoint and the remote tool.
pub open spec fn remote_failure(
    o: AdapterOutcome,
    summary: Seq<char>,
    error: Seq<char>,
    endpoint: Seq<char>,
    method: Seq<char>,
) -> bool {
    &&& !o.ok
    &&& o.summary@ == summary
    &&& o.changes@.len() == 0
    &&& o.warnings@.len() == 0
    &&& views(o.errors@) == seq![error]
    &&& views(o.artifacts@) == seq![endpoint, method]
    &&& o.stdout is None
    &&& o.stderr is None
    &&& o.command is None
}

/// The message of a JSON-RPC error reply.
pub open spec fn remote_error_message(reply: Seq<(String, JsonValue)>) -> Seq<char> {
    match obj_get(reply, "error"@) {
        Some(JsonValue::Object(e)) => match crate::json::arg_str(e.entries@, "message"@) {
            Some(m) => m,
            None => "remote JSON-RPC error"@,
        },
        _ => "remote JSON-RPC error"@,
    }
}

/// What a parsed reply means: a JSON-RPC error, a result (whose JSON
/// text is handed on), or no JSON-RPC answer at all.
pub open spec fn reply_outcome_ok(
    o: AdapterOutcome,
    operation: Seq<char>,
    endpoint: Seq<char>,
    method: Seq<char>,
    normalized: Seq<char>,
    parsed: Result<JsonValue, Seq<char>>,
) -> bool {
    match parsed {
        Ok(JsonValue::Object(reply)) => if obj_has(reply.entries@, "error"@) {
            remote_failure(
                o,
                tool_title(operation) + " failed through internal v8std MCP proxy"@,
                remote_error_message(reply.entries@),
                endpoint,
                method,
            )
        } else if obj_has(reply.entries@, "result"@) {
            &&& o.ok
            &&& o.summary@ == tool_title(operation) + " completed through internal v8std MCP proxy"@
            &&& o.changes@.len() == 0
            &&& o.warnings@.len() == 0
            &&& o.errors@.len() == 0
            &&& views(o.artifacts@) == seq![endpoint, method]
            &&& o.stdout matches Some(t) && t@ == normalized
            &&& o.stderr is None
            &&& o.command is None
        } else {
            remote_failure(
                o,
                tool_title(operation) + " received non-JSON-RPC v8std MCP response"@,
                "missing JSON-RPC result or error"@,
                endpoint,
                method,
            )
        },
        Ok(_) => remote_failure(
            o,
            tool_title(operation) + " received non-JSON-RPC v8std MCP response"@,
            "missing JSON-RPC result or error"@,
            endpoint,
            method,
        ),
        Err(e) => remote_failure(
            o,
            tool_title(operation) + " received invalid v8std MCP JSON"@,
            e,
            endpoint,
            method,
        ),
    }
}

/// The outcome of a reply body.
pub open spec fn http_body_outcome_ok(
    o: AdapterOutcome,
    operation: Seq<char>,
    endpoint: Seq<char>,
    method: Seq<char>,
    text: Seq<char>,
) -> bool {
    match normalized_spec(text) {
        Err(e) => remote_failure(
            o,
            tool_title(operation) + " received invalid v8std MCP response"@,
            e,
            endpoint,
            method,
        ),
        Ok(n) => reply_outcome_ok(o, operation, endpoint, method, n, json_from_str(n)),
    }
}

fn remote_outcome(summary: String, error: String, endpoint: &str, method: &str) -> (o: AdapterOutcome)
    ensures
        remote_failure(o, summary@, error@, endpoint@, method@),
{
    let mut artifacts: Vec<String> = Vec::new();
    crate::argv::push_arg(&mut artifacts, endpoint);
    crate::argv::push_arg(&mut artifacts, method);
    let o = AdapterOutcome::failure(summary, error, artifacts);
    assert(views(o.errors@) =~= seq![error@]);
    assert(views(o.artifacts@) =~= seq![endpoint@, method@]);
    o
}

/// The outcome of a reply once its JSON text was parsed.
pub fn outcome_from_reply_json(
    operation: &str,
    endpoint: &str,
    remote_method: &str,
    normalized: String,
    parsed: Result<JsonValue, String>,
) -> (o: AdapterOutcome)
    ensures
        reply_outcome_ok(
            o,
            operation@,
            endpoint@,
            remote_method@,
            normalized@,
            match parsed {
                Ok(v) => Ok(v),
                Err(e) => Err(e@),
            },
        ),
{
    match parsed {
        Ok(JsonValue::Object(reply)) => {
            if reply.contains_key("error") {
                let message = match reply.get("error") {
                    Some(JsonValue::Object(e)) => match crate::json::get_str(e, "message") {
                        Some(m) => m.to_string(),
                        None => "remote JSON-RPC error".to_string(),
                    },
                    _ => "remote JSON-RPC error".to_string(),
                };
                remote_outcome(
                    concat3("unica.standards.", operation, " failed through internal v8std MCP proxy"),
                    message,
                    endpoint,
                    remote_method,
                )
            } else if reply.contains_key("result") {
                let mut artifacts: Vec<String> = Vec::new();
                crate::argv::push_arg(&mut artifacts, endpoint);
                crate::argv::push_arg(&mut artifacts, remote_method);
                assert(views(artifacts@) =~= seq![endpoint@, remote_method@]);
                AdapterOutcome {
                    ok: true,
                    summary: concat3(
                        "unica.standards.",
                        operation,
                        " completed through internal v8std MCP proxy",
                    ),
                    changes: Vec::new(),
                    warnings: Vec::new(),
                    errors: Vec::new(),
                    artifacts,
                    stdout: Some(normalized),
                    stderr: None,
                    command: None,
                }
            } else {
                remote_outcome(
                    concat3("unica.standards.", operation, " received non-JSON-RPC v8std MCP response"),
                    "missing JSON-RPC result or error".to_string(),
                    endpoint,
                    remote_method,
                )
            }
        },
        Ok(_) => remote_outcome(
            concat3("unica.standards.", operation, " received non-JSON-RPC v8std MCP response"),
            "missing JSON-RPC result or error".to_string(),
            endpoint,
            remote_method,
        ),
        Err(e) => remote_outcome(
            concat3("unica.standards.", operation, " received invalid v8std MCP JSON"),
            e,
            endpoint,
            remote_method,
        ),
    }
}

impl StandardsAdapter {
    /// The outcome of a reply body from the service.
    pub fn outcome_from_http_body(operation: &str, endpoint: &str, remote_method: &str, text: &str) -> (o: AdapterOutcome)
        ensures
            http_body_outcome_ok(o, operation@, endpoint@, remote_method@, text@),
    {
        match normalize_mcp_http_body(text) {
            Err(e) => remote_outcome(
                concat3("unica.standards.", operation, " received invalid v8std MCP response"),
                e,
                endpoint,
                remote_method,
            ),
            Ok(normalized) => {
                let parsed = parse_json(normalized.as_str());
                outcome_from_reply_json(operation, endpoint, remote_method, normalized, parsed)
            },
        }
    }
}


// ---------------------------------------------------------------------------
// The call
// ---------------------------------------------------------------------------

/// Why an operation cannot be forwarded, if it cannot.
pub open spec fn request_refusal(operation: Seq<char>, args: Seq<(String, JsonValue)>) -> Option<Seq<char>> {
    if operation == "search"@ {
        None
    } else if operation == "explain"@ {
        if obj_has(args, "codes"@) || obj_has(args, "snippet"@) || obj_has(args, "id"@) || obj_has(
            args,
            "idOrAliasOrUrl"@,
        ) || obj_has(args, "query"@) {
            None
        } else {
            Some(explain_needs_subject())
        }
    } else {
        Some("unknown standards operation: "@ + operation)
    }
}

/// The remote tool that a forwarded operation calls.
pub open spec fn request_method(operation: Seq<char>, args: Seq<(String, JsonValue)>) -> Seq<char> {
    if operation == "explain"@ && obj_has(args, "codes"@) {
        "v8std_explain_diagnostics"@
    } else if operation == "explain"@ && obj_has(args, "snippet"@) {
        "v8std_explain_snippet"@
    } else if operation == "explain"@ && (obj_has(args, "id"@) || obj_has(args, "idOrAliasOrUrl"@)) {
        "v8std_get_page"@
    } else {
        "v8std_search"@
    }
}

/// The arguments that a forwarded operation sends to its remote tool.
pub open spec fn request_params(params: JsonValue, operation: Seq<char>, args: Seq<(String, JsonValue)>) -> bool {
    let search_keys = seq!["query"@, "limit"@, "types"@, "mode"@];
    if operation == "explain"@ && obj_has(args, "codes"@) {
        selected(params, args, seq!["codes"@])
    } else if operation == "explain"@ && obj_has(args, "snippet"@) {
        selected(params, args, seq!["snippet"@, "language"@, "limit"@])
    } else if operation == "explain"@ && (obj_has(args, "id"@) || obj_has(args, "idOrAliasOrUrl"@)) {
        page_params(params, args)
    } else {
        selected(params, args, search_keys)
    }
}

proof fn lemma_request_refusal(r: Result<StandardsRequest, String>, operation: Seq<char>, args: Seq<(String, JsonValue)>)
    requires
        request_ok(r, operation, args),
    ensures
        r matches Err(e) ==> request_refusal(operation, args) == Some(e@),
        r matches Ok(q) ==> request_refusal(operation, args) is None && q.method@ == request_method(
            operation,
            args,
        ) && request_params(q.params, operation, args),
{
    reveal_strlit("search");
    reveal_strlit("explain");
    assert("search"@ != "explain"@) by {
        assert("search"@[0] != "explain"@[0]);
    }
}

/// The JSON-RPC request that carries a remote tool call: `tools/call` with
/// id 1, naming the tool and its arguments.
pub open spec fn payload_ok(payload: JsonValue, method: Seq<char>, params: JsonValue) -> bool {
    payload matches JsonValue::Object(p) && {
        &&& crate::json::arg_str(p.entries@, "jsonrpc"@) == Some("2.0"@)
        &&& obj_get(p.entries@, "id"@) matches Some(JsonValue::Number(n)) && n@ == "1"@
        &&& crate::json::arg_str(p.entries@, "method"@) == Some("tools/call"@)
        &&& obj_get(p.entries@, "params"@) matches Some(JsonValue::Object(call)) && {
            &&& crate::json::arg_str(call.entries@, "name"@) == Some(method)
            &&& obj_get(call.entries@, "arguments"@) == Some(params)
            &&& forall|k: Seq<char>|
                #[trigger] obj_has(call.entries@, k) ==> k == "name"@ || k == "arguments"@
        }
        &&& forall|k: Seq<char>|
            #[trigger] obj_has(p.entries@, k) ==> k == "jsonrpc"@ || k == "id"@ || k == "method"@
                || k == "params"@
    }
}

pub fn standards_payload(request: StandardsRequest) -> (p: JsonValue)
    ensures
        payload_ok(p, request.method@, request.params),
{
    proof {
        reveal_strlit("name");
        reveal_strlit("arguments");
        reveal_strlit("jsonrpc");
        reveal_strlit("id");
        reveal_strlit("method");
        reveal_strlit("params");
        assert("name"@ != "arguments"@) by {
            assert("name"@[0] != "arguments"@[0]);
        }
        assert("jsonrpc"@ != "id"@) by {
            assert("jsonrpc"@[0] != "id"@[0]);
        }
        assert("jsonrpc"@ != "method"@) by {
            assert("jsonrpc"@[0] != "method"@[0]);
        }
        assert("jsonrpc"@ != "params"@) by {
            assert("jsonrpc"@[0] != "params"@[0]);
        }
        assert("id"@ != "method"@) by {
            assert("id"@[0] != "method"@[0]);
        }
        assert("id"@ != "params"@) by {
            assert("id"@[0] != "params"@[0]);
        }
        assert("method"@ != "params"@) by {
            assert("method"@[0] != "params"@[0]);
        }
    }
    let method = request.method;
    let mut call = JsonObject::new();
    call.insert("name".to_string(), JsonValue::String(method.to_string()));
    call.insert("arguments".to_string(), request.params);
    let mut p = JsonObject::new();
    p.insert("jsonrpc".to_string(), JsonValue::String("2.0".to_string()));
    p.insert("id".to_string(), JsonValue::Number("1".to_string()));
    p.insert("method".to_string(), JsonValue::String("tools/call".to_string()));
    p.insert("params".to_string(), JsonValue::Object(call));
    JsonValue::Object(p)
}

/// What carries a request to the service and brings back the reply body.
pub trait HttpClient {
    fn post_json(&self, endpoint: &str, payload: &JsonValue) -> Result<String, String>;
}

/// The outcome of a call refused before anything was sent.
pub open spec fn invalid_arguments(o: AdapterOutcome, operation: Seq<char>, error: Seq<char>, endpoint: Seq<char>) -> bool {
    &&& !o.ok
    &&& o.summary@ == tool_title(operation) + " rejected invalid arguments"@
    &&& o.changes@.len() == 0
    &&& o.warnings@.len() == 0
    &&& views(o.errors@) == seq![error]
    &&& views(o.artifacts@) == seq![endpoint]
    &&& o.stdout is None
    &&& o.stderr is None
    &&& o.command is None
}

/// A reply or an error, as text.
pub open spec fn text_result(r: Result<String, String>) -> Result<Seq<char>, Seq<char>> {
    match r {
        Ok(t) => Ok(t@),
        Err(e) => Err(e@),
    }
}

/// The outcome of what the transport returned: a reply body, or the
/// transport's error.
pub open spec fn reply_ok(
    o: AdapterOutcome,
    operation: Seq<char>,
    endpoint: Seq<char>,
    method: Seq<char>,
    reply: Result<Seq<char>, Seq<char>>,
) -> bool {
    match reply {
        Ok(text) => http_body_outcome_ok(o, operation, endpoint, method, text),
        Err(e) => remote_failure(
            o,
            tool_title(operation) + " failed through internal v8std MCP proxy"@,
            e,
            endpoint,
            method,
        ),
    }
}

pub fn outcome_from_reply(
    operation: &str,
    endpoint: &str,
    remote_method: &str,
    reply: Result<String, String>,
) -> (o: AdapterOutcome)
    ensures
        reply_ok(
            o,
            operation@,
            endpoint@,
            remote_method@,
            match reply {
                Ok(t) => Ok(t@),
                Err(e) => Err(e@),
            },
        ),
{
    match reply {
        Ok(text) => StandardsAdapter::outcome_from_http_body(operation, endpoint, remote_method, text.as_str()),
        Err(e) => remote_outcome(
            concat3("unica.standards.", operation, " failed through internal v8std MCP proxy"),
            e,
            endpoint,
            remote_method,
        ),
    }
}

impl StandardsAdapter {
    /// Forwards an operation to the service at `endpoint` through `http`:
    /// `http` is handed the JSON-RPC request of the operation, and the
    /// outcome is read from the reply it brought back.
    pub fn invoke_with_client<H: HttpClient>(operation: &str, args: &JsonObject, endpoint: &str, http: &H) -> (o: AdapterOutcome)
        ensures
            match request_refusal(operation@, args.entries@) {
                Some(e) => invalid_arguments(o, operation@, e, endpoint@),
                None => exists|params: JsonValue, payload: JsonValue, reply: Result<String, String>|
                    #[trigger] call_ensures(H::post_json, (http, endpoint, &payload), reply) && {
                        &&& #[trigger] request_params(params, operation@, args.entries@)
                        &&& payload_ok(payload, request_method(operation@, args.entries@), params)
                        &&& reply_ok(
                            o,
                            operation@,
                            endpoint@,
                            request_method(operation@, args.entries@),
                            text_result(reply),
                        )
                    },
            },
    {
        let requested = StandardsAdapter::request_for(operation, args);
        proof {
            lemma_request_refusal(requested, operation@, args.entries@);
        }
        let request = match requested {
            Ok(request) => request,
            Err(error) => {
                let mut artifacts: Vec<String> = Vec::new();
                crate::argv::push_arg(&mut artifacts, endpoint);
                let mut errors: Vec<String> = Vec::new();
                crate::argv::push_arg(&mut errors, error.as_str());
                assert(views(artifacts@) =~= seq![endpoint@]);
                assert(views(errors@) =~= seq![error@]);
                return AdapterOutcome {
                    ok: false,
                    summary: concat3("unica.standards.", operation, " rejected invalid arguments"),
                    changes: Vec::new(),
                    warnings: Vec::new(),
                    errors,
                    artifacts,
                    stdout: None,
                    stderr: None,
                    command: None,
                };
            },
        };
        let method = request.method;
        let ghost params = request.params;
        let payload = standards_payload(request);
        let reply = http.post_json(endpoint, &payload);
        let ghost reply_g = reply;
        assert(call_ensures(H::post_json, (http, endpoint, &payload), reply_g));
        let o = outcome_from_reply(operation, endpoint, method, reply);
        assert(reply_ok(o, operation@, endpoint@, method@, text_result(reply_g)));
        o
    }
}

} // verus!
