//! Mapping of typed tool arguments to the argument vectors of the internal
//! command-line adapters.

use vstd::prelude::*;
use crate::json::{
    arg_bool, arg_str, cli_text, get_bool, get_str, obj_get, obj_has, value_to_cli_string,
    JsonObject, JsonValue,
};
use crate::text::{
    ascii_lower, char_to_ascii_lowercase, char_uppercase, chars_of, concat, contains,
    is_ascii_upper, join, join_seq, lower_seq, occurs_at, push_char, seq_contains, slice_string, str_eq,
    to_ascii_lowercase, uppercase_of, views,
};

verus! {

pub proof fn lemma_views_push(v: Seq<String>, x: String)
    ensures
        views(v.push(x)) == views(v).push(x@),
{
    assert(views(v.push(x)) =~= views(v).push(x@));
}

/// Pushes a copy of `s` onto an argument vector.
pub fn push_arg(result: &mut Vec<String>, s: &str)
    ensures
        views(final(result)@) == views(old(result)@).push(s@),
{
    let ghost before = result@;
    result.push(s.to_string());
    proof {
        lemma_views_push(before, result@.last());
    }
}

// ---------------------------------------------------------------------------
// Keys and flags
// ---------------------------------------------------------------------------

/// The reported value that stands for a secret.
pub open spec fn redacted() -> Seq<char> {
    "<redacted>"@
}

/// A key whose value must not be shown: its ASCII-lowercased form mentions
/// a password, a token or a secret.
pub open spec fn is_secret_key_spec(key: Seq<char>) -> bool {
    let k = lower_seq(key);
    seq_contains(k, "password"@) || seq_contains(k, "token"@) || seq_contains(k, "secret"@)
}

pub fn is_secret_key(key: &str) -> (r: bool)
    ensures
        r == is_secret_key_spec(key@),
{
    let key = to_ascii_lowercase(key);
    contains(key.as_str(), "password") || contains(key.as_str(), "token") || contains(
        key.as_str(),
        "secret",
    )
}

/// What one character of a key becomes in kebab case.
pub open spec fn kebab_char(c: char, first: bool) -> Seq<char> {
    if c == '_' {
        seq!['-']
    } else if is_ascii_upper(c) {
        if first {
            seq![ascii_lower(c)]
        } else {
            seq!['-', ascii_lower(c)]
        }
    } else {
        seq![c]
    }
}

/// Kebab case of the first `n` characters of `s`.
pub open spec fn kebab_prefix(s: Seq<char>, n: int) -> Seq<char>
    decreases n,
{
    if n <= 0 {
        seq![]
    } else {
        kebab_prefix(s, n - 1) + kebab_char(s[n - 1], n - 1 == 0)
    }
}

/// `camelCase` and `snake_case` keys in kebab case: `_` becomes `-`, and an
/// ASCII capital becomes `-` and its lowercase letter (no `-` at the start).
pub open spec fn kebab_seq(s: Seq<char>) -> Seq<char> {
    kebab_prefix(s, s.len() as int)
}

pub fn kebab_case(key: &str) -> (r: String)
    ensures
        r@ == kebab_seq(key@),
{
    let v = chars_of(key);
    let mut out = String::new();
    let mut i: usize = 0;
    while i < v.len()
        invariant
            i <= v@.len(),
            out@ == kebab_prefix(v@, i as int),
        decreases v@.len() - i,
    {
        let ch = v[i];
        if ch == '_' {
            push_char(&mut out, '-');
        } else if 'A' <= ch && ch <= 'Z' {
            if i > 0 {
                push_char(&mut out, '-');
            }
            push_char(&mut out, char_to_ascii_lowercase(ch));
        } else {
            push_char(&mut out, ch);
        }
        proof {
            assert(out@ =~= kebab_prefix(v@, i as int) + kebab_char(v@[i as int], i == 0));
        }
        i += 1;
    }
    out
}

/// Kebab case output has no `_` and no ASCII capital.
pub open spec fn is_kebab_clean(s: Seq<char>) -> bool {
    forall|i: int| 0 <= i < s.len() ==> s[i] != '_' && !is_ascii_upper(#[trigger] s[i])
}

proof fn lemma_kebab_prefix_clean(s: Seq<char>, n: int)
    requires
        0 <= n <= s.len(),
    ensures
        is_kebab_clean(kebab_prefix(s, n)),
    decreases n,
{
    if n > 0 {
        lemma_kebab_prefix_clean(s, n - 1);
        let a = kebab_prefix(s, n - 1);
        let b = kebab_char(s[n - 1], n - 1 == 0);
        let c = s[n - 1];
        assert(is_kebab_clean(b)) by {
            if is_ascii_upper(c) {
                assert((c as u32) + 32 >= 'a' as u32);
            }
        }
        assert forall|i: int| 0 <= i < (a + b).len() implies (a + b)[i] != '_' && !is_ascii_upper(
            #[trigger] (a + b)[i],
        ) by {
            if i < a.len() {
                assert((a + b)[i] == a[i]);
            } else {
                assert((a + b)[i] == b[i - a.len()]);
            }
        }
    }
}

proof fn lemma_kebab_identity(s: Seq<char>, n: int)
    requires
        0 <= n <= s.len(),
        is_kebab_clean(s),
    ensures
        kebab_prefix(s, n) == s.subrange(0, n),
    decreases n,
{
    if n > 0 {
        lemma_kebab_identity(s, n - 1);
        let c = s[n - 1];
        assert(c != '_' && !is_ascii_upper(c));
        assert(kebab_char(c, n - 1 == 0) == seq![c]);
        assert(s.subrange(0, n - 1).push(c) =~= s.subrange(0, n));
    } else {
        assert(s.subrange(0, 0) =~= Seq::<char>::empty());
    }
}

/// Kebab case is idempotent: a flag name already in kebab case is left as it is.
pub proof fn lemma_kebab_idempotent(s: Seq<char>)
    ensures
        kebab_seq(kebab_seq(s)) == kebab_seq(s),
{
    let k = kebab_seq(s);
    lemma_kebab_prefix_clean(s, s.len() as int);
    lemma_kebab_identity(k, k.len() as int);
    assert(k.subrange(0, k.len() as int) =~= k);
}

/// `key` with its first character in upper case (as `char::to_uppercase` maps it).
pub open spec fn pascal_seq(key: Seq<char>) -> Seq<char> {
    if key.len() == 0 {
        seq![]
    } else {
        char_uppercase(key[0]) + key.drop_first()
    }
}

pub fn pascal_case_key(key: &str) -> (r: String)
    ensures
        r@ == pascal_seq(key@),
{
    let v = chars_of(key);
    if v.len() == 0 {
        return String::new();
    }
    let mut r = uppercase_of(v[0]);
    let rest = slice_string(v.as_slice(), 1, v.len());
    r.append(rest.as_str());
    assert(v@.subrange(1, v@.len() as int) =~= v@.drop_first());
    r
}

// ---------------------------------------------------------------------------
// Typed runtime arguments
// ---------------------------------------------------------------------------

/// The text of argument `key` as the runtime adapter passes it: absent and
/// `null` give nothing; a secret is redacted when `redact` is set.
pub open spec fn string_arg_spec(args: Seq<(String, JsonValue)>, key: Seq<char>, redact: bool) -> Option<Seq<char>> {
    match obj_get(args, key) {
        None => None,
        Some(JsonValue::Null) => None,
        Some(v) => Some(
            if redact && is_secret_key_spec(key) {
                redacted()
            } else {
                cli_text(v)
            },
        ),
    }
}

/// `flag value` when the argument has a value, nothing otherwise.
pub open spec fn arg_pair(args: Seq<(String, JsonValue)>, flag: Seq<char>, key: Seq<char>, redact: bool) -> Seq<Seq<char>> {
    match string_arg_spec(args, key, redact) {
        Some(v) => seq![flag, v],
        None => seq![],
    }
}

/// The value alone, when the argument has one.
pub open spec fn arg_value(args: Seq<(String, JsonValue)>, key: Seq<char>, redact: bool) -> Seq<Seq<char>> {
    match string_arg_spec(args, key, redact) {
        Some(v) => seq![v],
        None => seq![],
    }
}

/// `flag` when the argument is the boolean `true`.
pub open spec fn bool_flag(args: Seq<(String, JsonValue)>, flag: Seq<char>, key: Seq<char>) -> Seq<Seq<char>> {
    if arg_bool(args, key) == Some(true) {
        seq![flag]
    } else {
        seq![]
    }
}

pub fn string_arg(args: &JsonObject, key: &str, redact: bool) -> (r: Option<String>)
    ensures
        r is Some == string_arg_spec(args.entries@, key@, redact) is Some,
        r matches Some(s) ==> string_arg_spec(args.entries@, key@, redact) == Some(s@),
{
    match args.get(key) {
        None => None,
        Some(value) => {
            if value.is_null() {
                return None;
            }
            if redact && is_secret_key(key) {
                Some("<redacted>".to_string())
            } else {
                Some(value_to_cli_string(value))
            }
        },
    }
}

pub fn append_arg(result: &mut Vec<String>, flag: &str, args: &JsonObject, key: &str, redact: bool)
    ensures
        views(final(result)@) == views(old(result)@) + arg_pair(args.entries@, flag@, key@, redact),
{
    let ghost before = views(result@);
    if let Some(value) = string_arg(args, key, redact) {
        push_arg(result, flag);
        push_arg(result, value.as_str());
        assert(views(result@) =~= before + seq![flag@, value@]);
    } else {
        assert(views(result@) =~= before + Seq::<Seq<char>>::empty());
    }
}

pub fn append_value(result: &mut Vec<String>, args: &JsonObject, key: &str, redact: bool)
    ensures
        views(final(result)@) == views(old(result)@) + arg_value(args.entries@, key@, redact),
{
    let ghost before = views(result@);
    if let Some(value) = string_arg(args, key, redact) {
        push_arg(result, value.as_str());
        assert(views(result@) =~= before + seq![value@]);
    } else {
        assert(views(result@) =~= before + Seq::<Seq<char>>::empty());
    }
}

pub fn append_bool_flag(result: &mut Vec<String>, flag: &str, args: &JsonObject, key: &str)
    ensures
        views(final(result)@) == views(old(result)@) + bool_flag(args.entries@, flag@, key@),
{
    let ghost before = views(result@);
    let set = match get_bool(args, key) {
        Some(b) => b,
        None => false,
    };
    if set {
        push_arg(result, flag);
        assert(views(result@) =~= before + seq![flag@]);
    } else {
        assert(views(result@) =~= before + Seq::<Seq<char>>::empty());
    }
}

/// `--config` (except for `config-init`, where `config` names the output)
/// and `--workdir`, which every runtime operation takes first.
pub open spec fn runtime_global_args(args: Seq<(String, JsonValue)>, op: Seq<char>, redact: bool) -> Seq<Seq<char>> {
    (if op != "config-init"@ {
        arg_pair(args, "--config"@, "config"@, redact)
    } else {
        seq![]
    }) + arg_pair(args, "--workdir"@, "workdir"@, redact)
}

pub fn append_runtime_global_args(result: &mut Vec<String>, operation: &str, args: &JsonObject, redact: bool)
    ensures
        views(final(result)@) == views(old(result)@) + runtime_global_args(args.entries@, operation@, redact),
{
    let ghost before = views(result@);
    if !str_eq(operation, "config-init") {
        append_arg(result, "--config", args, "config", redact);
    }
    append_arg(result, "--workdir", args, "workdir", redact);
    assert(views(result@) =~= before + runtime_global_args(args.entries@, operation@, redact));
}

/// The `launch` arguments after the operation word, chosen by `clientMode`.
pub open spec fn launch_args(args: Seq<(String, JsonValue)>, redact: bool) -> Seq<Seq<char>> {
    let mcp_tail = arg_pair(args, "--mode"@, "mode"@, redact) + arg_pair(
        args,
        "--mcp-port"@,
        "mcpPort"@,
        redact,
    ) + arg_pair(args, "--mcp-config"@, "mcpConfig"@, redact);
    match arg_str(args, "clientMode"@) {
        Some(m) => if m == "mcp-va"@ {
            seq!["mcp"@, "va"@] + mcp_tail
        } else if m == "mcp"@ {
            seq!["mcp"@] + mcp_tail
        } else {
            seq![m]
        },
        None => seq![],
    }
}

/// Arguments of the `config-init` operation.
pub open spec fn config_init_args(a: Seq<(String, JsonValue)>, r: bool) -> Seq<Seq<char>> {
    seq!["config"@, "init"@] + arg_pair(a, "--output"@, "config"@, r) + arg_pair(a, "--connection"@, "connection"@, r)
        + arg_pair(a, "--format"@, "format"@, r) + arg_pair(a, "--builder"@, "builder"@, r)
}

fn config_init_argv(args: &JsonObject, redact: bool) -> (v: Vec<String>)
    ensures
        views(v@) == config_init_args(args.entries@, redact),
{
    let mut v: Vec<String> = Vec::new();
    assert(views(v@) =~= Seq::<Seq<char>>::empty());
    push_words(&mut v, "config", "init");
    append_arg(&mut v, "--output", args, "config", redact);
    append_arg(&mut v, "--connection", args, "connection", redact);
    append_arg(&mut v, "--format", args, "format", redact);
    append_arg(&mut v, "--builder", args, "builder", redact);
    assert(views(v@) =~= config_init_args(args.entries@, redact));
    v
}

/// Arguments of the `init` operation.
pub open spec fn init_args(a: Seq<(String, JsonValue)>, r: bool) -> Seq<Seq<char>> {
    seq!["init"@]
}

fn init_argv(args: &JsonObject, redact: bool) -> (v: Vec<String>)
    ensures
        views(v@) == init_args(args.entries@, redact),
{
    let mut v: Vec<String> = Vec::new();
    assert(views(v@) =~= Seq::<Seq<char>>::empty());
    push_word(&mut v, "init");
    assert(views(v@) =~= init_args(args.entries@, redact));
    v
}

/// Arguments of the `build` operation.
pub open spec fn build_args(a: Seq<(String, JsonValue)>, r: bool) -> Seq<Seq<char>> {
    seq!["build"@] + bool_flag(a, "--full-rebuild"@, "fullRebuild"@) + arg_pair(a, "--source-set"@, "sourceSet"@, r)
        + arg_pair(a, "--extension"@, "extension"@, r)
}

fn build_argv(args: &JsonObject, redact: bool) -> (v: Vec<String>)
    ensures
        views(v@) == build_args(args.entries@, redact),
{
    let mut v: Vec<String> = Vec::new();
    assert(views(v@) =~= Seq::<Seq<char>>::empty());
    push_word(&mut v, "build");
    append_bool_flag(&mut v, "--full-rebuild", args, "fullRebuild");
    append_arg(&mut v, "--source-set", args, "sourceSet", redact);
    append_arg(&mut v, "--extension", args, "extension", redact);
    assert(views(v@) =~= build_args(args.entries@, redact));
    v
}

/// Arguments of the `dump` operation.
pub open spec fn dump_args(a: Seq<(String, JsonValue)>, r: bool) -> Seq<Seq<char>> {
    seq!["dump"@] + arg_pair(a, "--mode"@, "mode"@, r) + arg_pair(a, "--object"@, "object"@, r)
        + arg_pair(a, "--source-set"@, "sourceSet"@, r) + arg_pair(a, "--extension"@, "extension"@, r)
}

fn dump_argv(args: &JsonObject, redact: bool) -> (v: Vec<String>)
    ensures
        views(v@) == dump_args(args.entries@, redact),
{
    let mut v: Vec<String> = Vec::new();
    assert(views(v@) =~= Seq::<Seq<char>>::empty());
    push_word(&mut v, "dump");
    append_arg(&mut v, "--mode", args, "mode", redact);
    append_arg(&mut v, "--object", args, "object", redact);
    append_arg(&mut v, "--source-set", args, "sourceSet", redact);
    append_arg(&mut v, "--extension", args, "extension", redact);
    assert(views(v@) =~= dump_args(args.entries@, redact));
    v
}

/// Arguments of the `convert` operation.
pub open spec fn convert_args(a: Seq<(String, JsonValue)>, r: bool) -> Seq<Seq<char>> {
    seq!["convert"@] + arg_pair(a, "--source-set"@, "sourceSet"@, r) + arg_pair(a, "--output"@, "output"@, r)
        + arg_pair(a, "--path"@, "path"@, r) + arg_pair(a, "--format"@, "format"@, r)
        + arg_pair(a, "--extension"@, "extension"@, r)
}

fn convert_argv(args: &JsonObject, redact: bool) -> (v: Vec<String>)
    ensures
        views(v@) == convert_args(args.entries@, redact),
{
    let mut v: Vec<String> = Vec::new();
    assert(views(v@) =~= Seq::<Seq<char>>::empty());
    push_word(&mut v, "convert");
    append_arg(&mut v, "--source-set", args, "sourceSet", redact);
    append_arg(&mut v, "--output", args, "output", redact);
    append_arg(&mut v, "--path", args, "path", redact);
    append_arg(&mut v, "--format", args, "format", redact);
    append_arg(&mut v, "--extension", args, "extension", redact);
    assert(views(v@) =~= convert_args(args.entries@, redact));
    v
}

/// Arguments of the `make` operation.
pub open spec fn make_args(a: Seq<(String, JsonValue)>, r: bool) -> Seq<Seq<char>> {
    seq!["make"@] + arg_pair(a, "--output"@, "output"@, r) + arg_pair(a, "--source-set"@, "sourceSet"@, r)
        + arg_pair(a, "--extension"@, "extension"@, r)
}

fn make_argv(args: &JsonObject, redact: bool) -> (v: Vec<String>)
    ensures
        views(v@) == make_args(args.entries@, redact),
{
    let mut v: Vec<String> = Vec::new();
    assert(views(v@) =~= Seq::<Seq<char>>::empty());
    push_word(&mut v, "make");
    append_arg(&mut v, "--output", args, "output", redact);
    append_arg(&mut v, "--source-set", args, "sourceSet", redact);
    append_arg(&mut v, "--extension", args, "extension", redact);
    assert(views(v@) =~= make_args(args.entries@, redact));
    v
}

/// Arguments of the `load` operation.
pub open spec fn load_args(a: Seq<(String, JsonValue)>, r: bool) -> Seq<Seq<char>> {
    seq!["load"@] + arg_pair(a, "--path"@, "path"@, r) + arg_pair(a, "--mode"@, "mode"@, r)
        + arg_pair(a, "--settings"@, "settings"@, r) + arg_pair(a, "--extension"@, "extension"@, r)
}

fn load_argv(args: &JsonObject, redact: bool) -> (v: Vec<String>)
    ensures
        views(v@) == load_args(args.entries@, redact),
{
    let mut v: Vec<String> = Vec::new();
    assert(views(v@) =~= Seq::<Seq<char>>::empty());
    push_word(&mut v, "load");
    append_arg(&mut v, "--path", args, "path", redact);
    append_arg(&mut v, "--mode", args, "mode", redact);
    append_arg(&mut v, "--settings", args, "settings", redact);
    append_arg(&mut v, "--extension", args, "extension", redact);
    assert(views(v@) =~= load_args(args.entries@, redact));
    v
}

/// Arguments of the `syntax` operation.
pub open spec fn syntax_args(a: Seq<(String, JsonValue)>, r: bool) -> Seq<Seq<char>> {
    seq!["syntax"@] + arg_value(a, "mode"@, r) + bool_flag(a, "--server"@, "server"@)
        + bool_flag(a, "--thin-client"@, "thinClient"@)
}

fn syntax_argv(args: &JsonObject, redact: bool) -> (v: Vec<String>)
    ensures
        views(v@) == syntax_args(args.entries@, redact),
{
    let mut v: Vec<String> = Vec::new();
    assert(views(v@) =~= Seq::<Seq<char>>::empty());
    push_word(&mut v, "syntax");
    append_value(&mut v, args, "mode", redact);
    append_bool_flag(&mut v, "--server", args, "server");
    append_bool_flag(&mut v, "--thin-client", args, "thinClient");
    assert(views(v@) =~= syntax_args(args.entries@, redact));
    v
}

/// Arguments of the `test` operation.
pub open spec fn test_args(a: Seq<(String, JsonValue)>, r: bool) -> Seq<Seq<char>> {
    seq!["test"@] + arg_value(a, "testRunner"@, r) + bool_flag(a, "--full"@, "fullRebuild"@)
        + arg_value(a, "testScope"@, r) + arg_value(a, "module"@, r) + arg_pair(a, "--source-set"@, "sourceSet"@, r)
        + arg_pair(a, "--extension"@, "extension"@, r)
}

fn test_argv(args: &JsonObject, redact: bool) -> (v: Vec<String>)
    ensures
        views(v@) == test_args(args.entries@, redact),
{
    let mut v: Vec<String> = Vec::new();
    assert(views(v@) =~= Seq::<Seq<char>>::empty());
    push_word(&mut v, "test");
    append_value(&mut v, args, "testRunner", redact);
    append_bool_flag(&mut v, "--full", args, "fullRebuild");
    append_value(&mut v, args, "testScope", redact);
    append_value(&mut v, args, "module", redact);
    append_arg(&mut v, "--source-set", args, "sourceSet", redact);
    append_arg(&mut v, "--extension", args, "extension", redact);
    assert(views(v@) =~= test_args(args.entries@, redact));
    v
}

/// Arguments of the `launch` operation.
pub open spec fn launch_args_full(a: Seq<(String, JsonValue)>, r: bool) -> Seq<Seq<char>> {
    seq!["launch"@] + launch_args(a, r)
}

/// Arguments of the `extensions` operation.
pub open spec fn extensions_args(a: Seq<(String, JsonValue)>, r: bool) -> Seq<Seq<char>> {
    seq!["extensions"@] + arg_pair(a, "--name"@, "sourceSet"@, r) + arg_pair(a, "--extension"@, "extension"@, r)
}

fn extensions_argv(args: &JsonObject, redact: bool) -> (v: Vec<String>)
    ensures
        views(v@) == extensions_args(args.entries@, redact),
{
    let mut v: Vec<String> = Vec::new();
    assert(views(v@) =~= Seq::<Seq<char>>::empty());
    push_word(&mut v, "extensions");
    append_arg(&mut v, "--name", args, "sourceSet", redact);
    append_arg(&mut v, "--extension", args, "extension", redact);
    assert(views(v@) =~= extensions_args(args.entries@, redact));
    v
}

fn launch_argv(args: &JsonObject, redact: bool) -> (v: Vec<String>)
    ensures
        views(v@) == launch_args_full(args.entries@, redact),
{
    let mut v: Vec<String> = Vec::new();
    assert(views(v@) =~= Seq::<Seq<char>>::empty());
    push_word(&mut v, "launch");
    let ghost before = views(v@);
    match get_str(args, "clientMode") {
        Some(mode) => {
            if str_eq(mode, "mcp-va") {
                push_words(&mut v, "mcp", "va");
                append_arg(&mut v, "--mode", args, "mode", redact);
                append_arg(&mut v, "--mcp-port", args, "mcpPort", redact);
                append_arg(&mut v, "--mcp-config", args, "mcpConfig", redact);
            } else if str_eq(mode, "mcp") {
                push_word(&mut v, "mcp");
                append_arg(&mut v, "--mode", args, "mode", redact);
                append_arg(&mut v, "--mcp-port", args, "mcpPort", redact);
                append_arg(&mut v, "--mcp-config", args, "mcpConfig", redact);
            } else {
                push_word(&mut v, mode);
            }
        },
        None => {},
    }
    assert(views(v@) =~= before + launch_args(args.entries@, redact));
    v
}

/// The v8-runner words for a runtime operation, after the global arguments;
/// `None` for an operation that v8-runner does not offer.
pub open spec fn runtime_op_args(a: Seq<(String, JsonValue)>, op: Seq<char>, r: bool) -> Option<Seq<Seq<char>>> {
    if op == "config-init"@ {
        Some(config_init_args(a, r))
    } else if op == "init"@ {
        Some(init_args(a, r))
    } else if op == "build"@ {
        Some(build_args(a, r))
    } else if op == "dump"@ {
        Some(dump_args(a, r))
    } else if op == "convert"@ {
        Some(convert_args(a, r))
    } else if op == "make"@ {
        Some(make_args(a, r))
    } else if op == "load"@ {
        Some(load_args(a, r))
    } else if op == "syntax"@ {
        Some(syntax_args(a, r))
    } else if op == "test"@ {
        Some(test_args(a, r))
    } else if op == "launch"@ {
        Some(launch_args_full(a, r))
    } else if op == "extensions"@ {
        Some(extensions_args(a, r))
    } else {
        None
    }
}

fn runtime_op_argv(operation: &str, args: &JsonObject, redact: bool) -> (v: Option<Vec<String>>)
    ensures
        match v {
            Some(v) => runtime_op_args(args.entries@, operation@, redact) == Some(views(v@)),
            None => runtime_op_args(args.entries@, operation@, redact) is None,
        },
{
    if str_eq(operation, "config-init") {
        Some(config_init_argv(args, redact))
    } else if str_eq(operation, "init") {
        Some(init_argv(args, redact))
    } else if str_eq(operation, "build") {
        Some(build_argv(args, redact))
    } else if str_eq(operation, "dump") {
        Some(dump_argv(args, redact))
    } else if str_eq(operation, "convert") {
        Some(convert_argv(args, redact))
    } else if str_eq(operation, "make") {
        Some(make_argv(args, redact))
    } else if str_eq(operation, "load") {
        Some(load_argv(args, redact))
    } else if str_eq(operation, "syntax") {
        Some(syntax_argv(args, redact))
    } else if str_eq(operation, "test") {
        Some(test_argv(args, redact))
    } else if str_eq(operation, "launch") {
        Some(launch_argv(args, redact))
    } else if str_eq(operation, "extensions") {
        Some(extensions_argv(args, redact))
    } else {
        None
    }
}

pub open spec fn raw_args_error() -> Seq<char> {
    "raw args are not accepted by internal adapters; use typed tool arguments"@
}

pub open spec fn missing_operation_error() -> Seq<char> {
    "unica.runtime.execute requires string `operation` argument"@
}

/// The v8-runner argument vector for `unica.runtime.execute`, or the error
/// that rejects the arguments.
pub open spec fn runtime_args_spec(args: Seq<(String, JsonValue)>, redact: bool) -> Result<Seq<Seq<char>>, Seq<char>> {
    if obj_has(args, "args"@) {
        Err(raw_args_error())
    } else {
        match arg_str(args, "operation"@) {
            None => Err(missing_operation_error()),
            Some(op) => match runtime_op_args(args, op, redact) {
                Some(tail) => Ok(runtime_global_args(args, op, redact) + tail),
                None => Err("unknown runtime operation: "@ + op),
            },
        }
    }
}

pub open spec fn argv_result(r: Result<Vec<String>, String>) -> Result<Seq<Seq<char>>, Seq<char>> {
    match r {
        Ok(v) => Ok(views(v@)),
        Err(e) => Err(e@),
    }
}

fn push_words(result: &mut Vec<String>, a: &str, b: &str)
    ensures
        views(final(result)@) == views(old(result)@) + seq![a@, b@],
{
    let ghost before = views(result@);
    push_arg(result, a);
    push_arg(result, b);
    assert(views(result@) =~= before + seq![a@, b@]);
}

fn push_word(result: &mut Vec<String>, a: &str)
    ensures
        views(final(result)@) == views(old(result)@) + seq![a@],
{
    let ghost before = views(result@);
    push_arg(result, a);
    assert(views(result@) =~= before + seq![a@]);
}

pub fn runtime_args(args: &JsonObject, redact: bool) -> (r: Result<Vec<String>, String>)
    ensures
        argv_result(r) == runtime_args_spec(args.entries@, redact),
{
    if args.contains_key("args") {
        return Err(
            "raw args are not accepted by internal adapters; use typed tool arguments".to_string(),
        );
    }
    let operation = match get_str(args, "operation") {
        Some(op) => op,
        None => {
            return Err("unica.runtime.execute requires string `operation` argument".to_string());
        },
    };
    match runtime_op_argv(operation, args, redact) {
        Some(tail) => {
            let mut result: Vec<String> = Vec::new();
            append_runtime_global_args(&mut result, operation, args, redact);
            let ghost g = views(result@);
            let mut i: usize = 0;
            while i < tail.len()
                invariant
                    i <= tail@.len(),
                    views(result@) == g + views(tail@).take(i as int),
                decreases tail@.len() - i,
            {
                push_arg(&mut result, tail[i].as_str());
                proof {
                    assert(views(tail@).take(i + 1) =~= views(tail@).take(i as int).push(tail@[i as int]@));
                }
                i += 1;
            }
            assert(views(tail@).take(tail@.len() as int) =~= views(tail@));
            assert(g =~= Seq::<Seq<char>>::empty() + runtime_global_args(args.entries@, operation@, redact));
            Ok(result)
        },
        None => Err(concat("unknown runtime operation: ", operation)),
    }
}

// ---------------------------------------------------------------------------
// Generic command-line adapter arguments
// ---------------------------------------------------------------------------

/// Keys that configure the call itself and never become flags.
pub open spec fn is_control_key(key: Seq<char>) -> bool {
    key == "dryRun"@ || key == "cwd"@ || key == "confirm"@
}

/// `flag item` for each item of an array argument.
pub open spec fn repeated_flag(flag: Seq<char>, items: Seq<JsonValue>) -> Seq<Seq<char>>
    decreases items.len(),
{
    if items.len() == 0 {
        seq![]
    } else {
        repeated_flag(flag, items.drop_last()) + seq![flag, cli_text(items.last())]
    }
}

/// The flags that one argument contributes.
pub open spec fn cli_entry(key: Seq<char>, value: JsonValue, redact: bool) -> Seq<Seq<char>> {
    let flag = "--"@ + kebab_seq(key);
    if is_control_key(key) {
        seq![]
    } else {
        match value {
            JsonValue::Bool(true) => seq![flag],
            JsonValue::Bool(false) => seq![],
            JsonValue::Null => seq![],
            JsonValue::Array(items) => repeated_flag(flag, items@),
            _ => seq![
                flag,
                if redact && is_secret_key_spec(key) {
                    redacted()
                } else {
                    cli_text(value)
                },
            ],
        }
    }
}

/// The flags of all arguments, in the order of the members (the order of
/// their keys, for an object built by `JsonObject::insert`).
pub open spec fn cli_argv(entries: Seq<(String, JsonValue)>, redact: bool) -> Seq<Seq<char>>
    decreases entries.len(),
{
    if entries.len() == 0 {
        seq![]
    } else {
        cli_argv(entries.drop_last(), redact) + cli_entry(entries.last().0@, entries.last().1, redact)
    }
}

pub open spec fn cli_args_spec(args: Seq<(String, JsonValue)>, redact: bool) -> Result<Seq<Seq<char>>, Seq<char>> {
    if obj_has(args, "args"@) {
        Err(raw_args_error())
    } else {
        Ok(cli_argv(args, redact))
    }
}

fn is_control(key: &str) -> (r: bool)
    ensures
        r == is_control_key(key@),
{
    str_eq(key, "dryRun") || str_eq(key, "cwd") || str_eq(key, "confirm")
}

fn append_cli_entry(result: &mut Vec<String>, key: &str, value: &JsonValue, redact: bool)
    ensures
        views(final(result)@) == views(old(result)@) + cli_entry(key@, *value, redact),
{
    let ghost before = views(result@);
    if is_control(key) {
        assert(views(result@) =~= before + Seq::<Seq<char>>::empty());
        return;
    }
    let flag = concat("--", kebab_case(key).as_str());
    match value {
        JsonValue::Bool(true) => {
            push_word(result, flag.as_str());
        },
        JsonValue::Bool(false) | JsonValue::Null => {
            assert(views(result@) =~= before + Seq::<Seq<char>>::empty());
        },
        JsonValue::Array(items) => {
            let mut i: usize = 0;
            assert(items@.take(0) =~= Seq::<JsonValue>::empty());
            while i < items.len()
                invariant
                    i <= items@.len(),
                    views(result@) == before + repeated_flag(flag@, items@.take(i as int)),
                decreases items@.len() - i,
            {
                let text = value_to_cli_string(&items[i]);
                push_words(result, flag.as_str(), text.as_str());
                proof {
                    assert(items@.take(i + 1).drop_last() =~= items@.take(i as int));
                    assert(views(result@) =~= before + repeated_flag(flag@, items@.take(i + 1)));
                }
                i += 1;
            }
            assert(items@.take(items@.len() as int) =~= items@);
        },
        _ => {
            let shown = if redact && is_secret_key(key) {
                "<redacted>".to_string()
            } else {
                value_to_cli_string(value)
            };
            push_words(result, flag.as_str(), shown.as_str());
        },
    }
}

pub fn cli_args(args: &JsonObject, redact: bool) -> (r: Result<Vec<String>, String>)
    ensures
        argv_result(r) == cli_args_spec(args.entries@, redact),
{
    if args.contains_key("args") {
        return Err(
            "raw args are not accepted by internal adapters; use typed tool arguments".to_string(),
        );
    }
    let mut result: Vec<String> = Vec::new();
    let mut i: usize = 0;
    while i < args.entries.len()
        invariant
            i <= args.entries@.len(),
            views(result@) == cli_argv(args.entries@.take(i as int), redact),
        decreases args.entries@.len() - i,
    {
        let entry = &args.entries[i];
        append_cli_entry(&mut result, entry.0.as_str(), &entry.1, redact);
        proof {
            assert(args.entries@.take(i + 1).drop_last() =~= args.entries@.take(i as int));
        }
        i += 1;
    }
    assert(args.entries@.take(args.entries@.len() as int) =~= args.entries@);
    Ok(result)
}

/// A raw argument vector is never passed on: whatever else the arguments
/// hold, both internal adapters refuse a call that has `args`, in what they
/// report and in what they would run.
pub proof fn lemma_raw_args_never_accepted(args: Seq<(String, JsonValue)>, redact: bool)
    requires
        obj_has(args, "args"@),
    ensures
        cli_args_spec(args, redact) == Err::<Seq<Seq<char>>, Seq<char>>(raw_args_error()),
        runtime_args_spec(args, redact) == Err::<Seq<Seq<char>>, Seq<char>>(raw_args_error()),
{
}

/// Redaction only changes what is reported: the reported and the executed
/// argument vectors have the same length, and they differ only where the
/// reported one shows `<redacted>`.
pub proof fn lemma_cli_redaction_only_masks(entries: Seq<(String, JsonValue)>)
    ensures
        cli_argv(entries, true).len() == cli_argv(entries, false).len(),
        forall|i: int|
            0 <= i < cli_argv(entries, true).len() && cli_argv(entries, true)[i] != cli_argv(
                entries,
                false,
            )[i] ==> cli_argv(entries, true)[i] == redacted(),
    decreases entries.len(),
{
    if entries.len() > 0 {
        lemma_cli_redaction_only_masks(entries.drop_last());
        let a = cli_argv(entries.drop_last(), true);
        let b = cli_argv(entries.drop_last(), false);
        let x = cli_entry(entries.last().0@, entries.last().1, true);
        let y = cli_entry(entries.last().0@, entries.last().1, false);
        assert(x.len() == y.len());
        assert forall|i: int| 0 <= i < (a + x).len() && (a + x)[i] != (b + y)[i] implies (a
            + x)[i] == redacted() by {
            if i < a.len() {
                assert((a + x)[i] == a[i]);
                assert((b + y)[i] == b[i]);
            } else {
                assert((a + x)[i] == x[i - a.len()]);
                assert((b + y)[i] == y[i - b.len()]);
            }
        }
    }
}

/// The flags of the first `n` arguments begin the flags of all of them.
proof fn lemma_cli_argv_prefix(entries: Seq<(String, JsonValue)>, n: int, redact: bool)
    requires
        0 <= n <= entries.len(),
    ensures
        cli_argv(entries.take(n), redact).len() <= cli_argv(entries, redact).len(),
        forall|j: int|
            0 <= j < cli_argv(entries.take(n), redact).len() ==> #[trigger] cli_argv(
                entries,
                redact,
            )[j] == cli_argv(entries.take(n), redact)[j],
    decreases entries.len() - n,
{
    if n == entries.len() {
        assert(entries.take(n) =~= entries);
    } else {
        let d = entries.drop_last();
        assert(d.take(n) =~= entries.take(n));
        lemma_cli_argv_prefix(d, n, redact);
        let a = cli_argv(d, redact);
        let x = cli_entry(entries.last().0@, entries.last().1, redact);
        assert forall|j: int| 0 <= j < cli_argv(entries.take(n), redact).len() implies #[trigger] cli_argv(
            entries,
            redact,
        )[j] == cli_argv(entries.take(n), redact)[j] by {
            assert((a + x)[j] == a[j]);
        }
    }
}

/// None of the control keys names a secret.
proof fn lemma_control_key_not_secret(key: Seq<char>)
    requires
        is_control_key(key),
    ensures
        !is_secret_key_spec(key),
{
    reveal_strlit("dryRun");
    reveal_strlit("cwd");
    reveal_strlit("confirm");
    reveal_strlit("password");
    reveal_strlit("token");
    reveal_strlit("secret");
    let k = lower_seq(key);
    assert(k.len() == key.len() && key.len() <= 7);
    assert forall|i: int| 0 <= i < k.len() implies #[trigger] k[i] != 't' && k[i] != 's' by {
        assert(k[i] == ascii_lower(key[i]));
    }
    assert forall|i: int| !occurs_at(k, "password"@, i) by {}
    assert forall|i: int| !occurs_at(k, "token"@, i) by {
        if occurs_at(k, "token"@, i) {
            assert(k.subrange(i, i + 5)[0] == k[i]);
        }
    }
    assert forall|i: int| !occurs_at(k, "secret"@, i) by {
        if occurs_at(k, "secret"@, i) {
            assert(k.subrange(i, i + 6)[0] == k[i]);
        }
    }
}

/// A secret is never shown: where an argument whose key names a secret holds
/// a string or a number, the argument vector that `cli_args` reports has the
/// flag `--<key in kebab case>` followed by `<redacted>`, at the place where
/// the executed one has the flag followed by the value's text.  (An array
/// under such a key is passed item by item and not redacted, and a boolean
/// has no value to hide.)
pub proof fn lemma_cli_secret_redacted(entries: Seq<(String, JsonValue)>, e: int)
    requires
        0 <= e < entries.len(),
        is_secret_key_spec(entries[e].0@),
        !(entries[e].1 is Null || entries[e].1 is Bool || entries[e].1 is Array),
    ensures
        ({
            let p = cli_argv(entries.take(e), true).len() as int;
            let shown = cli_argv(entries, true);
            let run = cli_argv(entries, false);
            &&& cli_argv(entries.take(e), false).len() == p
            &&& p + 1 < shown.len()
            &&& p + 1 < run.len()
            &&& shown[p] == "--"@ + kebab_seq(entries[e].0@)
            &&& run[p] == shown[p]
            &&& shown[p + 1] == redacted()
            &&& run[p + 1] == cli_text(entries[e].1)
            &&& !obj_has(entries, "args"@) ==> cli_args_spec(entries, true) == Ok::<
                Seq<Seq<char>>,
                Seq<char>,
            >(shown) && cli_args_spec(entries, false) == Ok::<Seq<Seq<char>>, Seq<char>>(run)
        }),
{
    let key = entries[e].0@;
    if is_control_key(key) {
        lemma_control_key_not_secret(key);
    }
    lemma_cli_redaction_only_masks(entries.take(e));
    let t = entries.take(e + 1);
    assert(t.drop_last() =~= entries.take(e));
    assert(t.last() == entries[e]);
    lemma_cli_argv_prefix(entries, e + 1, true);
    lemma_cli_argv_prefix(entries, e + 1, false);
    let p = cli_argv(entries.take(e), true).len() as int;
    let a = cli_argv(entries.take(e), true);
    let b = cli_argv(entries.take(e), false);
    let x = cli_entry(key, entries[e].1, true);
    let y = cli_entry(key, entries[e].1, false);
    assert(cli_argv(t, true) == a + x);
    assert(cli_argv(t, false) == b + y);
    assert((a + x)[p] == x[0]);
    assert((a + x)[p + 1] == x[1]);
    assert((b + y)[p] == y[0]);
    assert((b + y)[p + 1] == y[1]);
    assert(cli_argv(entries, true)[p] == (a + x)[p]);
    assert(cli_argv(entries, true)[p + 1] == (a + x)[p + 1]);
    assert(cli_argv(entries, false)[p] == (b + y)[p]);
    assert(cli_argv(entries, false)[p + 1] == (b + y)[p + 1]);
}

// ---------------------------------------------------------------------------
// Legacy script arguments

// ---------------------------------------------------------------------------

pub open spec fn is_script_control_key(key: Seq<char>) -> bool {
    is_control_key(key) || key == "args"@
}

pub open spec fn item_texts(items: Seq<JsonValue>) -> Seq<Seq<char>> {
    items.map_values(|v: JsonValue| cli_text(v))
}

/// The arguments that one tool argument contributes to a legacy script:
/// `-Key value`, arrays joined with ` ;; `.
pub open spec fn script_entry(key: Seq<char>, value: JsonValue) -> Seq<Seq<char>> {
    let flag = "-"@ + pascal_seq(key);
    if is_script_control_key(key) {
        seq![]
    } else {
        match value {
            JsonValue::Bool(true) => seq![flag],
            JsonValue::Bool(false) => seq![],
            JsonValue::Null => seq![],
            JsonValue::Array(items) => seq![flag, join_seq(item_texts(items@), " ;; "@)],
            _ => seq![flag, cli_text(value)],
        }
    }
}

pub open spec fn script_argv(entries: Seq<(String, JsonValue)>) -> Seq<Seq<char>>
    decreases entries.len(),
{
    if entries.len() == 0 {
        seq![]
    } else {
        script_argv(entries.drop_last()) + script_entry(entries.last().0@, entries.last().1)
    }
}

fn item_strings(items: &Vec<JsonValue>) -> (r: Vec<String>)
    ensures
        views(r@) == item_texts(items@),
{
    let mut r: Vec<String> = Vec::new();
    let mut i: usize = 0;
    while i < items.len()
        invariant
            i <= items@.len(),
            views(r@) == item_texts(items@.take(i as int)),
        decreases items@.len() - i,
    {
        let t = value_to_cli_string(&items[i]);
        push_arg(&mut r, t.as_str());
        proof {
            assert(item_texts(items@.take(i + 1)) =~= item_texts(items@.take(i as int)).push(
                cli_text(items@[i as int]),
            ));
        }
        i += 1;
    }
    assert(items@.take(items@.len() as int) =~= items@);
    r
}

pub fn script_args(args: &JsonObject) -> (r: Vec<String>)
    ensures
        views(r@) == script_argv(args.entries@),
{
    let mut result: Vec<String> = Vec::new();
    let mut i: usize = 0;
    while i < args.entries.len()
        invariant
            i <= args.entries@.len(),
            views(result@) == script_argv(args.entries@.take(i as int)),
        decreases args.entries@.len() - i,
    {
        let key = args.entries[i].0.as_str();
        let value = &args.entries[i].1;
        let ghost before = views(result@);
        if !(is_control(key) || str_eq(key, "args")) {
            let flag = concat("-", pascal_case_key(key).as_str());
            match value {
                JsonValue::Bool(true) => {
                    push_word(&mut result, flag.as_str());
                },
                JsonValue::Bool(false) | JsonValue::Null => {},
                JsonValue::Array(items) => {
                    let texts = item_strings(items);
                    let joined = join(&texts, " ;; ");
                    push_words(&mut result, flag.as_str(), joined.as_str());
                },
                _ => {
                    let text = value_to_cli_string(value);
                    push_words(&mut result, flag.as_str(), text.as_str());
                },
            }
        }
        proof {
            assert(views(result@) =~= before + script_entry(key@, *value));
            assert(args.entries@.take(i + 1).drop_last() =~= args.entries@.take(i as int));
        }
        i += 1;
    }
    assert(args.entries@.take(args.entries@.len() as int) =~= args.entries@);
    result
}

// ---------------------------------------------------------------------------
// Laws of the argument vectors
// ---------------------------------------------------------------------------

/// The flags of two runs of arguments, one after the other, are the flags of
/// the first followed by those of the second.
proof fn lemma_cli_argv_concat(a: Seq<(String, JsonValue)>, b: Seq<(String, JsonValue)>, redact: bool)
    ensures
        cli_argv(a + b, redact) == cli_argv(a, redact) + cli_argv(b, redact),
    decreases b.len(),
{
    if b.len() == 0 {
        assert(a + b =~= a);
        assert(cli_argv(a, redact) + cli_argv(b, redact) =~= cli_argv(a, redact));
    } else {
        lemma_cli_argv_concat(a, b.drop_last(), redact);
        assert((a + b).drop_last() =~= a + b.drop_last());
        assert((a + b).last() == b.last());
        let x = cli_entry(b.last().0@, b.last().1, redact);
        assert(cli_argv(a, redact) + cli_argv(b.drop_last(), redact) + x =~= cli_argv(a, redact) + (
        cli_argv(b.drop_last(), redact) + x));
    }
}

/// The same for the arguments of a legacy script.
proof fn lemma_script_argv_concat(a: Seq<(String, JsonValue)>, b: Seq<(String, JsonValue)>)
    ensures
        script_argv(a + b) == script_argv(a) + script_argv(b),
    decreases b.len(),
{
    if b.len() == 0 {
        assert(a + b =~= a);
        assert(script_argv(a) + script_argv(b) =~= script_argv(a));
    } else {
        lemma_script_argv_concat(a, b.drop_last());
        assert((a + b).drop_last() =~= a + b.drop_last());
        assert((a + b).last() == b.last());
        let x = script_entry(b.last().0@, b.last().1);
        assert(script_argv(a) + script_argv(b.drop_last()) + x =~= script_argv(a) + (script_argv(
            b.drop_last(),
        ) + x));
    }
}

/// The words of one argument alone.
proof fn lemma_one_entry(e: (String, JsonValue), redact: bool)
    ensures
        cli_argv(seq![e], redact) == cli_entry(e.0@, e.1, redact),
        script_argv(seq![e]) == script_entry(e.0@, e.1),
{
    let s = seq![e];
    assert(s.drop_last() =~= Seq::<(String, JsonValue)>::empty());
    assert(cli_argv(s.drop_last(), redact) + cli_entry(e.0@, e.1, redact) =~= cli_entry(e.0@, e.1, redact));
    assert(script_argv(s.drop_last()) + script_entry(e.0@, e.1) =~= script_entry(e.0@, e.1));
}

/// The flags of the arguments around one argument, and of that argument.
proof fn lemma_cli_split(entries: Seq<(String, JsonValue)>, e: int, redact: bool)
    requires
        0 <= e < entries.len(),
    ensures
        cli_argv(entries, redact) == cli_argv(entries.take(e), redact) + cli_entry(
            entries[e].0@,
            entries[e].1,
            redact,
        ) + cli_argv(entries.skip(e + 1), redact),
        cli_argv(entries.remove(e), redact) == cli_argv(entries.take(e), redact) + cli_argv(
            entries.skip(e + 1),
            redact,
        ),
{
    let a = entries.take(e);
    let m = seq![entries[e]];
    let c = entries.skip(e + 1);
    assert(entries =~= a + m + c);
    assert(entries.remove(e) =~= a + c);
    lemma_cli_argv_concat(a + m, c, redact);
    lemma_cli_argv_concat(a, m, redact);
    lemma_cli_argv_concat(a, c, redact);
    lemma_one_entry(entries[e], redact);
}

/// The words of the arguments around one script argument, and of that argument.
proof fn lemma_script_split(entries: Seq<(String, JsonValue)>, e: int)
    requires
        0 <= e < entries.len(),
    ensures
        script_argv(entries) == script_argv(entries.take(e)) + script_entry(entries[e].0@, entries[e].1)
            + script_argv(entries.skip(e + 1)),
        script_argv(entries.remove(e)) == script_argv(entries.take(e)) + script_argv(entries.skip(e + 1)),
{
    let a = entries.take(e);
    let m = seq![entries[e]];
    let c = entries.skip(e + 1);
    assert(entries =~= a + m + c);
    assert(entries.remove(e) =~= a + c);
    lemma_script_argv_concat(a + m, c);
    lemma_script_argv_concat(a, m);
    lemma_script_argv_concat(a, c);
    lemma_one_entry(entries[e], false);
}

/// What passes nothing to a command-line tool: a control argument (`dryRun`,
/// `cwd`, `confirm`), a `null`, and a switch that is off.  Leaving such an
/// argument out leaves the argument vector as it was.
pub proof fn lemma_cli_silent_arguments(entries: Seq<(String, JsonValue)>, e: int, redact: bool)
    requires
        0 <= e < entries.len(),
        is_control_key(entries[e].0@) || entries[e].1 is Null || entries[e].1 == JsonValue::Bool(false),
    ensures
        cli_argv(entries, redact) == cli_argv(entries.remove(e), redact),
{
    lemma_cli_split(entries, e, redact);
    let x = cli_argv(entries.take(e), redact);
    let y = cli_argv(entries.skip(e + 1), redact);
    assert(x + Seq::<Seq<char>>::empty() + y =~= x + y);
}

/// A switch that is on is passed as its flag alone, and a string or a number
/// as its flag followed by its text (`<redacted>` in the report when its key
/// names a secret), in its place among the other arguments.
pub proof fn lemma_cli_valued_arguments(entries: Seq<(String, JsonValue)>, e: int, redact: bool)
    requires
        0 <= e < entries.len(),
        !is_control_key(entries[e].0@),
    ensures
        ({
            let before = cli_argv(entries.take(e), redact);
            let after = cli_argv(entries.skip(e + 1), redact);
            let flag = "--"@ + kebab_seq(entries[e].0@);
            &&& entries[e].1 == JsonValue::Bool(true) ==> cli_argv(entries, redact) == before + seq![flag]
                + after
            &&& (entries[e].1 is String || entries[e].1 is Number) ==> cli_argv(entries, redact)
                == before + seq![
                flag,
                if redact && is_secret_key_spec(entries[e].0@) {
                    "<redacted>"@
                } else {
                    cli_text(entries[e].1)
                },
            ] + after
        }),
{
    lemma_cli_split(entries, e, redact);
}

/// What passes nothing to a legacy script: a control argument (`dryRun`,
/// `cwd`, `confirm`, `args`), a `null`, and a switch that is off.
pub proof fn lemma_script_silent_arguments(entries: Seq<(String, JsonValue)>, e: int)
    requires
        0 <= e < entries.len(),
        is_script_control_key(entries[e].0@) || entries[e].1 is Null || entries[e].1 == JsonValue::Bool(false),
    ensures
        script_argv(entries) == script_argv(entries.remove(e)),
{
    lemma_script_split(entries, e);
    let x = script_argv(entries.take(e));
    let y = script_argv(entries.skip(e + 1));
    assert(x + Seq::<Seq<char>>::empty() + y =~= x + y);
}

/// A string or a number is passed to a script as `-<Key>` followed by its
/// text, in its place among the other arguments.
pub proof fn lemma_script_valued_arguments(entries: Seq<(String, JsonValue)>, e: int)
    requires
        0 <= e < entries.len(),
        !is_script_control_key(entries[e].0@),
        entries[e].1 is String || entries[e].1 is Number,
    ensures
        script_argv(entries) == script_argv(entries.take(e)) + seq![
            "-"@ + pascal_seq(entries[e].0@),
            cli_text(entries[e].1),
        ] + script_argv(entries.skip(e + 1)),
{
    lemma_script_split(entries, e);
}

/// Words `i` and `i + 1` of `argv` are `flag` and `value`.
pub open spec fn pair_at(argv: Seq<Seq<char>>, i: int, flag: Seq<char>, value: Seq<char>) -> bool {
    argv[i] == flag && argv[i + 1] == value
}

proof fn lemma_repeated_flag_shape(flag: Seq<char>, items: Seq<JsonValue>)
    ensures
        repeated_flag(flag, items).len() == 2 * items.len(),
        forall|j: int|
            0 <= j < items.len() ==> pair_at(repeated_flag(flag, items), 2 * j, flag, cli_text(#[trigger] items[j])),
    decreases items.len(),
{
    if items.len() > 0 {
        let d = items.drop_last();
        lemma_repeated_flag_shape(flag, d);
        let r = repeated_flag(flag, items);
        let rd = repeated_flag(flag, d);
        let t = cli_text(items.last());
        assert(r == rd + seq![flag, t]);
        assert forall|j: int| 0 <= j < items.len() implies pair_at(r, 2 * j, flag, cli_text(#[trigger] items[j])) by {
            if j < d.len() {
                assert(d[j] == items[j]);
                assert(pair_at(rd, 2 * j, flag, cli_text(d[j])));
                assert(r[2 * j] == rd[2 * j]);
                assert(r[2 * j + 1] == rd[2 * j + 1]);
            } else {
                assert(r[2 * j] == seq![flag, t][0]);
                assert(r[2 * j + 1] == seq![flag, t][1]);
            }
        }
    }
}

/// The members of an array argument.
pub open spec fn array_items(v: JsonValue) -> Seq<JsonValue> {
    match v {
        JsonValue::Array(items) => items@,
        _ => seq![],
    }
}

/// An array argument is passed item by item: in place of the argument the
/// argument vector holds, for each item in order, the flag `--<key in kebab
/// case>` followed by the item's text, and nothing else; the arguments before
/// and after it contribute what they would alone.
pub proof fn lemma_cli_array_repeats_flag(entries: Seq<(String, JsonValue)>, e: int, redact: bool)
    requires
        0 <= e < entries.len(),
        entries[e].1 is Array,
        !is_control_key(entries[e].0@),
    ensures
        ({
            let whole = cli_argv(entries, redact);
            let p = cli_argv(entries.take(e), redact).len() as int;
            let items = array_items(entries[e].1);
            let n = items.len() as int;
            &&& whole.len() == p + 2 * n + cli_argv(entries.skip(e + 1), redact).len()
            &&& whole.subrange(0, p) == cli_argv(entries.take(e), redact)
            &&& whole.subrange(p + 2 * n, whole.len() as int) == cli_argv(entries.skip(e + 1), redact)
            &&& forall|j: int|
                0 <= j < n ==> pair_at(whole, p + 2 * j, "--"@ + kebab_seq(entries[e].0@), cli_text(
                    #[trigger] items[j],
                ))
        }),
{
    let a = entries.take(e);
    let m = seq![entries[e]];
    let c = entries.skip(e + 1);
    assert(entries =~= a + m + c);
    lemma_cli_argv_concat(a + m, c, redact);
    lemma_cli_argv_concat(a, m, redact);
    lemma_one_entry(entries[e], redact);
    let flag = "--"@ + kebab_seq(entries[e].0@);
    let items = array_items(entries[e].1);
    let f = repeated_flag(flag, items);
    assert(cli_entry(entries[e].0@, entries[e].1, redact) == f);
    lemma_repeated_flag_shape(flag, items);
    let whole = cli_argv(entries, redact);
    let x = cli_argv(a, redact);
    let y = cli_argv(c, redact);
    assert(whole == x + f + y);
    let p = x.len() as int;
    assert(whole.subrange(0, p) =~= x);
    assert(whole.subrange(p + f.len(), whole.len() as int) =~= y);
    assert forall|j: int| 0 <= j < items.len() implies pair_at(whole, p + 2 * j, flag, cli_text(
        #[trigger] items[j],
    )) by {
        assert(pair_at(f, 2 * j, flag, cli_text(items[j])));
        assert(whole[p + 2 * j] == f[2 * j]);
        assert(whole[p + 2 * j + 1] == f[2 * j + 1]);
    }
}

/// A switch that is on is passed as `-<Key>` alone, in its place among the
/// other arguments.
pub proof fn lemma_script_true_switch_passes_its_name(entries: Seq<(String, JsonValue)>, e: int)
    requires
        0 <= e < entries.len(),
        entries[e].1 == JsonValue::Bool(true),
        !is_script_control_key(entries[e].0@),
    ensures
        script_argv(entries) == script_argv(entries.take(e)) + seq!["-"@ + pascal_seq(entries[e].0@)]
            + script_argv(entries.skip(e + 1)),
{
    let a = entries.take(e);
    let m = seq![entries[e]];
    let c = entries.skip(e + 1);
    assert(entries =~= a + m + c);
    lemma_script_argv_concat(a + m, c);
    lemma_script_argv_concat(a, m);
    lemma_one_entry(entries[e], false);
}

/// A key without a `t` or an `s` in it names no secret.
proof fn lemma_key_without_t_or_s_not_secret(key: Seq<char>)
    requires
        forall|i: int| 0 <= i < key.len() ==> #[trigger] key[i] != 't' && key[i] != 's' && key[i]
            != 'T' && key[i] != 'S',
    ensures
        !is_secret_key_spec(key),
{
    reveal_strlit("password");
    reveal_strlit("token");
    reveal_strlit("secret");
    let k = lower_seq(key);
    assert forall|i: int| 0 <= i < k.len() implies #[trigger] k[i] != 't' && k[i] != 's' by {
        assert(k[i] == ascii_lower(key[i]));
    }
    assert forall|i: int| !occurs_at(k, "password"@, i) by {
        if occurs_at(k, "password"@, i) {
            assert(k.subrange(i, i + 8)[2] == k[i + 2]);
        }
    }
    assert forall|i: int| !occurs_at(k, "token"@, i) by {
        if occurs_at(k, "token"@, i) {
            assert(k.subrange(i, i + 5)[0] == k[i]);
        }
    }
    assert forall|i: int| !occurs_at(k, "secret"@, i) by {
        if occurs_at(k, "secret"@, i) {
            assert(k.subrange(i, i + 6)[0] == k[i]);
        }
    }
}

proof fn lemma_config_not_secret()
    ensures
        !is_secret_key_spec("config"@),
        !is_secret_key_spec("workdir"@),
{
    reveal_strlit("config");
    reveal_strlit("workdir");
    lemma_key_without_t_or_s_not_secret("config"@);
    lemma_key_without_t_or_s_not_secret("workdir"@);
}

/// Every runtime operation but `config-init` (where `config` names the file
/// to write) runs with the configuration that `config` names: when it has a
/// value, the v8-runner argument vector begins with `--config` and that
/// value, in what is run and in what is reported.
pub proof fn lemma_runtime_config_comes_first(args: Seq<(String, JsonValue)>, redact: bool)
    requires
        !obj_has(args, "args"@),
        arg_str(args, "operation"@) matches Some(op) && (op == "init"@ || op == "build"@ || op
            == "dump"@ || op == "convert"@ || op == "make"@ || op == "load"@ || op == "syntax"@ || op
            == "test"@ || op == "launch"@ || op == "extensions"@),
        obj_get(args, "config"@) matches Some(v) && !(v is Null),
    ensures
        runtime_args_spec(args, redact) matches Ok(argv) && argv.len() >= 2 && argv[0] == "--config"@
            && argv[1] == cli_text(obj_get(args, "config"@)->0),
{
    reveal_strlit("config-init");
    reveal_strlit("init");
    reveal_strlit("build");
    reveal_strlit("dump");
    reveal_strlit("convert");
    reveal_strlit("make");
    reveal_strlit("load");
    reveal_strlit("syntax");
    reveal_strlit("test");
    reveal_strlit("launch");
    reveal_strlit("extensions");
    lemma_config_not_secret();
    let op = arg_str(args, "operation"@)->0;
    assert(op != "config-init"@) by {
        assert(op.len() != "config-init"@.len());
    }
}


/// The shape of every v8-runner command line: first `--config` and its value
/// (when `config` has one, for every operation but `config-init`), then
/// `--workdir` and its value (when `workdir` has one), then the operation
/// word (`config init` for `config-init`).
pub proof fn lemma_runtime_argv_layout(args: Seq<(String, JsonValue)>, redact: bool)
    requires
        !obj_has(args, "args"@),
        arg_str(args, "operation"@) matches Some(op) && (op == "config-init"@ || op == "init"@ || op
            == "build"@ || op == "dump"@ || op == "convert"@ || op == "make"@ || op == "load"@ || op
            == "syntax"@ || op == "test"@ || op == "launch"@ || op == "extensions"@),
    ensures
        ({
            let op = arg_str(args, "operation"@)->0;
            let config = obj_get(args, "config"@);
            let workdir = obj_get(args, "workdir"@);
            let has_config = op != "config-init"@ && config is Some && !(config->0 is Null);
            let has_workdir = workdir is Some && !(workdir->0 is Null);
            let g: int = if has_config { 2 } else { 0 };
            let w: int = if has_workdir { 2 } else { 0 };
            runtime_args_spec(args, redact) matches Ok(argv) && {
                &&& argv.len() > g + w
                &&& has_config ==> argv[0] == "--config"@ && argv[1] == cli_text(config->0)
                &&& has_workdir ==> argv[g] == "--workdir"@ && argv[g + 1] == cli_text(workdir->0)
                &&& op != "config-init"@ ==> argv[g + w] == op
                &&& op == "config-init"@ ==> argv.len() > g + w + 1 && argv[g + w] == "config"@
                    && argv[g + w + 1] == "init"@
            }
        }),
{
    reveal_strlit("config-init");
    reveal_strlit("init");
    reveal_strlit("build");
    reveal_strlit("dump");
    reveal_strlit("convert");
    reveal_strlit("make");
    reveal_strlit("load");
    reveal_strlit("syntax");
    reveal_strlit("test");
    reveal_strlit("launch");
    reveal_strlit("extensions");
    lemma_config_not_secret();
    let op = arg_str(args, "operation"@)->0;
    let tail = runtime_op_args(args, op, redact)->0;
    let globals = runtime_global_args(args, op, redact);
    assert(runtime_args_spec(args, redact) == Ok::<Seq<Seq<char>>, Seq<char>>(globals + tail));
    let g1 = if op != "config-init"@ {
        arg_pair(args, "--config"@, "config"@, redact)
    } else {
        seq![]
    };
    let g2 = arg_pair(args, "--workdir"@, "workdir"@, redact);
    assert(globals == g1 + g2);
    let argv = globals + tail;
    assert(argv[(g1.len() + g2.len()) as int] == tail[0]);
    if op == "config-init"@ {
        assert(argv[(g1.len() + g2.len() + 1) as int] == tail[1]);
    }
    if g1.len() > 0 {
        assert(argv[0] == g1[0] && argv[1] == g1[1]);
    }
    if g2.len() > 0 {
        assert(argv[g1.len() as int] == g2[0] && argv[(g1.len() + 1) as int] == g2[1]);
    }
}


proof fn lemma_pair_found(pre: Seq<Seq<char>>, pair: Seq<Seq<char>>, post: Seq<Seq<char>>, flag: Seq<char>, value: Seq<char>)
    requires
        pair == seq![flag, value],
    ensures
        pre.len() + 1 < (pre + pair + post).len(),
        pair_at(pre + pair + post, pre.len() as int, flag, value),
{
    let w = pre + pair + post;
    assert(w[pre.len() as int] == pair[0]);
    assert(w[(pre.len() + 1) as int] == pair[1]);
}

/// The call names the `extensions` operation.
pub open spec fn names_extensions(args: Seq<(String, JsonValue)>) -> bool {
    arg_str(args, "operation"@) == Some("extensions"@)
}

/// When an operation's own words hold `flag value`, so does its command line.
proof fn lemma_runtime_words_hold_pair(
    args: Seq<(String, JsonValue)>,
    pre: Seq<Seq<char>>,
    flag: Seq<char>,
    value: Seq<char>,
    post: Seq<Seq<char>>,
)
    requires
        !obj_has(args, "args"@),
        arg_str(args, "operation"@) is Some,
        runtime_op_args(args, arg_str(args, "operation"@)->0, false) == Some(pre + seq![flag, value]
            + post),
    ensures
        runtime_args_spec(args, false) matches Ok(argv) && exists|i: int|
            0 <= i && i + 1 < argv.len() && #[trigger] pair_at(argv, i, flag, value),
{
    let op = arg_str(args, "operation"@)->0;
    let globals = runtime_global_args(args, op, false);
    let argv = globals + (pre + seq![flag, value] + post);
    assert(runtime_args_spec(args, false) == Ok::<Seq<Seq<char>>, Seq<char>>(argv));
    assert(argv =~= (globals + pre) + seq![flag, value] + post);
    lemma_pair_found(globals + pre, seq![flag, value], post, flag, value);
    let k = (globals + pre).len() as int;
    assert(pair_at(argv, k, flag, value) && 0 <= k && k + 1 < argv.len());
    let x = runtime_args_spec(args, false)->Ok_0;
    assert(x =~= argv);
    assert(pair_at(x, k, flag, value) && k + 1 < x.len());
}

/// The source set that a runtime operation works on reaches v8-runner: for
/// `build`, `dump`, `convert`, `make` and `test` the command that runs holds
/// `--source-set` followed by the `sourceSet` value, and for `extensions`
/// `--name` followed by it.
#[verifier::rlimit(50)]
pub proof fn lemma_runtime_source_set_passed(args: Seq<(String, JsonValue)>)
    requires
        !obj_has(args, "args"@),
        arg_str(args, "operation"@) matches Some(op) && (op == "build"@ || op == "dump"@ || op
            == "convert"@ || op == "make"@ || op == "test"@ || op == "extensions"@),
        obj_get(args, "sourceSet"@) matches Some(v) && !(v is Null),
    ensures
        runtime_args_spec(args, false) matches Ok(argv) && {
            &&& !names_extensions(args) ==> exists|i: int|
                0 <= i && i + 1 < argv.len() && #[trigger] pair_at(
                    argv,
                    i,
                    "--source-set"@,
                    cli_text(obj_get(args, "sourceSet"@)->0),
                )
            &&& names_extensions(args) ==> exists|i: int|
                0 <= i && i + 1 < argv.len() && #[trigger] pair_at(
                    argv,
                    i,
                    "--name"@,
                    cli_text(obj_get(args, "sourceSet"@)->0),
                )
        },
{
    reveal_strlit("config-init");
    reveal_strlit("init");
    reveal_strlit("build");
    reveal_strlit("dump");
    reveal_strlit("convert");
    reveal_strlit("make");
    reveal_strlit("load");
    reveal_strlit("syntax");
    reveal_strlit("test");
    reveal_strlit("launch");
    reveal_strlit("extensions");
    assert("config-init"@.len() == 11 && "init"@.len() == 4 && "build"@.len() == 5 && "dump"@.len() == 4
        && "convert"@.len() == 7 && "make"@.len() == 4 && "load"@.len() == 4 && "syntax"@.len() == 6
        && "test"@.len() == 4 && "launch"@.len() == 6 && "extensions"@.len() == 10);
    assert("init"@[0] == 'i' && "dump"@[0] == 'd' && "make"@[0] == 'm' && "load"@[0] == 'l' && "test"@[0]
        == 't' && "syntax"@[0] == 's' && "launch"@[0] == 'l');
    let a = args;
    let r = false;
    let op = arg_str(args, "operation"@)->0;
    let v = cli_text(obj_get(args, "sourceSet"@)->0);
    let ext = arg_pair(a, "--extension"@, "extension"@, r);
    if op == "extensions"@ {
        let pair = arg_pair(a, "--name"@, "sourceSet"@, r);
        assert(pair == seq!["--name"@, v]);
        assert(extensions_args(a, r) =~= seq!["extensions"@] + seq!["--name"@, v] + ext);
        lemma_runtime_words_hold_pair(args, seq!["extensions"@], "--name"@, v, ext);
    } else {
        let pair = arg_pair(a, "--source-set"@, "sourceSet"@, r);
        assert(pair == seq!["--source-set"@, v]);
        let ss = seq!["--source-set"@, v];
        if op == "build"@ {
            let pre = seq!["build"@] + bool_flag(a, "--full-rebuild"@, "fullRebuild"@);
            assert(build_args(a, r) =~= pre + ss + ext);
            lemma_runtime_words_hold_pair(args, pre, "--source-set"@, v, ext);
        } else if op == "dump"@ {
            let pre = seq!["dump"@] + arg_pair(a, "--mode"@, "mode"@, r) + arg_pair(a, "--object"@, "object"@, r);
            assert(dump_args(a, r) =~= pre + ss + ext);
            lemma_runtime_words_hold_pair(args, pre, "--source-set"@, v, ext);
        } else if op == "convert"@ {
            let post = arg_pair(a, "--output"@, "output"@, r) + arg_pair(a, "--path"@, "path"@, r)
                + arg_pair(a, "--format"@, "format"@, r) + ext;
            assert(convert_args(a, r) =~= seq!["convert"@] + ss + post);
            lemma_runtime_words_hold_pair(args, seq!["convert"@], "--source-set"@, v, post);
        } else if op == "make"@ {
            let pre = seq!["make"@] + arg_pair(a, "--output"@, "output"@, r);
            assert(make_args(a, r) =~= pre + ss + ext);
            lemma_runtime_words_hold_pair(args, pre, "--source-set"@, v, ext);
        } else {
            let pre = seq!["test"@] + arg_value(a, "testRunner"@, r) + bool_flag(a, "--full"@, "fullRebuild"@)
                + arg_value(a, "testScope"@, r) + arg_value(a, "module"@, r);
            assert(test_args(a, r) =~= pre + ss + ext);
            lemma_runtime_words_hold_pair(args, pre, "--source-set"@, v, ext);
        }
    }
}

/// A full rebuild is asked of v8-runner right after the operation word: for
/// `build` with `fullRebuild` set to `true`, the word after `build` is
/// `--full-rebuild`.
pub proof fn lemma_runtime_full_rebuild_follows_operation(args: Seq<(String, JsonValue)>, redact: bool)
    requires
        !obj_has(args, "args"@),
        arg_str(args, "operation"@) == Some("build"@),
        obj_get(args, "fullRebuild"@) == Some(JsonValue::Bool(true)),
    ensures
        runtime_args_spec(args, redact) matches Ok(argv) && exists|i: int|
            0 <= i && i + 1 < argv.len() && argv[i] == "build"@ && #[trigger] argv[i + 1]
                == "--full-rebuild"@,
{
    reveal_strlit("config-init");
    reveal_strlit("init");
    reveal_strlit("build");
    assert("config-init"@.len() == 11 && "init"@.len() == 4 && "build"@.len() == 5);
    let op = "build"@;
    let globals = runtime_global_args(args, op, redact);
    let tail = build_args(args, redact);
    assert(tail =~= seq!["build"@, "--full-rebuild"@] + arg_pair(args, "--source-set"@, "sourceSet"@, redact)
        + arg_pair(args, "--extension"@, "extension"@, redact));
    let argv = globals + tail;
    let x = runtime_args_spec(args, redact)->Ok_0;
    assert(x =~= argv);
    let k = globals.len() as int;
    assert(x[k] == tail[0] && x[k + 1] == tail[1]);
}

} // verus!
