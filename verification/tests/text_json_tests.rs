use unica_coder::argv::kebab_case;
use unica_coder::events::{DomainEvent, DomainEventKind};
use unica_coder::json::{clone_value, JsonObject, JsonValue};
use unica_coder::text::{
    i64_to_string, join, lines, parse_u64, replace_char, to_ascii_lowercase, trim, trim_end,
    u64_to_string,
};
use unica_coder::workspace::{path_join, rlm_index_dir, state_path, Platform, WorkspaceContext};

#[test]
fn text_helpers_match_std() {
    assert_eq!(trim("\t a b \n"), "a b");
    assert_eq!(trim_end("  a \r\n"), "  a");
    assert_eq!(lines("a\r\nb\n\nc"), vec!["a", "b", "", "c"]);
    assert_eq!(lines("a\n"), vec!["a"]);
    assert!(lines("").is_empty());
    assert_eq!(join(&vec!["x".to_string(), "y".to_string()], ", "), "x, y");
    assert_eq!(u64_to_string(0), "0");
    assert_eq!(u64_to_string(18446744073709551615), "18446744073709551615");
    assert_eq!(i64_to_string(-9223372036854775808), "-9223372036854775808");
    assert_eq!(parse_u64("120"), Some(120));
    assert_eq!(parse_u64("18446744073709551616"), None);
    assert_eq!(parse_u64(""), None);
    assert_eq!(parse_u64("1e3"), None);
    assert_eq!(replace_char("a\"b", '"', "\"\""), "a\"\"b");
    assert_eq!(to_ascii_lowercase("DbPASSWORD Ё"), "dbpassword Ё");
}

#[test]
fn kebab_case_is_idempotent() {
    for key in ["sourceDir", "fullRebuild", "db_password", "mcpPort", "x"] {
        let once = kebab_case(key);
        assert_eq!(kebab_case(&once), once);
    }
}

#[test]
fn objects_read_the_value_written_last() {
    let mut o = JsonObject::new();
    o.insert("a".to_string(), JsonValue::Bool(true));
    o.insert("b".to_string(), JsonValue::Null);
    o.insert("a".to_string(), JsonValue::Bool(false));
    assert_eq!(o.entries.len(), 2);
    assert_eq!(o.get("a").and_then(|v| v.as_bool()), Some(false));
    assert!(o.get("b").unwrap().is_null());
    assert!(o.contains_key("b"));
    assert!(!o.contains_key("c"));
}

#[test]
fn cloned_values_are_the_same_document() {
    let mut inner = JsonObject::new();
    inner.insert("k".to_string(), JsonValue::Array(vec![JsonValue::Number("1".to_string())]));
    let v = JsonValue::Object(inner);
    let c = clone_value(&v);
    match c.get("k") {
        Some(JsonValue::Array(items)) => match &items[0] {
            JsonValue::Number(n) => assert_eq!(n, "1"),
            _ => panic!("not a number"),
        },
        _ => panic!("member lost"),
    }
}

#[test]
fn event_names_are_distinct() {
    let kinds = [
        DomainEventKind::ConfigXmlChanged,
        DomainEventKind::CfeChanged,
        DomainEventKind::MetadataChanged,
        DomainEventKind::FormChanged,
        DomainEventKind::ModuleChanged,
        DomainEventKind::RoleChanged,
        DomainEventKind::SkdChanged,
        DomainEventKind::MxlChanged,
        DomainEventKind::SubsystemChanged,
        DomainEventKind::TemplateChanged,
        DomainEventKind::SourceSetChanged,
        DomainEventKind::BuildCompleted,
    ];
    for (i, a) in kinds.iter().enumerate() {
        for b in kinds.iter().skip(i + 1) {
            assert_ne!(a.as_str(), b.as_str());
        }
    }
    assert_eq!(DomainEvent::new(DomainEventKind::FormChanged, "t").name(), "FormChanged");
}

#[test]
fn workspace_paths() {
    let ctx = WorkspaceContext {
        cwd: "/w".to_string(),
        workspace_root: "/w".to_string(),
        cache_root: "/w/.build/unica/".to_string(),
        workspace_epoch: 0,
        platform: Platform::Unix,
    };
    assert_eq!(state_path(&ctx), "/w/.build/unica/state.json");
    assert_eq!(rlm_index_dir(&ctx), "/w/.build/unica/rlm-tools-bsl");
    assert_eq!(path_join("/a", "/abs", Platform::Unix), "/abs");
    assert_eq!(path_join("", "rel", Platform::Unix), "rel");
    assert_eq!(path_join("/a", "b", Platform::Unix), "/a/b");
    assert_eq!(path_join("/a/", "b", Platform::Unix), "/a/b");
    assert_eq!(path_join("C:\\a", "b", Platform::Unix), "C:\\a/b");
}

#[test]
fn windows_paths_follow_windows_join_rules() {
    let w = Platform::Windows;
    assert_eq!(path_join("C:\\work", "caches", w), "C:\\work\\caches");
    assert_eq!(path_join("C:\\work\\", "caches", w), "C:\\work\\caches");
    assert_eq!(path_join("C:/work/", "caches", w), "C:/work/caches");
    assert_eq!(path_join("C:", "caches", w), "C:caches");
    assert_eq!(path_join("", "caches", w), "caches");
    assert_eq!(path_join("C:\\work", "D:\\other", w), "D:\\other");
    assert_eq!(path_join("C:\\work", "\\\\server\\share", w), "\\\\server\\share");
    assert_eq!(path_join("C:\\work", "\\top", w), "C:\\top");
    assert_eq!(path_join("work", "/top", w), "/top");
    let ctx = WorkspaceContext {
        cwd: "C:\\w".to_string(),
        workspace_root: "C:\\w".to_string(),
        cache_root: "C:\\w\\.build\\unica".to_string(),
        workspace_epoch: 0,
        platform: w,
    };
    assert_eq!(state_path(&ctx), "C:\\w\\.build\\unica\\state.json");
    assert_eq!(rlm_index_dir(&ctx), "C:\\w\\.build\\unica\\rlm-tools-bsl");
}
