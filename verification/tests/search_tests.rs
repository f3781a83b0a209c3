use unica_coder::index::IndexReadiness;
use unica_coder::json::{JsonObject, JsonValue};
use unica_coder::outcome::AdapterOutcome;
use unica_coder::search::{
    format_section, fts_query, rlm_listing, rlm_row_line, rlm_search_terms, CodeSearchAdapter,
    SearchAction, SearchEvent, SearchState,
};
use unica_coder::adapters::{AdapterStep, Platform};

fn object(pairs: Vec<(&str, JsonValue)>) -> JsonObject {
    let mut o = JsonObject::new();
    for (k, v) in pairs {
        o.insert(k.to_string(), v);
    }
    o
}

fn analyzer(stdout: &str) -> AdapterOutcome {
    let mut o = AdapterOutcome::ok("unica.code.search completed through internal code analysis adapter".to_string());
    o.stdout = Some(stdout.to_string());
    o.stderr = Some(String::new());
    o
}

#[test]
fn sections_have_titles_and_trimmed_bodies() {
    assert_eq!(format_section("rlm", "a\n\n"), "=== rlm ===\na");
    assert_eq!(format_section("rlm", "  \n"), "=== rlm ===");
}

#[test]
fn code_search_adapter_returns_analyzer_section_when_rlm_index_is_missing() {
    let merged = CodeSearchAdapter::new().merge(analyzer("analyzer hit\n"), &IndexReadiness::Missing, &Ok(None));
    assert_eq!(merged.stdout.as_deref(), Some("=== bsl-analyzer ===\nanalyzer hit"));
    assert!(merged.warnings.iter().any(|w| w.contains("rlm index unavailable")));
}

#[test]
fn code_search_adapter_adds_rlm_section_when_index_is_ready() {
    let listing = rlm_listing(&vec![rlm_row_line(
        "CommonModules/Проведение.bsl",
        42,
        "Procedure",
        "ОбработкаПроведения",
        Some(" "),
        1,
    )]);
    let ready = IndexReadiness::Ready { db_path: "/c/rlm-tools-bsl/test/bsl_index.db".to_string() };
    let merged = CodeSearchAdapter::new().merge(analyzer("analyzer hit"), &ready, &Ok(Some(listing)));
    let stdout = merged.stdout.unwrap();
    assert!(stdout.starts_with("=== bsl-analyzer ===\nanalyzer hit"));
    assert!(stdout.contains("=== rlm ==="));
    assert!(stdout.contains("CommonModules/Проведение.bsl:42"));
    assert!(stdout.contains("Procedure ОбработкаПроведения() export"));
    assert!(merged.warnings.is_empty());
}

#[test]
fn index_states_become_warnings() {
    let adapter = CodeSearchAdapter::new();
    let building = adapter.merge(analyzer(""), &IndexReadiness::Stale, &Ok(None));
    assert_eq!(building.warnings, vec!["rlm index building"]);
    assert_eq!(building.stdout.as_deref(), Some("=== bsl-analyzer ==="));
    let failed = adapter.merge(analyzer(""), &IndexReadiness::Failed("disk".to_string()), &Ok(None));
    assert_eq!(failed.warnings, vec!["rlm index unavailable: disk"]);
    let ready = IndexReadiness::Ready { db_path: "/db".to_string() };
    let search_failed = adapter.merge(analyzer(""), &ready, &Err("no such table".to_string()));
    assert_eq!(search_failed.warnings, vec!["rlm search failed: no such table"]);
}

#[test]
fn search_terms_and_queries() {
    let args = object(vec![("query", JsonValue::String("  Проведение ".to_string())), ("limit", JsonValue::Number("5".to_string()))]);
    assert_eq!(rlm_search_terms(&args), Some(("Проведение".to_string(), 5)));
    let default_limit = object(vec![("query", JsonValue::String("x".to_string())), ("limit", JsonValue::Number("-1".to_string()))]);
    assert_eq!(rlm_search_terms(&default_limit), Some(("x".to_string(), 20)));
    assert_eq!(rlm_search_terms(&object(vec![("query", JsonValue::String("   ".to_string()))])), None);
    assert_eq!(rlm_search_terms(&JsonObject::new()), None);
    assert_eq!(fts_query("say \"hi\""), "\"say \"\"hi\"\"\"");
    assert_eq!(rlm_listing(&Vec::new()), "No RLM method matches.");
    assert_eq!(rlm_row_line("M.bsl", -1, "Function", "F", None, 0), "- M.bsl:-1 Function F()");
}

#[test]
fn code_search_adapter_dry_run_builds_bsl_analyzer_search_command() {
    let args = object(vec![("query", JsonValue::String("ОбработкаПроведения".to_string()))]);
    let step = CodeSearchAdapter::new()
        .plan("unica.code.search", &args, "/w", Some("/p"), true, Platform::Unix, true)
        .ok()
        .unwrap();
    match step {
        AdapterStep::Done(o) => {
            let command = o.command.unwrap().join(" ");
            assert!(command.contains("run-bsl-analyzer"));
            assert!(command.contains("search"));
            assert!(command.contains("--query"));
            assert!(command.contains("ОбработкаПроведения"));
            assert!(o.changes.is_empty());
        }
        AdapterStep::Run { .. } => panic!("a dry run runs nothing"),
    }
}

#[test]
fn search_steps_ask_the_index_and_search_only_when_ready() {
    let adapter = CodeSearchAdapter::new();
    let (state, action) = adapter.search_step(false, SearchState::Analyzing, SearchEvent::Analyzed(analyzer("hit")));
    assert!(matches!(action, SearchAction::AskIndex));
    let ready = IndexReadiness::Ready { db_path: "/db".to_string() };
    let (state, action) = adapter.search_step(false, state, SearchEvent::IndexAnswered(ready));
    match action {
        SearchAction::SearchDatabase(path) => assert_eq!(path, "/db"),
        _ => panic!("a ready index is searched"),
    }
    let (_, action) = adapter.search_step(false, state, SearchEvent::Searched(Ok(Some("- M.bsl:1 Procedure P()".to_string()))));
    match action {
        SearchAction::Answer(o) => assert_eq!(o.stdout.as_deref(), Some("=== bsl-analyzer ===\nhit\n\n=== rlm ===\n- M.bsl:1 Procedure P()")),
        _ => panic!("expected the answer"),
    }

    let (state, _) = adapter.search_step(false, SearchState::Analyzing, SearchEvent::Analyzed(analyzer("hit")));
    let (_, action) = adapter.search_step(false, state, SearchEvent::IndexAnswered(IndexReadiness::Building));
    match action {
        SearchAction::Answer(o) => assert_eq!(o.warnings, vec!["rlm index building"]),
        _ => panic!("a building index is not searched"),
    }

    let (_, action) = adapter.search_step(true, SearchState::Analyzing, SearchEvent::Analyzed(analyzer("hit")));
    match action {
        SearchAction::Answer(o) => assert_eq!(o.stdout.as_deref(), Some("hit")),
        _ => panic!("a dry run answers at once"),
    }
}
