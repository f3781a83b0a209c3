use unica_coder::application::{
    domain_events, dry_run_for, project_status, route, runtime_event, should_emit_events, Route,
    UnicaApplication,
};
use unica_coder::adapters::{Platform, ProcessCommand, ProcessOutput, ProcessRunner, RuntimeAdapter};
use unica_coder::cache::{default_state, CacheImpact, WorkspaceStateRepository};
use unica_coder::call::{CallAction, CallEvent, CallState};
use unica_coder::outcome::OperationResult;
use unica_coder::events::DomainEventKind;
use unica_coder::index::IndexStartReport;
use unica_coder::json::{JsonObject, JsonValue};
use unica_coder::outcome::AdapterOutcome;
use unica_coder::tools::{cache_access_for, configuration_tools, tools, ToolHandler};
use unica_coder::workspace::WorkspaceContext;

fn text(s: &str) -> JsonValue {
    JsonValue::String(s.to_string())
}

fn object(pairs: Vec<(&str, JsonValue)>) -> JsonObject {
    let mut o = JsonObject::new();
    for (k, v) in pairs {
        o.insert(k.to_string(), v);
    }
    o
}

fn find(name: &str) -> unica_coder::tools::ToolSpec {
    UnicaApplication::new().find_tool(name).unwrap()
}

#[test]
fn lists_unica_orchestrator_scope() {
    let names = tools().iter().map(|tool| tool.name).collect::<Vec<_>>();
    assert!(names.contains(&"unica.project.status"));
    assert!(names.contains(&"unica.form.validate"));
    assert!(names.contains(&"unica.skd.edit"));
    assert!(names.contains(&"unica.mxl.compile"));
    assert!(names.contains(&"unica.role.validate"));
    assert!(names.contains(&"unica.build.load"));
    assert!(names.contains(&"unica.runtime.execute"));
    assert!(names.contains(&"unica.standards.explain"));
    assert!(!names.contains(&"unica-coder"));
}

#[test]
fn catalogue_starts_with_configuration_tools_and_names_are_unique() {
    let all = tools();
    let config = configuration_tools();
    assert_eq!(all.len(), 50);
    assert_eq!(config.len(), 39);
    for (i, tool) in config.iter().enumerate() {
        assert_eq!(all[i].name, tool.name);
    }
    for (i, a) in all.iter().enumerate() {
        assert!(a.name.starts_with("unica."));
        for b in all.iter().skip(i + 1) {
            assert_ne!(a.name, b.name);
        }
    }
}

#[test]
fn unknown_tool_is_named_in_the_error() {
    let app = UnicaApplication::new();
    match app.find_tool("unica.nope") {
        Err(e) => assert_eq!(e, "unknown unica tool: unica.nope"),
        Ok(_) => panic!("expected an error"),
    }
    assert_eq!(app.find_tool("unica.cf.edit").unwrap().name, "unica.cf.edit");
}

#[test]
fn mutating_tool_defaults_to_dry_run() {
    let edit = find("unica.form.edit");
    assert!(edit.mutating);
    assert!(dry_run_for(&edit, &JsonObject::new()));
    assert!(!dry_run_for(&edit, &object(vec![("dryRun", JsonValue::Bool(false))])));
    let info = find("unica.form.info");
    assert!(!dry_run_for(&info, &JsonObject::new()));
    assert!(dry_run_for(&info, &object(vec![("dryRun", JsonValue::Bool(true))])));
    assert!(!dry_run_for(&info, &object(vec![("dryRun", text("true"))])));
}

#[test]
fn form_edit_emits_form_changed_event() {
    let edit = find("unica.form.edit");
    let events = domain_events(&edit, &JsonObject::new());
    assert_eq!(events.len(), 1);
    assert_eq!(events[0].name(), "FormChanged");
    assert_eq!(events[0].artifact, "unica.form.edit");
}

#[test]
fn runtime_event_follows_operation() {
    assert_eq!(
        runtime_event(&object(vec![("operation", text("dump"))])),
        Some(DomainEventKind::SourceSetChanged)
    );
    assert_eq!(
        runtime_event(&object(vec![("operation", text("launch")), ("clientMode", text("thin"))])),
        None
    );
    let runtime = find("unica.runtime.execute");
    let events = domain_events(&runtime, &object(vec![("operation", text("dump"))]));
    assert_eq!(events[0].name(), "SourceSetChanged");
    assert!(domain_events(&runtime, &object(vec![("operation", text("launch"))])).is_empty());
}

#[test]
fn events_need_a_mutating_tool_that_ran_dry_or_succeeded() {
    let edit = find("unica.form.edit");
    let info = find("unica.form.info");
    let ok = AdapterOutcome::ok("done".to_string());
    let failed = AdapterOutcome::failure("bad".to_string(), "e".to_string(), Vec::new());
    assert!(should_emit_events(&edit, true, &failed));
    assert!(should_emit_events(&edit, false, &ok));
    assert!(!should_emit_events(&edit, false, &failed));
    assert!(!should_emit_events(&info, true, &ok));
}

#[test]
fn project_status_is_read_only_and_names_workspace_root() {
    let context = WorkspaceContext {
        cwd: "/w".to_string(),
        workspace_root: "/w".to_string(),
        cache_root: "/w/.build/unica".to_string(),
        workspace_epoch: 7,
        platform: Platform::Unix,
    };
    let outcome = project_status(&context);
    assert!(outcome.ok);
    assert!(outcome.summary.contains("workspace root"));
    assert!(outcome.changes.is_empty());
}

#[test]
fn cache_access_depends_on_operation_family() {
    let forms = cache_access_for("form-info", None);
    assert_eq!(forms.reads, &["metadata_graph", "form_graph"]);
    assert!(forms.writes.is_empty());
    let changed = cache_access_for("form-edit", Some(DomainEventKind::FormChanged));
    assert!(changed.reads.is_empty());
    assert_eq!(changed.writes, &["metadata_graph"]);
    let other = cache_access_for("cf-info", None);
    assert_eq!(other.reads, &["workspace_graph", "metadata_graph"]);
}

#[test]
fn configuration_tools_route_to_native_operations() {
    for tool in configuration_tools() {
        match tool.handler {
            ToolHandler::NativeOperation { .. } => {}
            _ => panic!("{} is not a native operation", tool.name),
        }
    }
}

#[test]
fn tools_route_to_their_adapters() {
    assert!(matches!(route(&find("unica.code.search")), Route::CodeSearch));
    match route(&find("unica.code.diagnostics")) {
        Route::Cli { launcher, command, label } => {
            assert_eq!(launcher, "run-bsl-analyzer.sh");
            assert_eq!(command, &["analyze"]);
            assert_eq!(label, "code analysis");
        }
        _ => panic!("diagnostics run the analyzer"),
    }
    match route(&find("unica.build.load")) {
        Route::Cli { launcher, command, label } => {
            assert_eq!(launcher, "run-v8-runner.sh");
            assert_eq!(command, &["build"]);
            assert_eq!(label, "build/runtime");
        }
        _ => panic!("builds run v8-runner"),
    }
    assert!(matches!(route(&find("unica.runtime.execute")), Route::Runtime));
    assert!(matches!(route(&find("unica.project.status")), Route::ProjectStatus));
    assert!(matches!(route(&find("unica.standards.explain")), Route::Standards { operation: "explain" }));
    assert!(matches!(route(&find("unica.cf.edit")), Route::NativeOperation { .. }));
}

#[test]
fn unknown_tools_are_refused_before_anything_runs() {
    let app = UnicaApplication::new();
    let (_, action) = app.call_step(&JsonObject::new(), CallState::Begin, CallEvent::Called { name: "unica.nope".to_string() });
    match action {
        CallAction::Finish(Err(e)) => assert_eq!(e, "unknown unica tool: unica.nope"),
        _ => panic!("expected a refusal"),
    }
}

#[test]
fn mutating_tool_defaults_to_dry_run_and_reports_cache() {
    let app = UnicaApplication::new();
    let args = object(vec![("cwd", text("/w"))]);
    let (state, action) = app.call_step(&args, CallState::Begin, CallEvent::Called { name: "unica.form.edit".to_string() });
    match action {
        CallAction::DiscoverWorkspace { cwd } => assert_eq!(cwd.as_deref(), Some("/w")),
        _ => panic!("the workspace comes first"),
    }
    let (state, action) = app.call_step(&args, state, CallEvent::Workspace(Ok(())));
    assert!(matches!(action, CallAction::StartIndex { dry_run: true }));
    let mut index = IndexStartReport::empty();
    index.warnings.push("rlm index building".to_string());
    let (state, action) = app.call_step(&args, state, CallEvent::IndexStarted(index));
    match action {
        CallAction::RunAdapter { route, tool_name, mutating, dry_run } => {
            assert!(matches!(route, Route::NativeOperation { operation: "form-edit" }));
            assert_eq!(tool_name, "unica.form.edit");
            assert!(mutating);
            assert!(dry_run);
        }
        _ => panic!("the adapter runs next"),
    }
    let outcome = AdapterOutcome::ok("dry run: unica.form.edit".to_string());
    let (state, action) = app.call_step(&args, state, CallEvent::AdapterDone(Ok(outcome)));
    match &action {
        CallAction::ReportCache { events, dry_run, cache_access } => {
            assert_eq!(events.len(), 1);
            assert_eq!(events[0].name(), "FormChanged");
            assert!(*dry_run);
            assert_eq!(cache_access.writes, &["metadata_graph"]);
        }
        _ => panic!("the caches are reported next"),
    }
    let report = match action {
        CallAction::ReportCache { events, dry_run, cache_access } => {
            let ctx = workspace();
            let repo = WorkspaceStateRepository::new(&ctx);
            let invalidated: Vec<String> = cache_access.writes.iter().map(|s| s.to_string()).collect();
            let impact = CacheImpact { invalidated, eager_refresh: Vec::new() };
            repo.report(default_state(&ctx), &ctx, &events, &impact, dry_run, cache_access, false, ctx.cache_root.clone())
                .report
        }
        _ => panic!("the caches are reported next"),
    };
    let (_, action) = app.call_step(&args, state, CallEvent::CacheReported(Ok(report)));
    match action {
        CallAction::Finish(Ok(result)) => {
            assert!(result.ok);
            assert!(result.summary.contains("dry run"));
            assert_eq!(result.warnings, vec!["rlm index building"]);
            assert!(result.command.is_none());
            assert_eq!(result.cache.mode, "dry-run");
            assert!(result.cache.events.contains(&"FormChanged".to_string()));
            assert!(result.cache.invalidated.contains(&"metadata_graph".to_string()));
            assert!(result.cache.refreshed.is_empty());
        }
        _ => panic!("expected the answer"),
    }
}

#[test]
fn failures_end_the_call_with_their_error() {
    let app = UnicaApplication::new();
    let args = JsonObject::new();
    let (state, action) = app.call_step(&args, CallState::Begin, CallEvent::Called { name: "unica.project.status".to_string() });
    assert!(matches!(action, CallAction::DiscoverWorkspace { cwd: None }));
    let (_, action) = app.call_step(&args, state, CallEvent::Workspace(Err("no cwd".to_string())));
    match action {
        CallAction::Finish(Err(e)) => assert_eq!(e, "no cwd"),
        _ => panic!("expected the error"),
    }
    let (_, action) = app.call_step(&args, CallState::Begin, CallEvent::Workspace(Ok(())));
    match action {
        CallAction::Finish(Err(e)) => assert_eq!(e, "tool call steps came out of order"),
        _ => panic!("expected the error"),
    }
}

struct NoProcess;

impl ProcessRunner for NoProcess {
    fn run(&self, _command: &ProcessCommand) -> Result<ProcessOutput, String> {
        Err("no process may run here".to_string())
    }
}

fn workspace() -> WorkspaceContext {
    WorkspaceContext {
        cwd: "/w".to_string(),
        workspace_root: "/w".to_string(),
        cache_root: "/w/.build/unica".to_string(),
        workspace_epoch: 3,
        platform: Platform::Unix,
    }
}

/// Drives a call through its steps, with the runtime adapter and the cache
/// report of the library and nothing on disk.
fn run_call(name: &str, args: &JsonObject) -> Result<OperationResult, String> {
    let app = UnicaApplication::new();
    let ctx = workspace();
    let mut state = CallState::Begin;
    let mut event = CallEvent::Called { name: name.to_string() };
    loop {
        let (next, action) = app.call_step(args, state, event);
        state = next;
        event = match action {
            CallAction::DiscoverWorkspace { .. } => CallEvent::Workspace(Ok(())),
            CallAction::StartIndex { .. } => CallEvent::IndexStarted(IndexStartReport::empty()),
            CallAction::RunAdapter { route, tool_name, mutating, dry_run } => CallEvent::AdapterDone(match route {
                Route::Runtime => RuntimeAdapter::new().invoke(
                    &NoProcess, tool_name, args, &ctx.cwd, Some("/p"), true, Platform::Unix, dry_run, mutating,
                ),
                Route::ProjectStatus => Ok(project_status(&ctx)),
                _ => Err("adapter not available here".to_string()),
            }),
            CallAction::ReportCache { events, dry_run, cache_access } => {
                let repo = WorkspaceStateRepository::new(&ctx);
                let impact = CacheImpact { invalidated: Vec::new(), eager_refresh: Vec::new() };
                let plan = repo.report(default_state(&ctx), &ctx, &events, &impact, dry_run, cache_access, false, ctx.cache_root.clone());
                CallEvent::CacheReported(Ok(plan.report))
            }
            CallAction::Finish(result) => return result,
        };
    }
}

#[test]
fn runtime_execute_defaults_to_dry_run_and_maps_cache_event_by_operation() {
    let args = object(vec![("operation", text("dump"))]);

    let result = run_call("unica.runtime.execute", &args).unwrap();

    assert!(result.ok);
    assert!(result.summary.contains("dry run"));
    assert_eq!(result.cache.mode, "dry-run");
    assert!(result.cache.events.contains(&"SourceSetChanged".to_string()));
    assert!(result.command.unwrap().join(" ").contains(" dump"));
}

#[test]
fn runtime_event_is_not_emitted_for_non_invalidating_operations() {
    let args = object(vec![("operation", text("launch")), ("clientMode", text("thin"))]);

    let result = run_call("unica.runtime.execute", &args).unwrap();

    assert!(result.ok);
    assert!(result.cache.events.is_empty());
    assert_eq!(result.cache.mode, "read");
}

#[test]
fn project_status_is_read_only_and_cache_aware() {
    let result = run_call("unica.project.status", &JsonObject::new()).unwrap();
    assert!(result.ok);
    assert_eq!(result.cache.mode, "read");
    assert!(result.summary.contains("workspace root"));
}

#[test]
fn configuration_tools_are_named_after_their_operations() {
    for tool in configuration_tools() {
        match tool.handler {
            ToolHandler::NativeOperation { operation, event } => {
                let expected = tool.name.strip_prefix("unica.").unwrap().replace('.', "-").replace('_', "-");
                assert_eq!(operation, expected);
                assert_eq!(tool.mutating, event.is_some());
                let access = cache_access_for(operation, event);
                assert_eq!(tool.cache_access.reads, access.reads);
                assert_eq!(tool.cache_access.writes, access.writes);
            }
            _ => panic!("configuration tool without a native operation: {}", tool.name),
        }
    }
}
